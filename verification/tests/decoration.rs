use window_decor::adjuster::blurred_title;
use window_decor::adjuster::decorate_window;
use window_decor::adjuster::handle_event;
use window_decor::adjuster::plan_decoration;
use window_decor::adjuster::record_applied;
use window_decor::adjuster::transparent_tint;
use window_decor::AppEvent;
use window_decor::FrameRefresh;
use window_decor::NativeHandle;
use window_decor::Outcome;
use window_decor::Plan;
use window_decor::Platform;
use window_decor::StyleUpdate;
use window_decor::Tint;
use window_decor::Window;
use window_decor::WindowEffectState;

fn fresh_window() -> Window {
    Window {
        title: String::from("Hello, world!"),
        style: 0x00C4_0000,
        handle: NativeHandle::Win32(42),
        effect: None,
    }
}

fn transparent() -> Tint {
    Tint { red: 0, green: 0, blue: 0, alpha: 0 }
}

fn in_place_refresh() -> FrameRefresh {
    FrameRefresh { keep_position: true, keep_size: true, keep_z_order: true, frame_changed: true }
}

#[test]
fn fixed_values() {
    assert_eq!(blurred_title(), "Blurred Window");
    assert_eq!(transparent_tint(), transparent());
}

#[test]
fn startup_event_applies_blur() {
    let mut state = WindowEffectState::new();
    let mut window = Some(fresh_window());
    let outcome = handle_event(&mut state, &mut window, Platform::Windows, true,
        &AppEvent::ApplyBlur);
    let expected = Outcome::Applied {
        restyle: Some(StyleUpdate { new_style: 0x0004_0000, refresh: in_place_refresh() }),
        tint: transparent(),
    };
    assert_eq!(outcome, Some(expected));
    assert!(state.blur_applied);
    let w = window.unwrap();
    assert_eq!(w.title, "Blurred Window");
    assert_eq!(w.style, 0x0004_0000);
    assert_eq!(w.effect, Some(transparent()));
}

#[test]
fn second_call_changes_nothing() {
    let mut state = WindowEffectState::new();
    let mut window = fresh_window();
    let first = decorate_window(&mut state, &mut window, Platform::Windows, true);
    assert!(matches!(first, Outcome::Applied { .. }));
    let title_after_first = window.title.clone();
    let style_after_first = window.style;
    let effect_after_first = window.effect;
    let second = decorate_window(&mut state, &mut window, Platform::Windows, true);
    assert_eq!(second, Outcome::AlreadyApplied);
    assert!(state.blur_applied);
    assert_eq!(window.title, title_after_first);
    assert_eq!(window.style, style_after_first);
    assert_eq!(window.effect, effect_after_first);
}

#[test]
fn no_window_is_a_silent_no_op() {
    let mut state = WindowEffectState::new();
    let mut window: Option<Window> = None;
    let outcome = handle_event(&mut state, &mut window, Platform::Windows, true,
        &AppEvent::ApplyBlur);
    assert_eq!(outcome, None);
    assert!(!state.blur_applied);
    assert!(window.is_none());
}

#[test]
fn unexpected_handle_reports_a_mismatch() {
    let mut state = WindowEffectState::new();
    let mut window = Window {
        title: String::from("Hello, world!"),
        style: 0x00C4_0000,
        handle: NativeHandle::Unknown,
        effect: None,
    };
    let outcome = decorate_window(&mut state, &mut window, Platform::Windows, true);
    assert_eq!(outcome, Outcome::HandleMismatch);
    assert!(!state.blur_applied);
    // the title was already set; nothing further was touched
    assert_eq!(window.title, "Blurred Window");
    assert_eq!(window.style, 0x00C4_0000);
    assert_eq!(window.effect, None);
}

#[test]
fn unexpected_handle_plans_an_abort() {
    let state = WindowEffectState::new();
    let plan = plan_decoration(&state, Platform::Windows, NativeHandle::Unknown, 0x00C4_0000);
    assert_eq!(plan, Plan::Abort);
}

#[test]
fn compositor_refusal_keeps_blur_unrecorded() {
    let mut state = WindowEffectState::new();
    let mut window = fresh_window();
    let outcome = decorate_window(&mut state, &mut window, Platform::Windows, false);
    assert_eq!(outcome, Outcome::CompositorFailure);
    assert!(!state.blur_applied);
    // title and chrome changes stand, nothing is rolled back
    assert_eq!(window.title, "Blurred Window");
    assert_eq!(window.style, 0x0004_0000);
    assert_eq!(window.effect, None);
}

#[test]
fn other_platform_plans_no_restyle() {
    let mut state = WindowEffectState::new();
    let plan = plan_decoration(&state, Platform::Other, NativeHandle::Unknown, 0);
    assert_eq!(plan, Plan::Perform { restyle: None, tint: transparent() });
    record_applied(&mut state);
    assert!(state.blur_applied);
    let again = plan_decoration(&state, Platform::Other, NativeHandle::Unknown, 0);
    assert_eq!(again, Plan::Skip);
}

#[test]
fn other_platform_procedure_leaves_style_alone() {
    let mut state = WindowEffectState::new();
    let mut window = Window {
        title: String::from("Hello, world!"),
        style: 0x00C4_0000,
        handle: NativeHandle::Unknown,
        effect: None,
    };
    let outcome = decorate_window(&mut state, &mut window, Platform::Other, true);
    assert_eq!(outcome, Outcome::Applied { restyle: None, tint: transparent() });
    assert!(state.blur_applied);
    assert_eq!(window.title, "Blurred Window");
    assert_eq!(window.style, 0x00C4_0000);
    assert_eq!(window.effect, Some(transparent()));
}
