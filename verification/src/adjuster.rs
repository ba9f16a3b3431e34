//! The Window Decoration Adjuster.
//!
//! One procedure, run at most once per window in response to a single
//! startup event: set the window title, remove the title-bar chrome on the
//! platform that exposes raw style bits, enable an acrylic blur effect with
//! a fully transparent tint, and record that the effect has been applied.
//! The effects are applied in that order, best-effort, and none is rolled
//! back on a partial failure. A native handle of an unexpected type, or a
//! compositor that refuses the blur, is fatal; a missing window, or an
//! already-applied blur, is a silent no-op.

use vstd::prelude::*;

use crate::chrome::adjust_chrome;
use crate::chrome::spec_adjust_chrome;
use crate::chrome::spec_style_after;
use crate::chrome::ChromeOutcome;
use crate::chrome::NativeHandle;
use crate::chrome::Platform;
use crate::chrome::StyleUpdate;

verus! {

/// The events the application dispatches; a single one, emitted once at
/// startup after the window exists.
#[derive(Clone, Copy, PartialEq, Eq, Structural, Debug)]
pub enum AppEvent {
    ApplyBlur,
}

/// The one piece of persistent state: whether the blur effect has been
/// applied to the window. It starts false and transitions to true at most
/// once, never back.
#[derive(Clone, Copy, PartialEq, Eq, Structural, Debug)]
pub struct WindowEffectState {
    pub blur_applied: bool,
}

impl WindowEffectState {
    /// The state at application startup: no blur applied yet.
    pub fn new() -> (s: Self)
        ensures
            !s.blur_applied,
    {
        WindowEffectState { blur_applied: false }
    }
}

/// An RGBA tint handed to the compositor together with the blur request.
#[derive(Clone, Copy, PartialEq, Eq, Structural, Debug)]
pub struct Tint {
    pub red: u8,
    pub green: u8,
    pub blue: u8,
    pub alpha: u8,
}

/// The fully transparent tint the procedure always requests.
pub open spec fn spec_transparent_tint() -> Tint {
    Tint { red: 0, green: 0, blue: 0, alpha: 0 }
}

/// Build the fully transparent tint.
pub fn transparent_tint() -> (t: Tint)
    ensures
        t == spec_transparent_tint(),
{
    Tint { red: 0, green: 0, blue: 0, alpha: 0 }
}

/// The title the procedure gives the window.
pub open spec fn spec_blurred_title() -> Seq<char> {
    "Blurred Window"@
}

/// Build the title the procedure gives the window.
pub fn blurred_title() -> (t: String)
    ensures
        t@ == spec_blurred_title(),
{
    String::from_str("Blurred Window")
}

/// The adjuster's model of the application window: exactly what the
/// procedure reads and writes of a live window — its title, its style
/// bitmask, its native handle, and the tint of the blur effect the
/// compositor currently applies to it (none before the procedure runs).
pub struct Window {
    pub title: String,
    pub style: u32,
    pub handle: NativeHandle,
    pub effect: Option<Tint>,
}

/// The mathematical value of a window: the same fields, with the title as a
/// sequence of characters.
#[verifier::ext_equal]
pub struct WindowView {
    pub title: Seq<char>,
    pub style: u32,
    pub handle: NativeHandle,
    pub effect: Option<Tint>,
}

impl View for Window {
    type V = WindowView;

    open spec fn view(&self) -> WindowView {
        WindowView {
            title: self.title@,
            style: self.style,
            handle: self.handle,
            effect: self.effect,
        }
    }
}

/// How one run of the decoration procedure ended.
#[derive(Clone, Copy, PartialEq, Eq, Debug)]
pub enum Outcome {
    /// The guard was hit: blur had been applied before; nothing changed.
    AlreadyApplied,
    /// Fatal: the native handle was not of the expected platform type. The
    /// title was already set; nothing further was touched.
    HandleMismatch,
    /// Fatal: the compositor refused the blur effect. Title and chrome
    /// changes stand; the blur is not recorded as applied.
    CompositorFailure,
    /// Every effect applied: the restyle performed, if the platform has one,
    /// and the tint the blur was enabled with.
    Applied { restyle: Option<StyleUpdate>, tint: Tint },
}

/// The whole procedure as a function on values: from the state, the window
/// and the platform — and whether the compositor accepts the blur — to the
/// state, the window and the outcome after the run.
pub open spec fn spec_decorate(
    s: WindowEffectState,
    w: WindowView,
    platform: Platform,
    compositor_ok: bool,
) -> (WindowEffectState, WindowView, Outcome) {
    if s.blur_applied {
        (s, w, Outcome::AlreadyApplied)
    } else {
        let titled = WindowView {
            title: spec_blurred_title(),
            style: w.style,
            handle: w.handle,
            effect: w.effect,
        };
        match spec_adjust_chrome(platform, w.handle, w.style) {
            ChromeOutcome::Mismatch => (s, titled, Outcome::HandleMismatch),
            chrome => {
                let restyle = match chrome {
                    ChromeOutcome::Restyle(update) => Some(update),
                    _ => None,
                };
                let styled = WindowView {
                    title: titled.title,
                    style: spec_style_after(platform, w.handle, w.style),
                    handle: w.handle,
                    effect: w.effect,
                };
                if !compositor_ok {
                    (s, styled, Outcome::CompositorFailure)
                } else {
                    let blurred = WindowView {
                        title: styled.title,
                        style: styled.style,
                        handle: w.handle,
                        effect: Some(spec_transparent_tint()),
                    };
                    (
                        WindowEffectState { blur_applied: true },
                        blurred,
                        Outcome::Applied { restyle, tint: spec_transparent_tint() },
                    )
                }
            },
        }
    }
}

/// Run the decoration procedure on a window.
///
/// `compositor_ok` is the compositor's answer to the blur request: the
/// procedure is specified for either answer, and the caller passes in what
/// the platform effects API reported.
pub fn decorate_window(
    state: &mut WindowEffectState,
    window: &mut Window,
    platform: Platform,
    compositor_ok: bool,
) -> (r: Outcome)
    ensures
        (*final(state), final(window)@, r) == spec_decorate(
            *old(state),
            old(window)@,
            platform,
            compositor_ok,
        ),
        r matches Outcome::Applied { .. } ==> final(window)@.title == spec_blurred_title()
            && final(window)@.effect == Some(spec_transparent_tint())
            && final(state).blur_applied,
{
    if state.blur_applied {
        return Outcome::AlreadyApplied;
    }
    window.title = blurred_title();
    let chrome = adjust_chrome(platform, window.handle, window.style);
    let restyle: Option<StyleUpdate> = match chrome {
        ChromeOutcome::Mismatch => {
            return Outcome::HandleMismatch;
        },
        ChromeOutcome::NoOp => None,
        ChromeOutcome::Restyle(update) => {
            window.style = update.new_style;
            Some(update)
        },
    };
    if !compositor_ok {
        return Outcome::CompositorFailure;
    }
    window.effect = Some(transparent_tint());
    state.blur_applied = true;
    Outcome::Applied { restyle, tint: transparent_tint() }
}

/// What a caller driving a live window has to perform, decided from the
/// state, the platform, the window's handle and its current style bitmask.
#[derive(Clone, Copy, PartialEq, Eq, Debug)]
pub enum Plan {
    /// Blur was already applied: perform nothing.
    Skip,
    /// The native handle is not of the expected platform type: abort after
    /// setting the title.
    Abort,
    /// Set the title, write the new style back if a restyle is given, then
    /// enable the blur with this tint.
    Perform { restyle: Option<StyleUpdate>, tint: Tint },
}

/// The decision half of the procedure, as a function on values.
pub open spec fn spec_plan(
    s: WindowEffectState,
    platform: Platform,
    handle: NativeHandle,
    style: u32,
) -> Plan {
    if s.blur_applied {
        Plan::Skip
    } else {
        match spec_adjust_chrome(platform, handle, style) {
            ChromeOutcome::Mismatch => Plan::Abort,
            ChromeOutcome::NoOp => Plan::Perform {
                restyle: None,
                tint: spec_transparent_tint(),
            },
            ChromeOutcome::Restyle(update) => Plan::Perform {
                restyle: Some(update),
                tint: spec_transparent_tint(),
            },
        }
    }
}

/// Decide what to perform on a live window. The caller carries the plan out
/// against the platform APIs and, once the compositor has accepted the blur,
/// records the application with [`record_applied`].
pub fn plan_decoration(
    state: &WindowEffectState,
    platform: Platform,
    handle: NativeHandle,
    style: u32,
) -> (p: Plan)
    ensures
        p == spec_plan(*state, platform, handle, style),
{
    if state.blur_applied {
        return Plan::Skip;
    }
    match adjust_chrome(platform, handle, style) {
        ChromeOutcome::Mismatch => Plan::Abort,
        ChromeOutcome::NoOp => Plan::Perform { restyle: None, tint: transparent_tint() },
        ChromeOutcome::Restyle(update) => Plan::Perform {
            restyle: Some(update),
            tint: transparent_tint(),
        },
    }
}

/// Record that the blur effect has been applied; called once the compositor
/// accepted the blur request.
pub fn record_applied(state: &mut WindowEffectState)
    ensures
        *final(state) == (WindowEffectState { blur_applied: true }),
{
    state.blur_applied = true;
}

/// The window views of an optional window.
pub open spec fn spec_view_opt(w: Option<Window>) -> Option<WindowView> {
    match w {
        Option::None => Option::<WindowView>::None,
        Option::Some(x) => Option::Some(x@),
    }
}

/// One event dispatch as a function on values: with no window the state and
/// the (absent) window are untouched and there is no outcome; with a window
/// the procedure runs on it.
pub open spec fn spec_handle_event(
    s: WindowEffectState,
    w: Option<WindowView>,
    platform: Platform,
    compositor_ok: bool,
    event: AppEvent,
) -> (WindowEffectState, Option<WindowView>, Option<Outcome>) {
    match event {
        AppEvent::ApplyBlur => match w {
            Option::None => (s, Option::<WindowView>::None, Option::<Outcome>::None),
            Option::Some(wv) => {
                let (s1, wv1, outcome) = spec_decorate(s, wv, platform, compositor_ok);
                (s1, Option::Some(wv1), Option::Some(outcome))
            },
        },
    }
}

/// Handle one application event. If no window exists yet the event is
/// silently skipped: the state keeps its value and no effect is requested.
pub fn handle_event(
    state: &mut WindowEffectState,
    window: &mut Option<Window>,
    platform: Platform,
    compositor_ok: bool,
    event: &AppEvent,
) -> (r: Option<Outcome>)
    ensures
        (*final(state), spec_view_opt(*final(window)), r) == spec_handle_event(
            *old(state),
            spec_view_opt(*old(window)),
            platform,
            compositor_ok,
            *event,
        ),
        (*old(window)) is None ==> *final(state) == *old(state) && (*final(window)) is None
            && r is None,
{
    match event {
        AppEvent::ApplyBlur => match window {
            Option::None => Option::None,
            Option::Some(w) => Option::Some(decorate_window(state, w, platform, compositor_ok)),
        },
    }
}

} // verus!

