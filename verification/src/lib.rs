//! A small library around one window-decoration procedure: remove the title
//! bar from a window's style bitmask while keeping every other style bit,
//! enable an acrylic blur effect with a fully transparent tint, set the
//! window title, and record that the effect has been applied so the
//! procedure runs at most once per window.

pub mod adjuster;
pub mod chrome;
pub mod laws;
pub mod style;

pub use adjuster::AppEvent;
pub use adjuster::Outcome;
pub use adjuster::Plan;
pub use adjuster::Tint;
pub use adjuster::Window;
pub use adjuster::WindowEffectState;
pub use chrome::ChromeOutcome;
pub use chrome::FrameRefresh;
pub use chrome::NativeHandle;
pub use chrome::Platform;
pub use chrome::StyleUpdate;
pub use style::WindowStyle;
