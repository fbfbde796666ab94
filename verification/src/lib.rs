//! A verified core for a desktop shell that bridges a global keyboard
//! shortcut to an application-level notification and injects text as
//! synthetic keyboard input.
//!
//! The operating-system work itself (registering a hotkey, synthesizing
//! input events, opening a settings pane) is performed by an unverified
//! host around this library. The library holds everything that can be
//! stated and proved: the accelerator grammar, the shortcut bridge's
//! state machine and its press-transition policy, the planning and
//! atomic delivery of injected text, and the permission-gate policy of
//! the settings launcher.

pub mod accelerator;
pub mod bridge;
pub mod injector;
pub mod settings;
