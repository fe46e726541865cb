//! Verified core of the Remvora device agent: connection backoff, the control-signal
//! state machine, shared-folder transfer rules, desktop input bookkeeping, frame scaling
//! and the framing and validation that sit between the transports and the handlers.

pub mod reconnect;
pub mod text;
pub mod idset;
pub mod control;
pub mod hex;
pub mod codec;
pub mod files;
pub mod video_resize;
pub mod desktop;
pub mod relay;
pub mod terminal;
pub mod transport;
pub mod reboot;
pub mod updater;
pub mod identity;
pub mod protocol;
pub mod agent;
