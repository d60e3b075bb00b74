//! Message-source module: hook-side key classification, guard state machine,
//! epoch/foreground trackers and bus message types.

pub mod bus;
pub mod keys;
pub mod state;
pub mod tracker;

pub use bus::{AlertBusError, Trigger};
pub use keys::{alert_shortcut, is_content_key, is_send_key, AlertAction, SendKey};
pub use state::{transition, GuardEvent, GuardState};
pub use tracker::{DraftTracker, ForegroundTracker};
