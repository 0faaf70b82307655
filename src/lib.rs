//! Control core of a tower-clock automation unit: the chime-lever timing
//! monitor, the half-hour drift offset, the pendulum-catcher state machine,
//! the clock-winder arbitration, and the orchestrator's periodic timers.
//! Every poll is a function from the previous state and the sampled inputs to
//! the next state and the event to report; the caller owns the pins, the
//! clock and the channels.
pub mod chime;
pub mod housekeeping;
pub mod pendulum;
mod text;
pub mod wall_clock;
pub mod winder;

pub use chime::{ChimeMonitor, ChimeSession, ClockTimeReport, SESSION_WINDOW_MS};
pub use housekeeping::{Housekeeping, HousekeepingActions, APP_STATUS_INTERVAL_MS, HEARTBEAT_INTERVAL_MS};
pub use pendulum::{
    PendulumCatcher, PendulumCatcherCommand, PendulumCatcherStatus, CATCHER_TIMEOUT_MS,
    PENDULUM_CATCHER_COMMAND_TOPIC,
};
pub use wall_clock::{offset_from_half_hour, WallClockTime};
pub use winder::{ClockWinder, ClockWinderStatus};
