//! A posture timer: how long the user has been sitting or standing at a desk,
//! driven by ticks of a monotonic clock, with a warning once sitting has gone
//! on for too long.

pub mod clock;
pub mod laws;
pub mod model;
pub mod posture;
pub mod readout;
pub mod time;
pub mod timer;
