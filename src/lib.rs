//! Counts the time spent at work from a list of clock-in / clock-out checkpoints.
//!
//! Each checkpoint is an `hh:mm` string. The list is checked for an even, non-empty
//! count, every checkpoint is parsed into a time of day, and the differences of the
//! consecutive pairs are summed into a signed duration.
pub mod clock;
pub mod duration;
pub mod work;

pub use clock::ClockTime;
pub use duration::WorkDuration;
pub use work::{count_work_time, parse_args_to_time, validate_input, work_report, WorkReport};
