//! Uptime of a process, computed from what the operating system reports.
//!
//! The crate holds the arithmetic and the rules behind an uptime query, and
//! none of the queries themselves: a caller reads the raw values from the
//! system and hands them over as plain data.
//!
//! * [`filetime`]: two instants in 100-nanosecond ticks, as Windows reports
//!   them, give an uptime in whole milliseconds.
//! * [`timestamp`]: a last-modified time and the wall clock, as POSIX systems
//!   report them, give an uptime in nanoseconds.
//! * [`elapsed`]: the text that a process-listing utility prints for the
//!   elapsed-seconds field gives an uptime in whole seconds.
//! * [`uptime`]: the span of time that each of them reports.
//! * [`laws`]: what is proved of all of them: no uptime is negative, a later
//!   query reports no shorter uptime, a failed reading gives no uptime, and
//!   equal readings give equal results.
//!
//! Every query yields `Some` uptime or `None`; `None` means that the uptime is
//! unknown, never that it is zero.

pub mod elapsed;
pub mod filetime;
pub mod laws;
pub mod timestamp;
pub mod uptime;

pub use elapsed::{parse_elapsed_seconds, uptime_from_listing};
pub use filetime::{handle_is_usable, uptime_from_process_times, uptime_from_ticks, FileTime};
pub use timestamp::{elapsed_between, uptime_from_modified_time, Timestamp};
pub use uptime::Uptime;
