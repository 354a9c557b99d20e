//! Small helpers around the profile store.

pub mod circular_file;
pub mod file_digest;
pub mod fps_counter;
pub mod timestamp;

pub use circular_file::{circular_plan, CircularPlan, CircularWrite};
pub use file_digest::FileDigest;
pub use fps_counter::{FpsCounter, FpsSample};
pub use timestamp::Timestamp;
