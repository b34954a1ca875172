//! A focus and break session timer.
//!
//! The crate holds the logic of the timer and proves it:
//!
//! - [`clock`]: wall-clock snapshots and the spans between them;
//! - [`timer`]: the countdown, which works out the time left from wall-clock
//!   readings and reports its end once;
//! - [`status`]: the stages of the cycle and the order in which they follow;
//! - [`model`]: the session, which ties the stage to its countdown and decides
//!   what happens when a stage runs out;
//! - [`scheduler`]: what the scheduler loop does at each wake-up;
//! - [`frontend`]: what the stage display and the confirmation dialog keep;
//! - [`text`]: the texts shown to the user.
//!
//! Every function that depends on the time takes the clock reading as an
//! argument; the countdown also offers each of them with the reading taken
//! from the system clock.
pub mod clock;
pub mod frontend;
pub mod model;
pub mod scheduler;
pub mod status;
pub mod text;
pub mod timer;
