//! Control logic of a two-motor differential-drive robot: the wire protocol
//! it speaks, the mixing of steering and throttle into motor duty cycles,
//! and the tasks that share its state under priority ceilings.

pub mod buffer;
pub mod endian;
pub mod fault;
pub mod framing;
pub mod joystick;
pub mod mixer;
pub mod protocol;
pub mod robot;
pub mod safety;
pub mod sched;

pub use fault::Fault;
pub use joystick::{Event, Type};
pub use protocol::{Command, State, PERIOD, SYNC_BYTE};
pub use robot::{Effect, Reading, Robot};
pub use sched::{Resource, Task, Threshold};
