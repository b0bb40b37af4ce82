pub mod cycle;
pub mod error;
pub mod frame;
pub mod motor;
pub mod request;
pub mod schedule;

pub use cycle::{ActuationCycle, Phase};
pub use error::MotorError;
pub use motor::{Direction, Motor};
pub use request::ActuationRequest;
pub use schedule::{CommandCache, WheelLevels};
