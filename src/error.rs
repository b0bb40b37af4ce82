use vstd::prelude::*;

verus! {

/// The error that the i2c driver reports; the library only carries it through.
#[verifier::external_type_specification]
#[verifier::external_body]
pub struct ExLinuxI2CError(i2cdev::linux::LinuxI2CError);

/// The errors of talking to a motor controller.
pub enum MotorError {
    /// The i2c bus failed: no device at the address, no such bus, no permission, or a failing
    /// system call.
    I2cError(i2cdev::linux::LinuxI2CError),
    /// The controller answered a command with a non-zero status. The protocol knows no such
    /// code, so this points at a firmware mismatch or a bug rather than a passing fault.
    UnknownMotorError(u8),
}

/// What a status byte read back after a command means: 0 is acceptance, any other value an
/// unknown device error carrying that code.
pub open spec fn ack_accepted(code: u8) -> bool {
    code == 0
}

/// Interprets the status byte that the controller answers a command with.
pub fn check_ack(code: u8) -> (r: Result<(), MotorError>)
    ensures
        ack_accepted(code) <==> r is Ok,
        !ack_accepted(code) ==> (match r {
            Err(MotorError::UnknownMotorError(c)) => c == code,
            _ => false,
        }),
{
    if code == 0 {
        Ok(())
    } else {
        Err(MotorError::UnknownMotorError(code))
    }
}

} // verus!
