//! How the kernel tells the virtual machine's monitor that it is done: one
//! write of a status code to an I/O port.

use vstd::prelude::*;

verus! {

/// The I/O port on which the monitor listens for the status code.
pub const EXIT_PORT: u16 = 0xf4;

/// How a run of the kernel ended.
#[derive(Debug, Clone, Copy, PartialEq, Eq, Structural)]
pub enum QemuExitCode {
    Success,
    Failed,
}

impl QemuExitCode {
    /// The number that stands for the status on the exit port.
    pub open spec fn spec_code(self) -> u32 {
        match self {
            QemuExitCode::Success => 0x10,
            QemuExitCode::Failed => 0x11,
        }
    }

    /// The number that stands for the status on the exit port.
    #[verifier::when_used_as_spec(spec_code)]
    pub fn code(self) -> (code: u32)
        ensures
            code == self.spec_code(),
    {
        match self {
            QemuExitCode::Success => 0x10,
            QemuExitCode::Failed => 0x11,
        }
    }

    /// The status with which the monitor's own process ends once it has been
    /// given this code: the code shifted left by one bit, with the lowest bit
    /// set.
    pub fn host_status(self) -> (status: u32)
        ensures
            status == (self.code() << 1) | 1,
            status == 2 * self.code() + 1,
    {
        let code: u32 = self.code();
        assert(((code << 1) | 1) == 2 * code + 1) by (bit_vector)
            requires
                code < 0x100,
        ;
        (code << 1) | 1
    }
}

/// One write of a 32-bit value to an I/O port.
#[derive(Debug, Clone, Copy, PartialEq, Eq, Structural)]
pub struct PortWrite {
    pub port: u16,
    pub value: u32,
}

/// The write that ends the run with `exit_code`: its number, to the exit
/// port.
pub fn exit_qemu(exit_code: QemuExitCode) -> (write: PortWrite)
    ensures
        write.port == EXIT_PORT,
        write.value == exit_code.code(),
{
    PortWrite { port: EXIT_PORT, value: exit_code.code() }
}

} // verus!
