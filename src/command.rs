use vstd::prelude::*;

verus! {

/// The controller's command opcodes used by this driver.
#[derive(Clone, Copy, Debug, PartialEq, Eq)]
pub enum Command {
    SoftwareReset,
    PowerControlA,
    PowerControlB,
    DriverTimingControlA,
    DriverTimingControlB,
    PowerOnSequenceControl,
    PumpRatioControl,
    PowerControl1,
    PowerControl2,
    VCOMControl1,
    VCOMControl2,
    MemoryAccessControl,
    PixelFormatSet,
    FrameControlNormal,
    DisplayFunctionControl,
    Enable3G,
    GammaSet,
    PositiveGammaCorrection,
    NegativeGammaCorrection,
    SleepOut,
    DisplayOn,
    ColumnAddressSet,
    PageAddressSet,
    MemoryWrite,
}

impl Command {
    /// The one-byte opcode that the controller's datasheet gives the command.
    pub open spec fn opcode(self) -> u8 {
        match self {
            Command::SoftwareReset => 0x01,
            Command::PowerControlA => 0xcb,
            Command::PowerControlB => 0xcf,
            Command::DriverTimingControlA => 0xe8,
            Command::DriverTimingControlB => 0xea,
            Command::PowerOnSequenceControl => 0xed,
            Command::PumpRatioControl => 0xf7,
            Command::PowerControl1 => 0xc0,
            Command::PowerControl2 => 0xc1,
            Command::VCOMControl1 => 0xc5,
            Command::VCOMControl2 => 0xc7,
            Command::MemoryAccessControl => 0x36,
            Command::PixelFormatSet => 0x3a,
            Command::FrameControlNormal => 0xb1,
            Command::DisplayFunctionControl => 0xb6,
            Command::Enable3G => 0xf2,
            Command::GammaSet => 0x26,
            Command::PositiveGammaCorrection => 0xe0,
            Command::NegativeGammaCorrection => 0xe1,
            Command::SleepOut => 0x11,
            Command::DisplayOn => 0x29,
            Command::ColumnAddressSet => 0x2a,
            Command::PageAddressSet => 0x2b,
            Command::MemoryWrite => 0x2c,
        }
    }

    /// The opcode byte sent on the bus for this command.
    pub fn code(self) -> (r: u8)
        ensures
            r == self.opcode(),
    {
        match self {
            Command::SoftwareReset => 0x01,
            Command::PowerControlA => 0xcb,
            Command::PowerControlB => 0xcf,
            Command::DriverTimingControlA => 0xe8,
            Command::DriverTimingControlB => 0xea,
            Command::PowerOnSequenceControl => 0xed,
            Command::PumpRatioControl => 0xf7,
            Command::PowerControl1 => 0xc0,
            Command::PowerControl2 => 0xc1,
            Command::VCOMControl1 => 0xc5,
            Command::VCOMControl2 => 0xc7,
            Command::MemoryAccessControl => 0x36,
            Command::PixelFormatSet => 0x3a,
            Command::FrameControlNormal => 0xb1,
            Command::DisplayFunctionControl => 0xb6,
            Command::Enable3G => 0xf2,
            Command::GammaSet => 0x26,
            Command::PositiveGammaCorrection => 0xe0,
            Command::NegativeGammaCorrection => 0xe1,
            Command::SleepOut => 0x11,
            Command::DisplayOn => 0x29,
            Command::ColumnAddressSet => 0x2a,
            Command::PageAddressSet => 0x2b,
            Command::MemoryWrite => 0x2c,
        }
    }
}

} // verus!
