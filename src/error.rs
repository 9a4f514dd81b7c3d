use vstd::prelude::*;

verus! {

/// The device of the chip that a lookup did not find.
#[derive(Debug, Clone, Copy, PartialEq, Eq, PartialOrd, Ord, Hash, Structural)]
pub enum DevicePart {
    /// The control (PHY) device, which holds the RF configuration.
    Phy,
    /// The transmit data device (DDS core).
    Dds,
    /// The receive data device (LPC capture core).
    Lpc,
}

impl DevicePart {
    /// The name under which the access layer knows this device.
    pub open spec fn device_name(self) -> Seq<char> {
        match self {
            DevicePart::Phy => "ad9361-phy"@,
            DevicePart::Dds => "cf-ad9361-dds-core-lpc"@,
            DevicePart::Lpc => "cf-ad9361-lpc"@,
        }
    }

    /// The name under which the access layer knows this device.
    pub fn name(&self) -> (r: &'static str)
        ensures
            r@ == self.device_name(),
    {
        match self {
            DevicePart::Phy => "ad9361-phy",
            DevicePart::Dds => "cf-ad9361-dds-core-lpc",
            DevicePart::Lpc => "cf-ad9361-lpc",
        }
    }
}

/// Everything that can go wrong in this library.
#[derive(Debug)]
pub enum Error {
    /// A required device is absent from the context.
    NoSuchDevice(DevicePart),
    /// A required channel is absent from its device.
    NoChannelOnDevice,
    /// The hardware access layer failed; the text is its own account of why.
    GeneralIIOError(String),
    /// A receive operation was issued while no receive buffer exists.
    NoRxBuff,
    /// A transmit operation was issued while no transmit buffer exists.
    NoTxBuff,
    /// A mode token outside the closed set of its enumeration.
    UnexpectedStringValue(String),
    /// An integer setting outside its validated range.
    OutOfRangeIntValue(i64),
}

} // verus!
