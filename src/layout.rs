use vstd::prelude::*;

use crate::error::{DevicePart, Error};

verus! {

/// Number of lanes per direction.
pub const LANES: usize = 2;

/// Number of lookups that building the facade takes.
pub const CONSTRUCTION_STEPS: usize = 17;

/// A channel identifier on a device: `voltage<n>` or `altvoltage<n>`.
#[derive(Debug, Clone, Copy, PartialEq, Eq, Structural)]
pub enum ChannelId {
    Voltage(usize),
    AltVoltage(usize),
}

/// The part of a lane that a channel serves.
#[derive(Debug, Clone, Copy, PartialEq, Eq, Structural)]
pub enum LanePart {
    /// The in-phase data sub-channel.
    I,
    /// The quadrature data sub-channel.
    Q,
    /// The control attribute group on the control device.
    Control,
}

/// One lookup that building the facade makes.
#[derive(Debug, Clone, Copy, PartialEq, Eq, Structural)]
pub enum Lookup {
    /// Resolve a device by name.
    Device(DevicePart),
    /// Resolve a channel on a device; `output` is the direction flag.
    Channel { device: DevicePart, id: ChannelId, output: bool },
}

/// The channel that serves `part` of lane `lane`: data sub-channels at `2 * lane`
/// and `2 * lane + 1` on the data device, control at `lane` on the control device.
pub open spec fn lane_channel(part: LanePart, lane: nat, output: bool) -> Lookup {
    let data = if output {
        DevicePart::Dds
    } else {
        DevicePart::Lpc
    };
    match part {
        LanePart::I => Lookup::Channel { device: data, id: ChannelId::Voltage((2 * lane) as usize), output },
        LanePart::Q => Lookup::Channel {
            device: data,
            id: ChannelId::Voltage((2 * lane + 1) as usize),
            output,
        },
        LanePart::Control => Lookup::Channel {
            device: DevicePart::Phy,
            id: ChannelId::Voltage(lane as usize),
            output,
        },
    }
}

/// The part of a lane that step `k` of a lane's three lookups resolves.
pub open spec fn lane_part_at(k: nat) -> LanePart {
    if k == 0 {
        LanePart::I
    } else if k == 1 {
        LanePart::Q
    } else {
        LanePart::Control
    }
}

/// The lookups in order: the control, receive and transmit devices, the
/// receive and transmit oscillator channels, then each receive lane and each
/// transmit lane, data sub-channels before control.
pub open spec fn step_at(k: nat) -> Lookup {
    if k == 0 {
        Lookup::Device(DevicePart::Phy)
    } else if k == 1 {
        Lookup::Device(DevicePart::Lpc)
    } else if k == 2 {
        Lookup::Device(DevicePart::Dds)
    } else if k == 3 {
        Lookup::Channel { device: DevicePart::Phy, id: ChannelId::AltVoltage(0), output: true }
    } else if k == 4 {
        Lookup::Channel { device: DevicePart::Phy, id: ChannelId::AltVoltage(1), output: true }
    } else if k < 11 {
        lane_channel(lane_part_at(((k - 5) % 3) as nat), ((k - 5) / 3) as nat, false)
    } else {
        lane_channel(lane_part_at(((k - 11) % 3) as nat), ((k - 11) / 3) as nat, true)
    }
}

/// The error that a failed lookup aborts construction with.
pub open spec fn lookup_failure(l: Lookup) -> Error {
    match l {
        Lookup::Device(p) => Error::NoSuchDevice(p),
        Lookup::Channel { .. } => Error::NoChannelOnDevice,
    }
}

/// The channel that serves `part` of lane `lane`.
pub fn lane_lookup(part: LanePart, lane: usize, output: bool) -> (r: Lookup)
    requires
        lane < LANES,
    ensures
        r == lane_channel(part, lane as nat, output),
{
    let data = if output {
        DevicePart::Dds
    } else {
        DevicePart::Lpc
    };
    match part {
        LanePart::I => Lookup::Channel { device: data, id: ChannelId::Voltage(2 * lane), output },
        LanePart::Q => Lookup::Channel {
            device: data,
            id: ChannelId::Voltage(2 * lane + 1),
            output,
        },
        LanePart::Control => Lookup::Channel {
            device: DevicePart::Phy,
            id: ChannelId::Voltage(lane),
            output,
        },
    }
}

/// Lookup number `k` of building the facade.
pub fn construction_step(k: usize) -> (r: Lookup)
    requires
        k < CONSTRUCTION_STEPS,
    ensures
        r == step_at(k as nat),
{
    if k == 0 {
        Lookup::Device(DevicePart::Phy)
    } else if k == 1 {
        Lookup::Device(DevicePart::Lpc)
    } else if k == 2 {
        Lookup::Device(DevicePart::Dds)
    } else if k == 3 {
        Lookup::Channel { device: DevicePart::Phy, id: ChannelId::AltVoltage(0), output: true }
    } else if k == 4 {
        Lookup::Channel { device: DevicePart::Phy, id: ChannelId::AltVoltage(1), output: true }
    } else {
        let output = k >= 11;
        let base: usize = if output {
            11
        } else {
            5
        };
        let part = if (k - base) % 3 == 0 {
            LanePart::I
        } else if (k - base) % 3 == 1 {
            LanePart::Q
        } else {
            LanePart::Control
        };
        lane_lookup(part, (k - base) / 3, output)
    }
}

/// The error that a failed lookup aborts construction with: the missing
/// device by name, or a missing channel.
pub fn failure_of(l: &Lookup) -> (r: Error)
    ensures
        r == lookup_failure(*l),
{
    match l {
        Lookup::Device(p) => Error::NoSuchDevice(*p),
        Lookup::Channel { .. } => Error::NoChannelOnDevice,
    }
}

/// The step at which `part` of lane `lane` of a direction is resolved.
pub fn lane_step(part: LanePart, lane: usize, output: bool) -> (r: usize)
    requires
        lane < LANES,
    ensures
        r < CONSTRUCTION_STEPS,
        step_at(r as nat) == lane_channel(part, lane as nat, output),
{
    let base: usize = if output {
        11
    } else {
        5
    };
    let offset: usize = match part {
        LanePart::I => 0,
        LanePart::Q => 1,
        LanePart::Control => 2,
    };
    base + 3 * lane + offset
}

/// The step at which the local-oscillator channel of a direction is resolved:
/// `altvoltage0` for receive, `altvoltage1` for transmit, both on the control
/// device.
pub fn lo_step(output: bool) -> (r: usize)
    ensures
        r < CONSTRUCTION_STEPS,
        step_at(r as nat) == (Lookup::Channel {
            device: DevicePart::Phy,
            id: ChannelId::AltVoltage(if output {
                1
            } else {
                0
            }),
            output: true,
        }),
{
    if output {
        4
    } else {
        3
    }
}

/// Building the facade resolves the control device first, and all three
/// devices before any channel; a missing control device therefore aborts
/// with a not-found error that names it, before any channel lookup is made.
pub proof fn lemma_devices_first(k: nat)
    requires
        k < CONSTRUCTION_STEPS,
    ensures
        step_at(0) == Lookup::Device(DevicePart::Phy),
        lookup_failure(step_at(0)) == Error::NoSuchDevice(DevicePart::Phy),
        step_at(k) is Channel <==> k >= 3,
        step_at(1) == Lookup::Device(DevicePart::Lpc),
        step_at(2) == Lookup::Device(DevicePart::Dds),
{
}

} // verus!
