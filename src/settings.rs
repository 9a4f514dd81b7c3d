use vstd::prelude::*;

use crate::error::Error;

verus! {

/// Lowest RF bandwidth accepted, in Hz.
pub const RF_BANDWIDTH_MIN: i64 = 200000;
/// First RF bandwidth above the accepted range, in Hz.
pub const RF_BANDWIDTH_END: i64 = 56000000;
/// Lowest sampling frequency accepted, in Hz.
pub const SAMPLING_FREQUENCY_MIN: i64 = 2083333;
/// First sampling frequency above the accepted range, in Hz.
pub const SAMPLING_FREQUENCY_END: i64 = 61440000;
/// Lowest local-oscillator frequency accepted, in Hz.
pub const LO_FREQUENCY_MIN: i64 = 46875001;
/// Highest local-oscillator frequency accepted, in Hz (the range includes it).
pub const LO_FREQUENCY_MAX: i64 = 6000000000;
/// Lowest fine oscillator trim accepted.
pub const DCXO_FINE_MIN: i64 = 1;
/// First fine oscillator trim above the accepted range.
pub const DCXO_FINE_END: i64 = 8192;
/// Lowest coarse oscillator trim accepted.
pub const DCXO_COARSE_MIN: i64 = 1;
/// First coarse oscillator trim above the accepted range.
pub const DCXO_COARSE_END: i64 = 64;

/// Name of the device attribute that holds the enable-state-machine mode.
pub const ENSM_MODE_ATTR: &'static str = "ensm_mode";
/// Name of the device attribute that holds the calibration mode.
pub const CALIB_MODE_ATTR: &'static str = "calib_mode";
/// Name of the lane attribute that holds the RF port.
pub const RF_PORT_SELECT_ATTR: &'static str = "rf_port_select";
/// Name of the lane attribute that holds the gain control mode.
pub const GAIN_CONTROL_MODE_ATTR: &'static str = "gain_control_mode";

/// An integer setting whose writes are range checked.
#[derive(Debug, Clone, Copy, PartialEq, Eq, Structural)]
pub enum IntSetting {
    /// RF bandwidth of one lane, [200000, 56000000).
    RfBandwidth,
    /// Sampling frequency of one lane, [2083333, 61440000).
    SamplingFrequency,
    /// Local-oscillator frequency of one direction, [46875001, 6000000000].
    LoFrequency,
    /// Fine oscillator trim of the chip, [1, 8192).
    DcxoTuneFine,
    /// Coarse oscillator trim of the chip, [1, 64).
    DcxoTuneCoarse,
}

impl IntSetting {
    /// Whether `v` lies in this setting's validated range.
    pub open spec fn admits(self, v: int) -> bool {
        match self {
            IntSetting::RfBandwidth => RF_BANDWIDTH_MIN <= v < RF_BANDWIDTH_END,
            IntSetting::SamplingFrequency => SAMPLING_FREQUENCY_MIN <= v < SAMPLING_FREQUENCY_END,
            IntSetting::LoFrequency => LO_FREQUENCY_MIN <= v <= LO_FREQUENCY_MAX,
            IntSetting::DcxoTuneFine => DCXO_FINE_MIN <= v < DCXO_FINE_END,
            IntSetting::DcxoTuneCoarse => DCXO_COARSE_MIN <= v < DCXO_COARSE_END,
        }
    }

    /// The attribute that holds this setting.
    pub open spec fn attr_name(self) -> Seq<char> {
        match self {
            IntSetting::RfBandwidth => "rf_bandwidth"@,
            IntSetting::SamplingFrequency => "sampling_frequency"@,
            IntSetting::LoFrequency => "frequency"@,
            IntSetting::DcxoTuneFine => "dcxo_tune_fine"@,
            IntSetting::DcxoTuneCoarse => "dcxo_tune_coarse"@,
        }
    }

    /// The attribute that holds this setting.
    pub fn attr(&self) -> (r: &'static str)
        ensures
            r@ == self.attr_name(),
    {
        match self {
            IntSetting::RfBandwidth => "rf_bandwidth",
            IntSetting::SamplingFrequency => "sampling_frequency",
            IntSetting::LoFrequency => "frequency",
            IntSetting::DcxoTuneFine => "dcxo_tune_fine",
            IntSetting::DcxoTuneCoarse => "dcxo_tune_coarse",
        }
    }

    /// Whether `v` lies in this setting's validated range.
    pub fn contains(&self, v: i64) -> (r: bool)
        ensures
            r == self.admits(v as int),
    {
        match self {
            IntSetting::RfBandwidth => RF_BANDWIDTH_MIN <= v && v < RF_BANDWIDTH_END,
            IntSetting::SamplingFrequency => SAMPLING_FREQUENCY_MIN <= v && v
                < SAMPLING_FREQUENCY_END,
            IntSetting::LoFrequency => LO_FREQUENCY_MIN <= v && v <= LO_FREQUENCY_MAX,
            IntSetting::DcxoTuneFine => DCXO_FINE_MIN <= v && v < DCXO_FINE_END,
            IntSetting::DcxoTuneCoarse => DCXO_COARSE_MIN <= v && v < DCXO_COARSE_END,
        }
    }

    /// Checks `v` before any hardware is touched: in range it becomes a write
    /// that may be issued, out of range it is refused with the value itself.
    pub fn validate(self, v: i64) -> (r: Result<IntWrite, Error>)
        ensures
            self.admits(v as int) ==> (r matches Ok(w) && w.setting() == self && w.value() == v),
            !self.admits(v as int) ==> (r matches Err(Error::OutOfRangeIntValue(x)) && x == v),
    {
        if self.contains(v) {
            Ok(IntWrite { setting: self, value: v })
        } else {
            Err(Error::OutOfRangeIntValue(v))
        }
    }
}

/// A write of an integer setting whose value has passed its range check.
/// It can only be had from [`IntSetting::validate`], so every such write that
/// reaches the hardware carries a value in range.
#[derive(Debug, Clone, Copy)]
pub struct IntWrite {
    setting: IntSetting,
    value: i64,
}

impl IntWrite {
    #[verifier::type_invariant]
    spec fn in_range(self) -> bool {
        self.setting.admits(self.value as int)
    }

    /// The setting written.
    pub closed spec fn setting(self) -> IntSetting {
        self.setting
    }

    /// The value written.
    pub closed spec fn value(self) -> i64 {
        self.value
    }

    /// The attribute to write.
    pub fn attr(&self) -> (r: &'static str)
        ensures
            r@ == self.setting().attr_name(),
    {
        self.setting.attr()
    }

    /// The value to write; always inside the setting's range.
    pub fn value_of(&self) -> (r: i64)
        ensures
            r == self.value(),
            self.setting().admits(r as int),
    {
        proof {
            use_type_invariant(self);
        }
        self.value
    }
}

/// The validated ranges, written out: RF bandwidth [200000, 56000000),
/// sampling frequency [2083333, 61440000), oscillator frequency
/// [46875001, 6000000000] with both ends included, fine trim [1, 8192) and
/// coarse trim [1, 64). A value is written exactly when it lies inside.
pub proof fn lemma_setting_ranges(v: int)
    ensures
        IntSetting::RfBandwidth.admits(v) <==> 200000 <= v < 56000000,
        IntSetting::SamplingFrequency.admits(v) <==> 2083333 <= v < 61440000,
        IntSetting::LoFrequency.admits(v) <==> 46875001 <= v <= 6000000000,
        IntSetting::DcxoTuneFine.admits(v) <==> 1 <= v < 8192,
        IntSetting::DcxoTuneCoarse.admits(v) <==> 1 <= v < 64,
{
}

} // verus!
