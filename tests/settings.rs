use ad9361::{Error, IntSetting};

fn accepts(s: IntSetting, v: i64) {
    let w = s.validate(v).expect("value in range");
    assert_eq!(w.value_of(), v);
    assert_eq!(w.attr(), s.attr());
}

fn refuses(s: IntSetting, v: i64) {
    match s.validate(v) {
        Err(Error::OutOfRangeIntValue(x)) => assert_eq!(x, v),
        other => panic!("expected an out-of-range error, got {:?}", other),
    }
}

#[test]
fn rf_bandwidth_range() {
    accepts(IntSetting::RfBandwidth, 200000);
    accepts(IntSetting::RfBandwidth, 55999999);
    accepts(IntSetting::RfBandwidth, 18000000);
    refuses(IntSetting::RfBandwidth, 199999);
    refuses(IntSetting::RfBandwidth, 56000000);
    refuses(IntSetting::RfBandwidth, -1);
    refuses(IntSetting::RfBandwidth, i64::MIN);
}

#[test]
fn sampling_frequency_range() {
    accepts(IntSetting::SamplingFrequency, 2083333);
    accepts(IntSetting::SamplingFrequency, 61439999);
    refuses(IntSetting::SamplingFrequency, 2083332);
    refuses(IntSetting::SamplingFrequency, 61440000);
    refuses(IntSetting::SamplingFrequency, 0);
}

#[test]
fn lo_frequency_range_includes_both_ends() {
    accepts(IntSetting::LoFrequency, 46875001);
    accepts(IntSetting::LoFrequency, 6000000000);
    accepts(IntSetting::LoFrequency, 2400000000);
    refuses(IntSetting::LoFrequency, 46875000);
    refuses(IntSetting::LoFrequency, 6000000001);
    refuses(IntSetting::LoFrequency, i64::MAX);
}

#[test]
fn oscillator_trim_ranges() {
    accepts(IntSetting::DcxoTuneFine, 1);
    accepts(IntSetting::DcxoTuneFine, 8191);
    refuses(IntSetting::DcxoTuneFine, 0);
    refuses(IntSetting::DcxoTuneFine, 8192);
    accepts(IntSetting::DcxoTuneCoarse, 1);
    accepts(IntSetting::DcxoTuneCoarse, 63);
    refuses(IntSetting::DcxoTuneCoarse, 0);
    refuses(IntSetting::DcxoTuneCoarse, 64);
    refuses(IntSetting::DcxoTuneCoarse, 8191);
}

#[test]
fn setting_attribute_names() {
    assert_eq!(IntSetting::RfBandwidth.attr(), "rf_bandwidth");
    assert_eq!(IntSetting::SamplingFrequency.attr(), "sampling_frequency");
    assert_eq!(IntSetting::LoFrequency.attr(), "frequency");
    assert_eq!(IntSetting::DcxoTuneFine.attr(), "dcxo_tune_fine");
    assert_eq!(IntSetting::DcxoTuneCoarse.attr(), "dcxo_tune_coarse");
}

#[test]
fn contains_matches_validate() {
    for v in [0i64, 1, 63, 64, 8191, 8192, 200000, 2083333, 46875001, 56000000] {
        for s in [
            IntSetting::RfBandwidth,
            IntSetting::SamplingFrequency,
            IntSetting::LoFrequency,
            IntSetting::DcxoTuneFine,
            IntSetting::DcxoTuneCoarse,
        ] {
            assert_eq!(s.contains(v), s.validate(v).is_ok());
        }
    }
}
