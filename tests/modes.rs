use ad9361::{same_text, CalibMode, ENSMMode, Error, GainControlMode, RxPortSelect, TxPortSelect};

fn rejected_with<T: std::fmt::Debug>(r: Result<T, Error>, token: &str) {
    match r {
        Err(Error::UnexpectedStringValue(s)) => assert_eq!(s, token),
        other => panic!("expected the token back as an error, got {:?}", other),
    }
}

#[test]
fn calib_mode_round_trip() {
    let all = [
        (CalibMode::Auto, "auto"),
        (CalibMode::Manual, "manual"),
        (CalibMode::ManualTxQuad, "manual_tx_quad"),
        (CalibMode::TxQuad, "tx_quad"),
        (CalibMode::RFdcOffs, "rf_dc_offs"),
        (CalibMode::RSSIGainStep, "rssi_gain_step"),
    ];
    for (m, t) in all {
        assert_eq!(m.to_str(), t);
        assert_eq!(CalibMode::try_from(m.to_str().to_string()).unwrap(), m);
    }
}

#[test]
fn ensm_mode_round_trip() {
    let all = [
        (ENSMMode::Sleep, "sleep"),
        (ENSMMode::Wait, "wait"),
        (ENSMMode::Alert, "alert"),
        (ENSMMode::FDD, "fdd"),
        (ENSMMode::PinCtrl, "pinctrl"),
        (ENSMMode::PinCtrlFDDIndep, "pinctrl_fdd_indep"),
    ];
    for (m, t) in all {
        assert_eq!(m.to_str(), t);
        assert_eq!(ENSMMode::try_from(m.to_str().to_string()).unwrap(), m);
    }
}

#[test]
fn gain_control_mode_round_trip() {
    let all = [
        (GainControlMode::FastAttack, "fast_attack"),
        (GainControlMode::Hybrid, "hybrid"),
        (GainControlMode::Manual, "manual"),
        (GainControlMode::SlowAttack, "slow_attack"),
    ];
    for (m, t) in all {
        assert_eq!(m.to_str(), t);
        assert_eq!(GainControlMode::try_from(m.to_str().to_string()).unwrap(), m);
    }
}

#[test]
fn rx_port_round_trip() {
    let all = [
        (RxPortSelect::ABalanced, "A_BALANCED"),
        (RxPortSelect::AN, "A_N"),
        (RxPortSelect::AP, "A_P"),
        (RxPortSelect::BBalanced, "B_BALANCED"),
        (RxPortSelect::BN, "B_N"),
        (RxPortSelect::BP, "B_P"),
        (RxPortSelect::CBalanced, "C_BALANCED"),
        (RxPortSelect::CN, "C_N"),
        (RxPortSelect::CP, "C_P"),
        (RxPortSelect::TxMonitor1, "TX_MONITOR1"),
        (RxPortSelect::TxMonitor12, "TX_MONITOR1_2"),
        (RxPortSelect::TxMonitor2, "TX_MONITOR2"),
    ];
    for (m, t) in all {
        assert_eq!(m.to_str(), t);
        assert_eq!(RxPortSelect::try_from(m.to_str().to_string()).unwrap(), m);
    }
}

#[test]
fn tx_port_round_trip() {
    for (m, t) in [(TxPortSelect::A, "A"), (TxPortSelect::B, "B")] {
        assert_eq!(m.to_str(), t);
        assert_eq!(TxPortSelect::try_from(m.to_str().to_string()).unwrap(), m);
    }
}

#[test]
fn tokens_outside_the_set_are_returned() {
    rejected_with(CalibMode::try_from("Auto".to_string()), "Auto");
    rejected_with(CalibMode::try_from("".to_string()), "");
    rejected_with(ENSMMode::try_from("FDD".to_string()), "FDD");
    rejected_with(ENSMMode::try_from("pinctrl_fdd".to_string()), "pinctrl_fdd");
    rejected_with(GainControlMode::try_from("fast_attack ".to_string()), "fast_attack ");
    rejected_with(RxPortSelect::try_from("a_balanced".to_string()), "a_balanced");
    rejected_with(RxPortSelect::try_from("TX_MONITOR3".to_string()), "TX_MONITOR3");
    rejected_with(TxPortSelect::try_from("C".to_string()), "C");
    rejected_with(TxPortSelect::try_from("AB".to_string()), "AB");
}

#[test]
fn a_token_of_one_set_is_foreign_to_another() {
    rejected_with(TxPortSelect::try_from("A_BALANCED".to_string()), "A_BALANCED");
    rejected_with(ENSMMode::try_from("manual".to_string()), "manual");
    assert_eq!(GainControlMode::try_from("manual".to_string()).unwrap(), GainControlMode::Manual);
    assert_eq!(CalibMode::try_from("manual".to_string()).unwrap(), CalibMode::Manual);
}

#[test]
fn text_comparison_is_exact() {
    assert!(same_text("fdd", "fdd"));
    assert!(same_text("", ""));
    assert!(!same_text("fdd", "FDD"));
    assert!(!same_text("fdd", "fd"));
    assert!(!same_text("A_N", "A_P"));
}
