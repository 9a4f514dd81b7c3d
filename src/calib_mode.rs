use vstd::prelude::*;

use crate::error::Error;
use crate::text::same_text;

verus! {

/// Calibration mode of the chip.
#[derive(Debug, Clone, Copy, PartialEq, Eq, PartialOrd, Ord, Hash, Structural)]
pub enum CalibMode {
    Auto,
    Manual,
    ManualTxQuad,
    TxQuad,
    RFdcOffs,
    RSSIGainStep,
}

impl CalibMode {
    /// The token that the hardware uses for this mode.
    pub open spec fn token(self) -> Seq<char> {
        match self {
            CalibMode::Auto => "auto"@,
            CalibMode::Manual => "manual"@,
            CalibMode::ManualTxQuad => "manual_tx_quad"@,
            CalibMode::TxQuad => "tx_quad"@,
            CalibMode::RFdcOffs => "rf_dc_offs"@,
            CalibMode::RSSIGainStep => "rssi_gain_step"@,
        }
    }

    /// The mode that a token names, if any: an exact, case-sensitive match.
    pub open spec fn from_token(t: Seq<char>) -> Option<CalibMode> {
        if t == "auto"@ {
            Some(CalibMode::Auto)
        } else if t == "manual"@ {
            Some(CalibMode::Manual)
        } else if t == "manual_tx_quad"@ {
            Some(CalibMode::ManualTxQuad)
        } else if t == "tx_quad"@ {
            Some(CalibMode::TxQuad)
        } else if t == "rf_dc_offs"@ {
            Some(CalibMode::RFdcOffs)
        } else if t == "rssi_gain_step"@ {
            Some(CalibMode::RSSIGainStep)
        } else {
            None
        }
    }

    /// The token of this mode; total.
    #[must_use]
    pub fn to_str(&self) -> (r: &'static str)
        ensures
            r@ == self.token(),
    {
        match self {
            CalibMode::Auto => "auto",
            CalibMode::Manual => "manual",
            CalibMode::ManualTxQuad => "manual_tx_quad",
            CalibMode::TxQuad => "tx_quad",
            CalibMode::RFdcOffs => "rf_dc_offs",
            CalibMode::RSSIGainStep => "rssi_gain_step",
        }
    }
}

impl TryFrom<String> for CalibMode {
    type Error = Error;

    /// Reads a token; text outside the closed set comes back inside the error.
    fn try_from(s: String) -> (r: Result<CalibMode, Error>) {
        if same_text(s.as_str(), "auto") {
            Ok(CalibMode::Auto)
        } else if same_text(s.as_str(), "manual") {
            Ok(CalibMode::Manual)
        } else if same_text(s.as_str(), "manual_tx_quad") {
            Ok(CalibMode::ManualTxQuad)
        } else if same_text(s.as_str(), "tx_quad") {
            Ok(CalibMode::TxQuad)
        } else if same_text(s.as_str(), "rf_dc_offs") {
            Ok(CalibMode::RFdcOffs)
        } else if same_text(s.as_str(), "rssi_gain_step") {
            Ok(CalibMode::RSSIGainStep)
        } else {
            Err(Error::UnexpectedStringValue(s))
        }
    }
}

impl vstd::std_specs::convert::TryFromSpecImpl<String> for CalibMode {
    open spec fn obeys_try_from_spec() -> bool {
        true
    }

    open spec fn try_from_spec(s: String) -> Result<CalibMode, Error> {
        match CalibMode::from_token(s@) {
            Some(m) => Ok(m),
            None => Err(Error::UnexpectedStringValue(s)),
        }
    }
}

/// A calibration mode reads back from exactly its own token: rendering then parsing
/// gives the mode back, and no other text parses to it.
pub proof fn lemma_calib_mode_token(t: Seq<char>, m: CalibMode)
    ensures
        CalibMode::from_token(t) == Some(m) <==> t == m.token(),
{
    reveal_strlit("auto");
    reveal_strlit("manual");
    reveal_strlit("manual_tx_quad");
    reveal_strlit("tx_quad");
    reveal_strlit("rf_dc_offs");
    reveal_strlit("rssi_gain_step");
    assert("auto"@.len() != "manual"@.len());
    assert("auto"@.len() != "manual_tx_quad"@.len());
    assert("manual"@.len() != "manual_tx_quad"@.len());
    assert("auto"@.len() != "tx_quad"@.len());
    assert("manual"@.len() != "tx_quad"@.len());
    assert("manual_tx_quad"@.len() != "tx_quad"@.len());
    assert("auto"@.len() != "rf_dc_offs"@.len());
    assert("manual"@.len() != "rf_dc_offs"@.len());
    assert("manual_tx_quad"@.len() != "rf_dc_offs"@.len());
    assert("tx_quad"@.len() != "rf_dc_offs"@.len());
    assert("auto"@.len() != "rssi_gain_step"@.len());
    assert("manual"@.len() != "rssi_gain_step"@.len());
    assert("manual_tx_quad"@[0] != "rssi_gain_step"@[0]);
    assert("tx_quad"@.len() != "rssi_gain_step"@.len());
    assert("rf_dc_offs"@.len() != "rssi_gain_step"@.len());
}

} // verus!
