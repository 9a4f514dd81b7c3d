use vstd::prelude::*;

use crate::error::Error;
use crate::text::same_text;

verus! {

/// Mode of the chip's enable state machine: its own operating and power state.
#[derive(Debug, Clone, Copy, PartialEq, Eq, PartialOrd, Ord, Hash, Structural)]
pub enum ENSMMode {
    Sleep,
    Wait,
    Alert,
    FDD,
    PinCtrl,
    PinCtrlFDDIndep,
}

impl ENSMMode {
    /// The token that the hardware uses for this mode.
    pub open spec fn token(self) -> Seq<char> {
        match self {
            ENSMMode::Sleep => "sleep"@,
            ENSMMode::Wait => "wait"@,
            ENSMMode::Alert => "alert"@,
            ENSMMode::FDD => "fdd"@,
            ENSMMode::PinCtrl => "pinctrl"@,
            ENSMMode::PinCtrlFDDIndep => "pinctrl_fdd_indep"@,
        }
    }

    /// The mode that a token names, if any: an exact, case-sensitive match.
    pub open spec fn from_token(t: Seq<char>) -> Option<ENSMMode> {
        if t == "sleep"@ {
            Some(ENSMMode::Sleep)
        } else if t == "wait"@ {
            Some(ENSMMode::Wait)
        } else if t == "alert"@ {
            Some(ENSMMode::Alert)
        } else if t == "fdd"@ {
            Some(ENSMMode::FDD)
        } else if t == "pinctrl"@ {
            Some(ENSMMode::PinCtrl)
        } else if t == "pinctrl_fdd_indep"@ {
            Some(ENSMMode::PinCtrlFDDIndep)
        } else {
            None
        }
    }

    /// The token of this mode; total.
    #[must_use]
    pub fn to_str(&self) -> (r: &'static str)
        ensures
            r@ == self.token(),
    {
        match self {
            ENSMMode::Sleep => "sleep",
            ENSMMode::Wait => "wait",
            ENSMMode::Alert => "alert",
            ENSMMode::FDD => "fdd",
            ENSMMode::PinCtrl => "pinctrl",
            ENSMMode::PinCtrlFDDIndep => "pinctrl_fdd_indep",
        }
    }
}

impl TryFrom<String> for ENSMMode {
    type Error = Error;

    /// Reads a token; text outside the closed set comes back inside the error.
    fn try_from(s: String) -> (r: Result<ENSMMode, Error>) {
        if same_text(s.as_str(), "sleep") {
            Ok(ENSMMode::Sleep)
        } else if same_text(s.as_str(), "wait") {
            Ok(ENSMMode::Wait)
        } else if same_text(s.as_str(), "alert") {
            Ok(ENSMMode::Alert)
        } else if same_text(s.as_str(), "fdd") {
            Ok(ENSMMode::FDD)
        } else if same_text(s.as_str(), "pinctrl") {
            Ok(ENSMMode::PinCtrl)
        } else if same_text(s.as_str(), "pinctrl_fdd_indep") {
            Ok(ENSMMode::PinCtrlFDDIndep)
        } else {
            Err(Error::UnexpectedStringValue(s))
        }
    }
}

impl vstd::std_specs::convert::TryFromSpecImpl<String> for ENSMMode {
    open spec fn obeys_try_from_spec() -> bool {
        true
    }

    open spec fn try_from_spec(s: String) -> Result<ENSMMode, Error> {
        match ENSMMode::from_token(s@) {
            Some(m) => Ok(m),
            None => Err(Error::UnexpectedStringValue(s)),
        }
    }
}

/// An enable-state-machine mode reads back from exactly its own token: rendering then parsing
/// gives the mode back, and no other text parses to it.
pub proof fn lemma_ensm_mode_token(t: Seq<char>, m: ENSMMode)
    ensures
        ENSMMode::from_token(t) == Some(m) <==> t == m.token(),
{
    reveal_strlit("sleep");
    reveal_strlit("wait");
    reveal_strlit("alert");
    reveal_strlit("fdd");
    reveal_strlit("pinctrl");
    reveal_strlit("pinctrl_fdd_indep");
    assert("sleep"@.len() != "wait"@.len());
    assert("sleep"@[0] != "alert"@[0]);
    assert("wait"@.len() != "alert"@.len());
    assert("sleep"@.len() != "fdd"@.len());
    assert("wait"@.len() != "fdd"@.len());
    assert("alert"@.len() != "fdd"@.len());
    assert("sleep"@.len() != "pinctrl"@.len());
    assert("wait"@.len() != "pinctrl"@.len());
    assert("alert"@.len() != "pinctrl"@.len());
    assert("fdd"@.len() != "pinctrl"@.len());
    assert("sleep"@.len() != "pinctrl_fdd_indep"@.len());
    assert("wait"@.len() != "pinctrl_fdd_indep"@.len());
    assert("alert"@.len() != "pinctrl_fdd_indep"@.len());
    assert("fdd"@.len() != "pinctrl_fdd_indep"@.len());
    assert("pinctrl"@.len() != "pinctrl_fdd_indep"@.len());
}

} // verus!
