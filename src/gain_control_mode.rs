use vstd::prelude::*;

use crate::error::Error;
use crate::text::same_text;

verus! {

/// Gain control mode of one lane.
#[derive(Debug, Clone, Copy, PartialEq, Eq, PartialOrd, Ord, Hash, Structural)]
pub enum GainControlMode {
    FastAttack,
    Hybrid,
    Manual,
    SlowAttack,
}

impl GainControlMode {
    /// The token that the hardware uses for this mode.
    pub open spec fn token(self) -> Seq<char> {
        match self {
            GainControlMode::FastAttack => "fast_attack"@,
            GainControlMode::Hybrid => "hybrid"@,
            GainControlMode::Manual => "manual"@,
            GainControlMode::SlowAttack => "slow_attack"@,
        }
    }

    /// The mode that a token names, if any: an exact, case-sensitive match.
    pub open spec fn from_token(t: Seq<char>) -> Option<GainControlMode> {
        if t == "fast_attack"@ {
            Some(GainControlMode::FastAttack)
        } else if t == "hybrid"@ {
            Some(GainControlMode::Hybrid)
        } else if t == "manual"@ {
            Some(GainControlMode::Manual)
        } else if t == "slow_attack"@ {
            Some(GainControlMode::SlowAttack)
        } else {
            None
        }
    }

    /// The token of this mode; total.
    #[must_use]
    pub fn to_str(&self) -> (r: &'static str)
        ensures
            r@ == self.token(),
    {
        match self {
            GainControlMode::FastAttack => "fast_attack",
            GainControlMode::Hybrid => "hybrid",
            GainControlMode::Manual => "manual",
            GainControlMode::SlowAttack => "slow_attack",
        }
    }
}

impl TryFrom<String> for GainControlMode {
    type Error = Error;

    /// Reads a token; text outside the closed set comes back inside the error.
    fn try_from(s: String) -> (r: Result<GainControlMode, Error>) {
        if same_text(s.as_str(), "fast_attack") {
            Ok(GainControlMode::FastAttack)
        } else if same_text(s.as_str(), "hybrid") {
            Ok(GainControlMode::Hybrid)
        } else if same_text(s.as_str(), "manual") {
            Ok(GainControlMode::Manual)
        } else if same_text(s.as_str(), "slow_attack") {
            Ok(GainControlMode::SlowAttack)
        } else {
            Err(Error::UnexpectedStringValue(s))
        }
    }
}

impl vstd::std_specs::convert::TryFromSpecImpl<String> for GainControlMode {
    open spec fn obeys_try_from_spec() -> bool {
        true
    }

    open spec fn try_from_spec(s: String) -> Result<GainControlMode, Error> {
        match GainControlMode::from_token(s@) {
            Some(m) => Ok(m),
            None => Err(Error::UnexpectedStringValue(s)),
        }
    }
}

/// A gain control mode reads back from exactly its own token: rendering then parsing
/// gives the mode back, and no other text parses to it.
pub proof fn lemma_gain_control_mode_token(t: Seq<char>, m: GainControlMode)
    ensures
        GainControlMode::from_token(t) == Some(m) <==> t == m.token(),
{
    reveal_strlit("fast_attack");
    reveal_strlit("hybrid");
    reveal_strlit("manual");
    reveal_strlit("slow_attack");
    assert("fast_attack"@.len() != "hybrid"@.len());
    assert("fast_attack"@.len() != "manual"@.len());
    assert("hybrid"@[0] != "manual"@[0]);
    assert("fast_attack"@[0] != "slow_attack"@[0]);
    assert("hybrid"@.len() != "slow_attack"@.len());
    assert("manual"@.len() != "slow_attack"@.len());
}

} // verus!
