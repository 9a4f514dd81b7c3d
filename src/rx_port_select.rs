use vstd::prelude::*;

use crate::error::Error;
use crate::text::same_text;

verus! {

/// Receive RF port of one lane: one of three inputs, balanced or single-ended, or a transmit monitor tap.
#[derive(Debug, Clone, Copy, PartialEq, Eq, PartialOrd, Ord, Hash, Structural)]
pub enum RxPortSelect {
    ABalanced,
    AN,
    AP,
    BBalanced,
    BN,
    BP,
    CBalanced,
    CN,
    CP,
    TxMonitor1,
    TxMonitor12,
    TxMonitor2,
}

impl RxPortSelect {
    /// The token that the hardware uses for this port.
    pub open spec fn token(self) -> Seq<char> {
        match self {
            RxPortSelect::ABalanced => "A_BALANCED"@,
            RxPortSelect::AN => "A_N"@,
            RxPortSelect::AP => "A_P"@,
            RxPortSelect::BBalanced => "B_BALANCED"@,
            RxPortSelect::BN => "B_N"@,
            RxPortSelect::BP => "B_P"@,
            RxPortSelect::CBalanced => "C_BALANCED"@,
            RxPortSelect::CN => "C_N"@,
            RxPortSelect::CP => "C_P"@,
            RxPortSelect::TxMonitor1 => "TX_MONITOR1"@,
            RxPortSelect::TxMonitor12 => "TX_MONITOR1_2"@,
            RxPortSelect::TxMonitor2 => "TX_MONITOR2"@,
        }
    }

    /// The port that a token names, if any: an exact, case-sensitive match.
    pub open spec fn from_token(t: Seq<char>) -> Option<RxPortSelect> {
        if t == "A_BALANCED"@ {
            Some(RxPortSelect::ABalanced)
        } else if t == "A_N"@ {
            Some(RxPortSelect::AN)
        } else if t == "A_P"@ {
            Some(RxPortSelect::AP)
        } else if t == "B_BALANCED"@ {
            Some(RxPortSelect::BBalanced)
        } else if t == "B_N"@ {
            Some(RxPortSelect::BN)
        } else if t == "B_P"@ {
            Some(RxPortSelect::BP)
        } else if t == "C_BALANCED"@ {
            Some(RxPortSelect::CBalanced)
        } else if t == "C_N"@ {
            Some(RxPortSelect::CN)
        } else if t == "C_P"@ {
            Some(RxPortSelect::CP)
        } else if t == "TX_MONITOR1"@ {
            Some(RxPortSelect::TxMonitor1)
        } else if t == "TX_MONITOR1_2"@ {
            Some(RxPortSelect::TxMonitor12)
        } else if t == "TX_MONITOR2"@ {
            Some(RxPortSelect::TxMonitor2)
        } else {
            None
        }
    }

    /// The token of this port; total.
    #[must_use]
    pub fn to_str(&self) -> (r: &'static str)
        ensures
            r@ == self.token(),
    {
        match self {
            RxPortSelect::ABalanced => "A_BALANCED",
            RxPortSelect::AN => "A_N",
            RxPortSelect::AP => "A_P",
            RxPortSelect::BBalanced => "B_BALANCED",
            RxPortSelect::BN => "B_N",
            RxPortSelect::BP => "B_P",
            RxPortSelect::CBalanced => "C_BALANCED",
            RxPortSelect::CN => "C_N",
            RxPortSelect::CP => "C_P",
            RxPortSelect::TxMonitor1 => "TX_MONITOR1",
            RxPortSelect::TxMonitor12 => "TX_MONITOR1_2",
            RxPortSelect::TxMonitor2 => "TX_MONITOR2",
        }
    }
}

impl TryFrom<String> for RxPortSelect {
    type Error = Error;

    /// Reads a token; text outside the closed set comes back inside the error.
    fn try_from(s: String) -> (r: Result<RxPortSelect, Error>) {
        if same_text(s.as_str(), "A_BALANCED") {
            Ok(RxPortSelect::ABalanced)
        } else if same_text(s.as_str(), "A_N") {
            Ok(RxPortSelect::AN)
        } else if same_text(s.as_str(), "A_P") {
            Ok(RxPortSelect::AP)
        } else if same_text(s.as_str(), "B_BALANCED") {
            Ok(RxPortSelect::BBalanced)
        } else if same_text(s.as_str(), "B_N") {
            Ok(RxPortSelect::BN)
        } else if same_text(s.as_str(), "B_P") {
            Ok(RxPortSelect::BP)
        } else if same_text(s.as_str(), "C_BALANCED") {
            Ok(RxPortSelect::CBalanced)
        } else if same_text(s.as_str(), "C_N") {
            Ok(RxPortSelect::CN)
        } else if same_text(s.as_str(), "C_P") {
            Ok(RxPortSelect::CP)
        } else if same_text(s.as_str(), "TX_MONITOR1") {
            Ok(RxPortSelect::TxMonitor1)
        } else if same_text(s.as_str(), "TX_MONITOR1_2") {
            Ok(RxPortSelect::TxMonitor12)
        } else if same_text(s.as_str(), "TX_MONITOR2") {
            Ok(RxPortSelect::TxMonitor2)
        } else {
            Err(Error::UnexpectedStringValue(s))
        }
    }
}

impl vstd::std_specs::convert::TryFromSpecImpl<String> for RxPortSelect {
    open spec fn obeys_try_from_spec() -> bool {
        true
    }

    open spec fn try_from_spec(s: String) -> Result<RxPortSelect, Error> {
        match RxPortSelect::from_token(s@) {
            Some(m) => Ok(m),
            None => Err(Error::UnexpectedStringValue(s)),
        }
    }
}

/// A receive port reads back from exactly its own token: rendering then parsing
/// gives the port back, and no other text parses to it.
pub proof fn lemma_rx_port_token(t: Seq<char>, m: RxPortSelect)
    ensures
        RxPortSelect::from_token(t) == Some(m) <==> t == m.token(),
{
    reveal_strlit("A_BALANCED");
    reveal_strlit("A_N");
    reveal_strlit("A_P");
    reveal_strlit("B_BALANCED");
    reveal_strlit("B_N");
    reveal_strlit("B_P");
    reveal_strlit("C_BALANCED");
    reveal_strlit("C_N");
    reveal_strlit("C_P");
    reveal_strlit("TX_MONITOR1");
    reveal_strlit("TX_MONITOR1_2");
    reveal_strlit("TX_MONITOR2");
    assert("A_BALANCED"@.len() != "A_N"@.len());
    assert("A_BALANCED"@.len() != "A_P"@.len());
    assert("A_N"@[2] != "A_P"@[2]);
    assert("A_BALANCED"@[0] != "B_BALANCED"@[0]);
    assert("A_N"@.len() != "B_BALANCED"@.len());
    assert("A_P"@.len() != "B_BALANCED"@.len());
    assert("A_BALANCED"@.len() != "B_N"@.len());
    assert("A_N"@[0] != "B_N"@[0]);
    assert("A_P"@[0] != "B_N"@[0]);
    assert("B_BALANCED"@.len() != "B_N"@.len());
    assert("A_BALANCED"@.len() != "B_P"@.len());
    assert("A_N"@[0] != "B_P"@[0]);
    assert("A_P"@[0] != "B_P"@[0]);
    assert("B_BALANCED"@.len() != "B_P"@.len());
    assert("B_N"@[2] != "B_P"@[2]);
    assert("A_BALANCED"@[0] != "C_BALANCED"@[0]);
    assert("A_N"@.len() != "C_BALANCED"@.len());
    assert("A_P"@.len() != "C_BALANCED"@.len());
    assert("B_BALANCED"@[0] != "C_BALANCED"@[0]);
    assert("B_N"@.len() != "C_BALANCED"@.len());
    assert("B_P"@.len() != "C_BALANCED"@.len());
    assert("A_BALANCED"@.len() != "C_N"@.len());
    assert("A_N"@[0] != "C_N"@[0]);
    assert("A_P"@[0] != "C_N"@[0]);
    assert("B_BALANCED"@.len() != "C_N"@.len());
    assert("B_N"@[0] != "C_N"@[0]);
    assert("B_P"@[0] != "C_N"@[0]);
    assert("C_BALANCED"@.len() != "C_N"@.len());
    assert("A_BALANCED"@.len() != "C_P"@.len());
    assert("A_N"@[0] != "C_P"@[0]);
    assert("A_P"@[0] != "C_P"@[0]);
    assert("B_BALANCED"@.len() != "C_P"@.len());
    assert("B_N"@[0] != "C_P"@[0]);
    assert("B_P"@[0] != "C_P"@[0]);
    assert("C_BALANCED"@.len() != "C_P"@.len());
    assert("C_N"@[2] != "C_P"@[2]);
    assert("A_BALANCED"@.len() != "TX_MONITOR1"@.len());
    assert("A_N"@.len() != "TX_MONITOR1"@.len());
    assert("A_P"@.len() != "TX_MONITOR1"@.len());
    assert("B_BALANCED"@.len() != "TX_MONITOR1"@.len());
    assert("B_N"@.len() != "TX_MONITOR1"@.len());
    assert("B_P"@.len() != "TX_MONITOR1"@.len());
    assert("C_BALANCED"@.len() != "TX_MONITOR1"@.len());
    assert("C_N"@.len() != "TX_MONITOR1"@.len());
    assert("C_P"@.len() != "TX_MONITOR1"@.len());
    assert("A_BALANCED"@.len() != "TX_MONITOR1_2"@.len());
    assert("A_N"@.len() != "TX_MONITOR1_2"@.len());
    assert("A_P"@.len() != "TX_MONITOR1_2"@.len());
    assert("B_BALANCED"@.len() != "TX_MONITOR1_2"@.len());
    assert("B_N"@.len() != "TX_MONITOR1_2"@.len());
    assert("B_P"@.len() != "TX_MONITOR1_2"@.len());
    assert("C_BALANCED"@.len() != "TX_MONITOR1_2"@.len());
    assert("C_N"@.len() != "TX_MONITOR1_2"@.len());
    assert("C_P"@.len() != "TX_MONITOR1_2"@.len());
    assert("TX_MONITOR1"@.len() != "TX_MONITOR1_2"@.len());
    assert("A_BALANCED"@.len() != "TX_MONITOR2"@.len());
    assert("A_N"@.len() != "TX_MONITOR2"@.len());
    assert("A_P"@.len() != "TX_MONITOR2"@.len());
    assert("B_BALANCED"@.len() != "TX_MONITOR2"@.len());
    assert("B_N"@.len() != "TX_MONITOR2"@.len());
    assert("B_P"@.len() != "TX_MONITOR2"@.len());
    assert("C_BALANCED"@.len() != "TX_MONITOR2"@.len());
    assert("C_N"@.len() != "TX_MONITOR2"@.len());
    assert("C_P"@.len() != "TX_MONITOR2"@.len());
    assert("TX_MONITOR1"@[10] != "TX_MONITOR2"@[10]);
    assert("TX_MONITOR1_2"@.len() != "TX_MONITOR2"@.len());
}

} // verus!
