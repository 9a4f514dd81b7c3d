use vstd::prelude::*;

use crate::error::Error;
use crate::text::same_text;

verus! {

/// Transmit RF port of one lane.
#[derive(Debug, Clone, Copy, PartialEq, Eq, PartialOrd, Ord, Hash, Structural)]
pub enum TxPortSelect {
    A,
    B,
}

impl TxPortSelect {
    /// The token that the hardware uses for this port.
    pub open spec fn token(self) -> Seq<char> {
        match self {
            TxPortSelect::A => "A"@,
            TxPortSelect::B => "B"@,
        }
    }

    /// The port that a token names, if any: an exact, case-sensitive match.
    pub open spec fn from_token(t: Seq<char>) -> Option<TxPortSelect> {
        if t == "A"@ {
            Some(TxPortSelect::A)
        } else if t == "B"@ {
            Some(TxPortSelect::B)
        } else {
            None
        }
    }

    /// The token of this port; total.
    #[must_use]
    pub fn to_str(&self) -> (r: &'static str)
        ensures
            r@ == self.token(),
    {
        match self {
            TxPortSelect::A => "A",
            TxPortSelect::B => "B",
        }
    }
}

impl TryFrom<String> for TxPortSelect {
    type Error = Error;

    /// Reads a token; text outside the closed set comes back inside the error.
    fn try_from(s: String) -> (r: Result<TxPortSelect, Error>) {
        if same_text(s.as_str(), "A") {
            Ok(TxPortSelect::A)
        } else if same_text(s.as_str(), "B") {
            Ok(TxPortSelect::B)
        } else {
            Err(Error::UnexpectedStringValue(s))
        }
    }
}

impl vstd::std_specs::convert::TryFromSpecImpl<String> for TxPortSelect {
    open spec fn obeys_try_from_spec() -> bool {
        true
    }

    open spec fn try_from_spec(s: String) -> Result<TxPortSelect, Error> {
        match TxPortSelect::from_token(s@) {
            Some(m) => Ok(m),
            None => Err(Error::UnexpectedStringValue(s)),
        }
    }
}

/// A transmit port reads back from exactly its own token: rendering then parsing
/// gives the port back, and no other text parses to it.
pub proof fn lemma_tx_port_token(t: Seq<char>, m: TxPortSelect)
    ensures
        TxPortSelect::from_token(t) == Some(m) <==> t == m.token(),
{
    reveal_strlit("A");
    reveal_strlit("B");
    assert("A"@[0] != "B"@[0]);
}

} // verus!
