//! The absolute side of the board a player starts on.

use vstd::prelude::*;
use crate::text::ParseError;

verus! {

/// Describes which player it is: the side whose pieces start on the A, E and
/// I rows, or the side whose pieces start on the IA, AU and AI rows.
#[derive(Eq, PartialEq, Clone, Copy, Debug, Hash, Structural)]
pub enum AbsoluteSide {
    /// The player whose pieces lie in the A, E and I rows when the game starts.
    ASide,
    /// The player whose pieces lie in the IA, AU and AI rows when the game starts.
    IASide,
}

/// The side opposite to `s`.
pub open spec fn flip_spec(s: AbsoluteSide) -> AbsoluteSide {
    match s {
        AbsoluteSide::ASide => AbsoluteSide::IASide,
        AbsoluteSide::IASide => AbsoluteSide::ASide,
    }
}

/// The side whose canonical token `s` is: exactly `"A"` and `"IA"` are
/// accepted, case-sensitively.
pub open spec fn parse_side_spec(s: Seq<char>) -> Option<AbsoluteSide> {
    if s == "A"@ {
        Some(AbsoluteSide::ASide)
    } else if s == "IA"@ {
        Some(AbsoluteSide::IASide)
    } else {
        None
    }
}

impl AbsoluteSide {
    /// Parses the canonical token of a side: `"A"` or `"IA"`, nothing else.
    pub fn from_str(s: &str) -> (r: Result<AbsoluteSide, ParseError>)
        ensures
            match r {
                Ok(side) => parse_side_spec(s@) == Some(side),
                Err(_) => parse_side_spec(s@) is None,
            },
    {
        if crate::text::str_eq(s, "A") {
            Ok(AbsoluteSide::ASide)
        } else if crate::text::str_eq(s, "IA") {
            Ok(AbsoluteSide::IASide)
        } else {
            Err(ParseError)
        }
    }

    /// The opposing side; never the side itself.
    pub fn not(self) -> (r: AbsoluteSide)
        ensures
            r == flip_spec(self),
            r != self,
    {
        match self {
            AbsoluteSide::ASide => AbsoluteSide::IASide,
            AbsoluteSide::IASide => AbsoluteSide::ASide,
        }
    }
}

/// Flipping a side is an involution: flipping twice gives the side back.
pub proof fn lemma_flip_involutive(s: AbsoluteSide)
    ensures
        flip_spec(flip_spec(s)) == s,
        flip_spec(s) != s,
{
}

} // verus!
