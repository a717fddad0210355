//! The color of a piece.

use vstd::prelude::*;
use crate::text::{lower_seq, ParseError};

verus! {

/// Denotes the color of a piece.
#[derive(PartialEq, Eq, Clone, Copy, Debug, Hash, Structural)]
pub enum Color {
    /// Red, whose canonical glyph is "赤".
    Kok1,
    /// Black, whose canonical glyph is "黒".
    Huok2,
}

/// The canonical single-glyph rendering of a color.
pub open spec fn serialize_color_spec(color: Color) -> Seq<char> {
    match color {
        Color::Huok2 => "黒"@,
        Color::Kok1 => "赤"@,
    }
}

/// The color whose ASCII-lowercase-folded spelling `t` is, over the closed
/// table of accepted spellings, or `None` when no entry matches.
pub open spec fn color_of_lowered(t: Seq<char>) -> Option<Color> {
    if t == "red"@ || t == "赤"@ || t == "kok1"@ || t == "红"@ || t == "紅"@ {
        Some(Color::Kok1)
    } else if t == "black"@ || t == "黒"@ || t == "huok2"@ || t == "黑"@ {
        Some(Color::Huok2)
    } else {
        None
    }
}

/// The color a string parses to: its spelling is folded to ASCII lowercase
/// and looked up in the table of accepted spellings.
pub open spec fn parse_color_spec(s: Seq<char>) -> Option<Color> {
    color_of_lowered(lower_seq(s))
}

/// Renders a color to its canonical glyph: "赤" for red, "黒" for black.
pub fn serialize_color(color: Color) -> (r: &'static str)
    ensures
        r@ == serialize_color_spec(color),
{
    match color {
        Color::Huok2 => "黒",
        Color::Kok1 => "赤",
    }
}

impl Color {
    /// Parses a color, case-insensitively, from any of its accepted
    /// spellings: the canonical glyph, the English name, the romanized name,
    /// and simplified/traditional script variants.
    pub fn from_str(s: &str) -> (r: Result<Color, ParseError>)
        ensures
            match r {
                Ok(c) => parse_color_spec(s@) == Some(c),
                Err(_) => parse_color_spec(s@) is None,
            },
    {
        proof {
            lemma_color_table_lowercase();
        }
        if crate::text::matches_lower(s, "red") || crate::text::matches_lower(s, "赤")
            || crate::text::matches_lower(s, "kok1") || crate::text::matches_lower(s, "红")
            || crate::text::matches_lower(s, "紅") {
            Ok(Color::Kok1)
        } else if crate::text::matches_lower(s, "black") || crate::text::matches_lower(s, "黒")
            || crate::text::matches_lower(s, "huok2") || crate::text::matches_lower(s, "黑") {
            Ok(Color::Huok2)
        } else {
            Err(ParseError)
        }
    }
}

/// Every spelling in the color table is already ASCII lowercase, so folding
/// fixes each of them.
proof fn lemma_color_table_lowercase()
    ensures
        lower_seq("red"@) == "red"@,
        lower_seq("赤"@) == "赤"@,
        lower_seq("kok1"@) == "kok1"@,
        lower_seq("红"@) == "红"@,
        lower_seq("紅"@) == "紅"@,
        lower_seq("black"@) == "black"@,
        lower_seq("黒"@) == "黒"@,
        lower_seq("huok2"@) == "huok2"@,
        lower_seq("黑"@) == "黑"@,
{
    reveal_strlit("red");
    reveal_strlit("赤");
    reveal_strlit("kok1");
    reveal_strlit("红");
    reveal_strlit("紅");
    reveal_strlit("black");
    reveal_strlit("黒");
    reveal_strlit("huok2");
    reveal_strlit("黑");
    assert(lower_seq("red"@) =~= "red"@);
    assert(lower_seq("赤"@) =~= "赤"@);
    assert(lower_seq("kok1"@) =~= "kok1"@);
    assert(lower_seq("红"@) =~= "红"@);
    assert(lower_seq("紅"@) =~= "紅"@);
    assert(lower_seq("black"@) =~= "black"@);
    assert(lower_seq("黒"@) =~= "黒"@);
    assert(lower_seq("huok2"@) =~= "huok2"@);
    assert(lower_seq("黑"@) =~= "黑"@);
}

/// Round trip: the canonical rendering of every color parses back to it.
pub proof fn lemma_color_round_trip(c: Color)
    ensures
        parse_color_spec(serialize_color_spec(c)) == Some(c),
{
    lemma_color_table_lowercase();
    reveal_strlit("red");
    reveal_strlit("赤");
    reveal_strlit("kok1");
    reveal_strlit("红");
    reveal_strlit("紅");
    reveal_strlit("black");
    reveal_strlit("黒");
    reveal_strlit("huok2");
    reveal_strlit("黑");
    match c {
        Color::Kok1 => {
            assert(lower_seq("赤"@) == "赤"@);
            assert(color_of_lowered("赤"@) == Some(Color::Kok1));
        },
        Color::Huok2 => {
            assert(lower_seq("黒"@) == "黒"@);
            assert("黒"@ != "red"@);
            assert("黒"@[0] != "赤"@[0]);
            assert("黒"@ != "kok1"@);
            assert("黒"@[0] != "红"@[0]);
            assert("黒"@[0] != "紅"@[0]);
            assert(color_of_lowered("黒"@) == Some(Color::Huok2));
        },
    }
}

} // verus!
