//! The combined identity of a capturable piece: its color and profession.

use vstd::prelude::*;
use crate::color::{serialize_color, serialize_color_spec, Color};
use crate::profession::{serialize_prof, serialize_prof_spec, Profession};
use crate::text::ParseError;

verus! {

/// Describes a piece that is not a Tam2, and hence can be taken and be
/// placed in a player's captured-piece pool.
#[derive(Copy, Clone, Debug, Eq, PartialEq, Hash, Structural)]
pub struct ColorAndProf {
    /// The color of the piece.
    pub color: Color,
    /// The profession of the piece.
    pub prof: Profession,
}

/// The canonical two-glyph rendering: the color glyph followed by the
/// profession glyph.
pub open spec fn serialize_color_and_prof_spec(cp: ColorAndProf) -> Seq<char> {
    serialize_color_spec(cp.color) + serialize_prof_spec(cp.prof)
}

/// The piece identity whose canonical two-glyph string `s` is. Exactly the
/// twenty canonical forms are accepted, case-sensitively; alias spellings
/// and reordered glyphs are rejected.
pub open spec fn parse_color_and_prof_spec(s: Seq<char>) -> Option<ColorAndProf> {
    if s == "黒兵"@ {
        Some(ColorAndProf { color: Color::Huok2, prof: Profession::Kauk2 })
    } else if s == "赤兵"@ {
        Some(ColorAndProf { color: Color::Kok1, prof: Profession::Kauk2 })
    } else if s == "黒弓"@ {
        Some(ColorAndProf { color: Color::Huok2, prof: Profession::Gua2 })
    } else if s == "黒車"@ {
        Some(ColorAndProf { color: Color::Huok2, prof: Profession::Kaun1 })
    } else if s == "黒虎"@ {
        Some(ColorAndProf { color: Color::Huok2, prof: Profession::Dau2 })
    } else if s == "黒馬"@ {
        Some(ColorAndProf { color: Color::Huok2, prof: Profession::Maun1 })
    } else if s == "黒筆"@ {
        Some(ColorAndProf { color: Color::Huok2, prof: Profession::Kua2 })
    } else if s == "黒巫"@ {
        Some(ColorAndProf { color: Color::Huok2, prof: Profession::Tuk2 })
    } else if s == "黒将"@ {
        Some(ColorAndProf { color: Color::Huok2, prof: Profession::Uai1 })
    } else if s == "赤弓"@ {
        Some(ColorAndProf { color: Color::Kok1, prof: Profession::Gua2 })
    } else if s == "赤車"@ {
        Some(ColorAndProf { color: Color::Kok1, prof: Profession::Kaun1 })
    } else if s == "赤虎"@ {
        Some(ColorAndProf { color: Color::Kok1, prof: Profession::Dau2 })
    } else if s == "赤馬"@ {
        Some(ColorAndProf { color: Color::Kok1, prof: Profession::Maun1 })
    } else if s == "赤筆"@ {
        Some(ColorAndProf { color: Color::Kok1, prof: Profession::Kua2 })
    } else if s == "赤巫"@ {
        Some(ColorAndProf { color: Color::Kok1, prof: Profession::Tuk2 })
    } else if s == "赤将"@ {
        Some(ColorAndProf { color: Color::Kok1, prof: Profession::Uai1 })
    } else if s == "黒王"@ {
        Some(ColorAndProf { color: Color::Huok2, prof: Profession::Io })
    } else if s == "赤王"@ {
        Some(ColorAndProf { color: Color::Kok1, prof: Profession::Io })
    } else if s == "黒船"@ {
        Some(ColorAndProf { color: Color::Huok2, prof: Profession::Nuak1 })
    } else if s == "赤船"@ {
        Some(ColorAndProf { color: Color::Kok1, prof: Profession::Nuak1 })
    } else {
        None
    }
}

impl ColorAndProf {
    /// Renders the identity to its canonical two-glyph string.
    pub fn to_text(&self) -> (r: String)
        ensures
            r@ == serialize_color_and_prof_spec(*self),
    {
        let mut r = String::from_str(serialize_color(self.color));
        r.append(serialize_prof(self.prof));
        r
    }

    /// Parses the canonical two-glyph string of a piece identity; any other
    /// string is rejected.
    pub fn from_str(s: &str) -> (r: Result<ColorAndProf, ParseError>)
        ensures
            match r {
                Ok(cp) => parse_color_and_prof_spec(s@) == Some(cp),
                Err(_) => parse_color_and_prof_spec(s@) is None,
            },
    {
        if crate::text::str_eq(s, "黒兵") {
            Ok(ColorAndProf { color: Color::Huok2, prof: Profession::Kauk2 })
        } else if crate::text::str_eq(s, "赤兵") {
            Ok(ColorAndProf { color: Color::Kok1, prof: Profession::Kauk2 })
        } else if crate::text::str_eq(s, "黒弓") {
            Ok(ColorAndProf { color: Color::Huok2, prof: Profession::Gua2 })
        } else if crate::text::str_eq(s, "黒車") {
            Ok(ColorAndProf { color: Color::Huok2, prof: Profession::Kaun1 })
        } else if crate::text::str_eq(s, "黒虎") {
            Ok(ColorAndProf { color: Color::Huok2, prof: Profession::Dau2 })
        } else if crate::text::str_eq(s, "黒馬") {
            Ok(ColorAndProf { color: Color::Huok2, prof: Profession::Maun1 })
        } else if crate::text::str_eq(s, "黒筆") {
            Ok(ColorAndProf { color: Color::Huok2, prof: Profession::Kua2 })
        } else if crate::text::str_eq(s, "黒巫") {
            Ok(ColorAndProf { color: Color::Huok2, prof: Profession::Tuk2 })
        } else if crate::text::str_eq(s, "黒将") {
            Ok(ColorAndProf { color: Color::Huok2, prof: Profession::Uai1 })
        } else if crate::text::str_eq(s, "赤弓") {
            Ok(ColorAndProf { color: Color::Kok1, prof: Profession::Gua2 })
        } else if crate::text::str_eq(s, "赤車") {
            Ok(ColorAndProf { color: Color::Kok1, prof: Profession::Kaun1 })
        } else if crate::text::str_eq(s, "赤虎") {
            Ok(ColorAndProf { color: Color::Kok1, prof: Profession::Dau2 })
        } else if crate::text::str_eq(s, "赤馬") {
            Ok(ColorAndProf { color: Color::Kok1, prof: Profession::Maun1 })
        } else if crate::text::str_eq(s, "赤筆") {
            Ok(ColorAndProf { color: Color::Kok1, prof: Profession::Kua2 })
        } else if crate::text::str_eq(s, "赤巫") {
            Ok(ColorAndProf { color: Color::Kok1, prof: Profession::Tuk2 })
        } else if crate::text::str_eq(s, "赤将") {
            Ok(ColorAndProf { color: Color::Kok1, prof: Profession::Uai1 })
        } else if crate::text::str_eq(s, "黒王") {
            Ok(ColorAndProf { color: Color::Huok2, prof: Profession::Io })
        } else if crate::text::str_eq(s, "赤王") {
            Ok(ColorAndProf { color: Color::Kok1, prof: Profession::Io })
        } else if crate::text::str_eq(s, "黒船") {
            Ok(ColorAndProf { color: Color::Huok2, prof: Profession::Nuak1 })
        } else if crate::text::str_eq(s, "赤船") {
            Ok(ColorAndProf { color: Color::Kok1, prof: Profession::Nuak1 })
        } else {
            Err(ParseError)
        }
    }
}

/// Round trip: the canonical rendering of every one of the twenty piece
/// identities parses back to it.
pub proof fn lemma_color_and_prof_round_trip(cp: ColorAndProf)
    ensures
        parse_color_and_prof_spec(serialize_color_and_prof_spec(cp)) == Some(cp),
{
    reveal_strlit("兵");
    reveal_strlit("将");
    reveal_strlit("巫");
    reveal_strlit("弓");
    reveal_strlit("王");
    reveal_strlit("筆");
    reveal_strlit("船");
    reveal_strlit("虎");
    reveal_strlit("赤");
    reveal_strlit("車");
    reveal_strlit("馬");
    reveal_strlit("黒");
    reveal_strlit("黒兵");
    reveal_strlit("赤兵");
    reveal_strlit("黒弓");
    reveal_strlit("黒車");
    reveal_strlit("黒虎");
    reveal_strlit("黒馬");
    reveal_strlit("黒筆");
    reveal_strlit("黒巫");
    reveal_strlit("黒将");
    reveal_strlit("赤弓");
    reveal_strlit("赤車");
    reveal_strlit("赤虎");
    reveal_strlit("赤馬");
    reveal_strlit("赤筆");
    reveal_strlit("赤巫");
    reveal_strlit("赤将");
    reveal_strlit("黒王");
    reveal_strlit("赤王");
    reveal_strlit("黒船");
    reveal_strlit("赤船");
    match (cp.color, cp.prof) {
        (Color::Huok2, Profession::Kauk2) => {
            assert(serialize_color_and_prof_spec(cp) =~= "黒兵"@);
        },
        (Color::Kok1, Profession::Kauk2) => {
            assert(serialize_color_and_prof_spec(cp) =~= "赤兵"@);
            assert(("赤兵"@)[0] != ("黒兵"@)[0]);
        },
        (Color::Huok2, Profession::Gua2) => {
            assert(serialize_color_and_prof_spec(cp) =~= "黒弓"@);
            assert(("黒弓"@)[1] != ("黒兵"@)[1]);
            assert(("黒弓"@)[0] != ("赤兵"@)[0]);
        },
        (Color::Huok2, Profession::Kaun1) => {
            assert(serialize_color_and_prof_spec(cp) =~= "黒車"@);
            assert(("黒車"@)[1] != ("黒兵"@)[1]);
            assert(("黒車"@)[0] != ("赤兵"@)[0]);
            assert(("黒車"@)[1] != ("黒弓"@)[1]);
        },
        (Color::Huok2, Profession::Dau2) => {
            assert(serialize_color_and_prof_spec(cp) =~= "黒虎"@);
            assert(("黒虎"@)[1] != ("黒兵"@)[1]);
            assert(("黒虎"@)[0] != ("赤兵"@)[0]);
            assert(("黒虎"@)[1] != ("黒弓"@)[1]);
            assert(("黒虎"@)[1] != ("黒車"@)[1]);
        },
        (Color::Huok2, Profession::Maun1) => {
            assert(serialize_color_and_prof_spec(cp) =~= "黒馬"@);
            assert(("黒馬"@)[1] != ("黒兵"@)[1]);
            assert(("黒馬"@)[0] != ("赤兵"@)[0]);
            assert(("黒馬"@)[1] != ("黒弓"@)[1]);
            assert(("黒馬"@)[1] != ("黒車"@)[1]);
            assert(("黒馬"@)[1] != ("黒虎"@)[1]);
        },
        (Color::Huok2, Profession::Kua2) => {
            assert(serialize_color_and_prof_spec(cp) =~= "黒筆"@);
            assert(("黒筆"@)[1] != ("黒兵"@)[1]);
            assert(("黒筆"@)[0] != ("赤兵"@)[0]);
            assert(("黒筆"@)[1] != ("黒弓"@)[1]);
            assert(("黒筆"@)[1] != ("黒車"@)[1]);
            assert(("黒筆"@)[1] != ("黒虎"@)[1]);
            assert(("黒筆"@)[1] != ("黒馬"@)[1]);
        },
        (Color::Huok2, Profession::Tuk2) => {
            assert(serialize_color_and_prof_spec(cp) =~= "黒巫"@);
            assert(("黒巫"@)[1] != ("黒兵"@)[1]);
            assert(("黒巫"@)[0] != ("赤兵"@)[0]);
            assert(("黒巫"@)[1] != ("黒弓"@)[1]);
            assert(("黒巫"@)[1] != ("黒車"@)[1]);
            assert(("黒巫"@)[1] != ("黒虎"@)[1]);
            assert(("黒巫"@)[1] != ("黒馬"@)[1]);
            assert(("黒巫"@)[1] != ("黒筆"@)[1]);
        },
        (Color::Huok2, Profession::Uai1) => {
            assert(serialize_color_and_prof_spec(cp) =~= "黒将"@);
            assert(("黒将"@)[1] != ("黒兵"@)[1]);
            assert(("黒将"@)[0] != ("赤兵"@)[0]);
            assert(("黒将"@)[1] != ("黒弓"@)[1]);
            assert(("黒将"@)[1] != ("黒車"@)[1]);
            assert(("黒将"@)[1] != ("黒虎"@)[1]);
            assert(("黒将"@)[1] != ("黒馬"@)[1]);
            assert(("黒将"@)[1] != ("黒筆"@)[1]);
            assert(("黒将"@)[1] != ("黒巫"@)[1]);
        },
        (Color::Kok1, Profession::Gua2) => {
            assert(serialize_color_and_prof_spec(cp) =~= "赤弓"@);
            assert(("赤弓"@)[0] != ("黒兵"@)[0]);
            assert(("赤弓"@)[1] != ("赤兵"@)[1]);
            assert(("赤弓"@)[0] != ("黒弓"@)[0]);
            assert(("赤弓"@)[0] != ("黒車"@)[0]);
            assert(("赤弓"@)[0] != ("黒虎"@)[0]);
            assert(("赤弓"@)[0] != ("黒馬"@)[0]);
            assert(("赤弓"@)[0] != ("黒筆"@)[0]);
            assert(("赤弓"@)[0] != ("黒巫"@)[0]);
            assert(("赤弓"@)[0] != ("黒将"@)[0]);
        },
        (Color::Kok1, Profession::Kaun1) => {
            assert(serialize_color_and_prof_spec(cp) =~= "赤車"@);
            assert(("赤車"@)[0] != ("黒兵"@)[0]);
            assert(("赤車"@)[1] != ("赤兵"@)[1]);
            assert(("赤車"@)[0] != ("黒弓"@)[0]);
            assert(("赤車"@)[0] != ("黒車"@)[0]);
            assert(("赤車"@)[0] != ("黒虎"@)[0]);
            assert(("赤車"@)[0] != ("黒馬"@)[0]);
            assert(("赤車"@)[0] != ("黒筆"@)[0]);
            assert(("赤車"@)[0] != ("黒巫"@)[0]);
            assert(("赤車"@)[0] != ("黒将"@)[0]);
            assert(("赤車"@)[1] != ("赤弓"@)[1]);
        },
        (Color::Kok1, Profession::Dau2) => {
            assert(serialize_color_and_prof_spec(cp) =~= "赤虎"@);
            assert(("赤虎"@)[0] != ("黒兵"@)[0]);
            assert(("赤虎"@)[1] != ("赤兵"@)[1]);
            assert(("赤虎"@)[0] != ("黒弓"@)[0]);
            assert(("赤虎"@)[0] != ("黒車"@)[0]);
            assert(("赤虎"@)[0] != ("黒虎"@)[0]);
            assert(("赤虎"@)[0] != ("黒馬"@)[0]);
            assert(("赤虎"@)[0] != ("黒筆"@)[0]);
            assert(("赤虎"@)[0] != ("黒巫"@)[0]);
            assert(("赤虎"@)[0] != ("黒将"@)[0]);
            assert(("赤虎"@)[1] != ("赤弓"@)[1]);
            assert(("赤虎"@)[1] != ("赤車"@)[1]);
        },
        (Color::Kok1, Profession::Maun1) => {
            assert(serialize_color_and_prof_spec(cp) =~= "赤馬"@);
            assert(("赤馬"@)[0] != ("黒兵"@)[0]);
            assert(("赤馬"@)[1] != ("赤兵"@)[1]);
            assert(("赤馬"@)[0] != ("黒弓"@)[0]);
            assert(("赤馬"@)[0] != ("黒車"@)[0]);
            assert(("赤馬"@)[0] != ("黒虎"@)[0]);
            assert(("赤馬"@)[0] != ("黒馬"@)[0]);
            assert(("赤馬"@)[0] != ("黒筆"@)[0]);
            assert(("赤馬"@)[0] != ("黒巫"@)[0]);
            assert(("赤馬"@)[0] != ("黒将"@)[0]);
            assert(("赤馬"@)[1] != ("赤弓"@)[1]);
            assert(("赤馬"@)[1] != ("赤車"@)[1]);
            assert(("赤馬"@)[1] != ("赤虎"@)[1]);
        },
        (Color::Kok1, Profession::Kua2) => {
            assert(serialize_color_and_prof_spec(cp) =~= "赤筆"@);
            assert(("赤筆"@)[0] != ("黒兵"@)[0]);
            assert(("赤筆"@)[1] != ("赤兵"@)[1]);
            assert(("赤筆"@)[0] != ("黒弓"@)[0]);
            assert(("赤筆"@)[0] != ("黒車"@)[0]);
            assert(("赤筆"@)[0] != ("黒虎"@)[0]);
            assert(("赤筆"@)[0] != ("黒馬"@)[0]);
            assert(("赤筆"@)[0] != ("黒筆"@)[0]);
            assert(("赤筆"@)[0] != ("黒巫"@)[0]);
            assert(("赤筆"@)[0] != ("黒将"@)[0]);
            assert(("赤筆"@)[1] != ("赤弓"@)[1]);
            assert(("赤筆"@)[1] != ("赤車"@)[1]);
            assert(("赤筆"@)[1] != ("赤虎"@)[1]);
            assert(("赤筆"@)[1] != ("赤馬"@)[1]);
        },
        (Color::Kok1, Profession::Tuk2) => {
            assert(serialize_color_and_prof_spec(cp) =~= "赤巫"@);
            assert(("赤巫"@)[0] != ("黒兵"@)[0]);
            assert(("赤巫"@)[1] != ("赤兵"@)[1]);
            assert(("赤巫"@)[0] != ("黒弓"@)[0]);
            assert(("赤巫"@)[0] != ("黒車"@)[0]);
            assert(("赤巫"@)[0] != ("黒虎"@)[0]);
            assert(("赤巫"@)[0] != ("黒馬"@)[0]);
            assert(("赤巫"@)[0] != ("黒筆"@)[0]);
            assert(("赤巫"@)[0] != ("黒巫"@)[0]);
            assert(("赤巫"@)[0] != ("黒将"@)[0]);
            assert(("赤巫"@)[1] != ("赤弓"@)[1]);
            assert(("赤巫"@)[1] != ("赤車"@)[1]);
            assert(("赤巫"@)[1] != ("赤虎"@)[1]);
            assert(("赤巫"@)[1] != ("赤馬"@)[1]);
            assert(("赤巫"@)[1] != ("赤筆"@)[1]);
        },
        (Color::Kok1, Profession::Uai1) => {
            assert(serialize_color_and_prof_spec(cp) =~= "赤将"@);
            assert(("赤将"@)[0] != ("黒兵"@)[0]);
            assert(("赤将"@)[1] != ("赤兵"@)[1]);
            assert(("赤将"@)[0] != ("黒弓"@)[0]);
            assert(("赤将"@)[0] != ("黒車"@)[0]);
            assert(("赤将"@)[0] != ("黒虎"@)[0]);
            assert(("赤将"@)[0] != ("黒馬"@)[0]);
            assert(("赤将"@)[0] != ("黒筆"@)[0]);
            assert(("赤将"@)[0] != ("黒巫"@)[0]);
            assert(("赤将"@)[0] != ("黒将"@)[0]);
            assert(("赤将"@)[1] != ("赤弓"@)[1]);
            assert(("赤将"@)[1] != ("赤車"@)[1]);
            assert(("赤将"@)[1] != ("赤虎"@)[1]);
            assert(("赤将"@)[1] != ("赤馬"@)[1]);
            assert(("赤将"@)[1] != ("赤筆"@)[1]);
            assert(("赤将"@)[1] != ("赤巫"@)[1]);
        },
        (Color::Huok2, Profession::Io) => {
            assert(serialize_color_and_prof_spec(cp) =~= "黒王"@);
            assert(("黒王"@)[1] != ("黒兵"@)[1]);
            assert(("黒王"@)[0] != ("赤兵"@)[0]);
            assert(("黒王"@)[1] != ("黒弓"@)[1]);
            assert(("黒王"@)[1] != ("黒車"@)[1]);
            assert(("黒王"@)[1] != ("黒虎"@)[1]);
            assert(("黒王"@)[1] != ("黒馬"@)[1]);
            assert(("黒王"@)[1] != ("黒筆"@)[1]);
            assert(("黒王"@)[1] != ("黒巫"@)[1]);
            assert(("黒王"@)[1] != ("黒将"@)[1]);
            assert(("黒王"@)[0] != ("赤弓"@)[0]);
            assert(("黒王"@)[0] != ("赤車"@)[0]);
            assert(("黒王"@)[0] != ("赤虎"@)[0]);
            assert(("黒王"@)[0] != ("赤馬"@)[0]);
            assert(("黒王"@)[0] != ("赤筆"@)[0]);
            assert(("黒王"@)[0] != ("赤巫"@)[0]);
            assert(("黒王"@)[0] != ("赤将"@)[0]);
        },
        (Color::Kok1, Profession::Io) => {
            assert(serialize_color_and_prof_spec(cp) =~= "赤王"@);
            assert(("赤王"@)[0] != ("黒兵"@)[0]);
            assert(("赤王"@)[1] != ("赤兵"@)[1]);
            assert(("赤王"@)[0] != ("黒弓"@)[0]);
            assert(("赤王"@)[0] != ("黒車"@)[0]);
            assert(("赤王"@)[0] != ("黒虎"@)[0]);
            assert(("赤王"@)[0] != ("黒馬"@)[0]);
            assert(("赤王"@)[0] != ("黒筆"@)[0]);
            assert(("赤王"@)[0] != ("黒巫"@)[0]);
            assert(("赤王"@)[0] != ("黒将"@)[0]);
            assert(("赤王"@)[1] != ("赤弓"@)[1]);
            assert(("赤王"@)[1] != ("赤車"@)[1]);
            assert(("赤王"@)[1] != ("赤虎"@)[1]);
            assert(("赤王"@)[1] != ("赤馬"@)[1]);
            assert(("赤王"@)[1] != ("赤筆"@)[1]);
            assert(("赤王"@)[1] != ("赤巫"@)[1]);
            assert(("赤王"@)[1] != ("赤将"@)[1]);
            assert(("赤王"@)[0] != ("黒王"@)[0]);
        },
        (Color::Huok2, Profession::Nuak1) => {
            assert(serialize_color_and_prof_spec(cp) =~= "黒船"@);
            assert(("黒船"@)[1] != ("黒兵"@)[1]);
            assert(("黒船"@)[0] != ("赤兵"@)[0]);
            assert(("黒船"@)[1] != ("黒弓"@)[1]);
            assert(("黒船"@)[1] != ("黒車"@)[1]);
            assert(("黒船"@)[1] != ("黒虎"@)[1]);
            assert(("黒船"@)[1] != ("黒馬"@)[1]);
            assert(("黒船"@)[1] != ("黒筆"@)[1]);
            assert(("黒船"@)[1] != ("黒巫"@)[1]);
            assert(("黒船"@)[1] != ("黒将"@)[1]);
            assert(("黒船"@)[0] != ("赤弓"@)[0]);
            assert(("黒船"@)[0] != ("赤車"@)[0]);
            assert(("黒船"@)[0] != ("赤虎"@)[0]);
            assert(("黒船"@)[0] != ("赤馬"@)[0]);
            assert(("黒船"@)[0] != ("赤筆"@)[0]);
            assert(("黒船"@)[0] != ("赤巫"@)[0]);
            assert(("黒船"@)[0] != ("赤将"@)[0]);
            assert(("黒船"@)[1] != ("黒王"@)[1]);
            assert(("黒船"@)[0] != ("赤王"@)[0]);
        },
        (Color::Kok1, Profession::Nuak1) => {
            assert(serialize_color_and_prof_spec(cp) =~= "赤船"@);
            assert(("赤船"@)[0] != ("黒兵"@)[0]);
            assert(("赤船"@)[1] != ("赤兵"@)[1]);
            assert(("赤船"@)[0] != ("黒弓"@)[0]);
            assert(("赤船"@)[0] != ("黒車"@)[0]);
            assert(("赤船"@)[0] != ("黒虎"@)[0]);
            assert(("赤船"@)[0] != ("黒馬"@)[0]);
            assert(("赤船"@)[0] != ("黒筆"@)[0]);
            assert(("赤船"@)[0] != ("黒巫"@)[0]);
            assert(("赤船"@)[0] != ("黒将"@)[0]);
            assert(("赤船"@)[1] != ("赤弓"@)[1]);
            assert(("赤船"@)[1] != ("赤車"@)[1]);
            assert(("赤船"@)[1] != ("赤虎"@)[1]);
            assert(("赤船"@)[1] != ("赤馬"@)[1]);
            assert(("赤船"@)[1] != ("赤筆"@)[1]);
            assert(("赤船"@)[1] != ("赤巫"@)[1]);
            assert(("赤船"@)[1] != ("赤将"@)[1]);
            assert(("赤船"@)[0] != ("黒王"@)[0]);
            assert(("赤船"@)[1] != ("赤王"@)[1]);
            assert(("赤船"@)[0] != ("黒船"@)[0]);
        },
    }
}

} // verus!
