//! The profession (role) of a piece.

use vstd::prelude::*;
use crate::text::{lower_seq, ParseError};

verus! {

/// Denotes the profession of a piece.
#[derive(PartialEq, Eq, Clone, Copy, Debug, Hash, Structural)]
pub enum Profession {
    /// Vessel, whose canonical glyph is "船".
    Nuak1,
    /// Pawn, whose canonical glyph is "兵".
    Kauk2,
    /// Rook, whose canonical glyph is "弓".
    Gua2,
    /// Bishop, whose canonical glyph is "車".
    Kaun1,
    /// Tiger, whose canonical glyph is "虎".
    Dau2,
    /// Horse, whose canonical glyph is "馬".
    Maun1,
    /// Clerk, whose canonical glyph is "筆".
    Kua2,
    /// Shaman, whose canonical glyph is "巫".
    Tuk2,
    /// General, whose canonical glyph is "将".
    Uai1,
    /// King, whose canonical glyph is "王".
    Io,
}

/// The canonical single-glyph rendering of a profession.
pub open spec fn serialize_prof_spec(prof: Profession) -> Seq<char> {
    match prof {
        Profession::Nuak1 => "船"@,
        Profession::Kauk2 => "兵"@,
        Profession::Gua2 => "弓"@,
        Profession::Kaun1 => "車"@,
        Profession::Dau2 => "虎"@,
        Profession::Maun1 => "馬"@,
        Profession::Kua2 => "筆"@,
        Profession::Tuk2 => "巫"@,
        Profession::Uai1 => "将"@,
        Profession::Io => "王"@,
    }
}

/// The profession whose ASCII-lowercase-folded spelling `t` is, over the
/// closed table of accepted spellings: the canonical glyph, the English
/// name, simplified-script variants, and constructed-language romanizations.
/// `None` when no entry matches.
pub open spec fn prof_of_lowered(t: Seq<char>) -> Option<Profession> {
    if t == "船"@ {
        Some(Profession::Nuak1)
    } else if t == "兵"@ {
        Some(Profession::Kauk2)
    } else if t == "弓"@ {
        Some(Profession::Gua2)
    } else if t == "車"@ {
        Some(Profession::Kaun1)
    } else if t == "虎"@ {
        Some(Profession::Dau2)
    } else if t == "馬"@ {
        Some(Profession::Maun1)
    } else if t == "筆"@ {
        Some(Profession::Kua2)
    } else if t == "巫"@ {
        Some(Profession::Tuk2)
    } else if t == "将"@ {
        Some(Profession::Uai1)
    } else if t == "王"@ {
        Some(Profession::Io)
    } else if t == "vessel"@ || t == "felkana"@ || t == "nuak1"@ || t == "muak1"@ || t == "pelkana"@ || t == "pijume"@ || t == "muak"@ {
        Some(Profession::Nuak1)
    } else if t == "pawn"@ || t == "elmer"@ || t == "kauk2"@ || t == "elme"@ || t == "kauk"@ {
        Some(Profession::Kauk2)
    } else if t == "rook"@ || t == "gustuer"@ || t == "gua2"@ || t == "kucte"@ || t == "kuctu"@ {
        Some(Profession::Gua2)
    } else if t == "bishop"@ || t == "车"@ || t == "vadyrd"@ || t == "kaun1"@ || t == "badut"@ || t == "xije"@ || t == "kaun"@ {
        Some(Profession::Kaun1)
    } else if t == "tiger"@ || t == "stistyst"@ || t == "dau2"@ || t == "cictus"@ || t == "cucit"@ || t == "dau"@ {
        Some(Profession::Dau2)
    } else if t == "horse"@ || t == "马"@ || t == "dodor"@ || t == "maun1"@ || t == "dodo"@ || t == "maun"@ {
        Some(Profession::Maun1)
    } else if t == "clerk"@ || t == "笔"@ || t == "kua"@ || t == "kua2"@ || t == "kuwa"@ {
        Some(Profession::Kua2)
    } else if t == "shaman"@ || t == "terlsk"@ || t == "tuk2"@ || t == "tamcuk"@ || t == "tancuk"@ {
        Some(Profession::Tuk2)
    } else if t == "general"@ || t == "varxle"@ || t == "uai1"@ || t == "baxule"@ || t == "xan"@ || t == "wai"@ {
        Some(Profession::Uai1)
    } else if t == "king"@ || t == "ales"@ || t == "io"@ || t == "xet"@ || t == "caupla"@ {
        Some(Profession::Io)
    } else {
        None
    }
}

/// The profession a string parses to: its spelling is folded to ASCII
/// lowercase and looked up in the table of accepted spellings.
pub open spec fn parse_prof_spec(s: Seq<char>) -> Option<Profession> {
    prof_of_lowered(lower_seq(s))
}

/// Renders a profession to its canonical glyph.
pub fn serialize_prof(prof: Profession) -> (r: &'static str)
    ensures
        r@ == serialize_prof_spec(prof),
{
    match prof {
        Profession::Nuak1 => "船",
        Profession::Kauk2 => "兵",
        Profession::Gua2 => "弓",
        Profession::Kaun1 => "車",
        Profession::Dau2 => "虎",
        Profession::Maun1 => "馬",
        Profession::Kua2 => "筆",
        Profession::Tuk2 => "巫",
        Profession::Uai1 => "将",
        Profession::Io => "王",
    }
}

impl Profession {
    /// Parses a profession, case-insensitively, from any of its accepted
    /// spellings.
    pub fn from_str(s: &str) -> (r: Result<Profession, ParseError>)
        ensures
            match r {
                Ok(p) => parse_prof_spec(s@) == Some(p),
                Err(_) => parse_prof_spec(s@) is None,
            },
    {
        proof {
            lemma_prof_table_lowercase();
        }
        if crate::text::matches_lower(s, "船") {
            Ok(Profession::Nuak1)
        } else if crate::text::matches_lower(s, "兵") {
            Ok(Profession::Kauk2)
        } else if crate::text::matches_lower(s, "弓") {
            Ok(Profession::Gua2)
        } else if crate::text::matches_lower(s, "車") {
            Ok(Profession::Kaun1)
        } else if crate::text::matches_lower(s, "虎") {
            Ok(Profession::Dau2)
        } else if crate::text::matches_lower(s, "馬") {
            Ok(Profession::Maun1)
        } else if crate::text::matches_lower(s, "筆") {
            Ok(Profession::Kua2)
        } else if crate::text::matches_lower(s, "巫") {
            Ok(Profession::Tuk2)
        } else if crate::text::matches_lower(s, "将") {
            Ok(Profession::Uai1)
        } else if crate::text::matches_lower(s, "王") {
            Ok(Profession::Io)
        } else if crate::text::matches_lower(s, "vessel")
            || crate::text::matches_lower(s, "felkana")
            || crate::text::matches_lower(s, "nuak1")
            || crate::text::matches_lower(s, "muak1")
            || crate::text::matches_lower(s, "pelkana")
            || crate::text::matches_lower(s, "pijume")
            || crate::text::matches_lower(s, "muak") {
            Ok(Profession::Nuak1)
        } else if crate::text::matches_lower(s, "pawn")
            || crate::text::matches_lower(s, "elmer")
            || crate::text::matches_lower(s, "kauk2")
            || crate::text::matches_lower(s, "elme")
            || crate::text::matches_lower(s, "kauk") {
            Ok(Profession::Kauk2)
        } else if crate::text::matches_lower(s, "rook")
            || crate::text::matches_lower(s, "gustuer")
            || crate::text::matches_lower(s, "gua2")
            || crate::text::matches_lower(s, "kucte")
            || crate::text::matches_lower(s, "kuctu") {
            Ok(Profession::Gua2)
        } else if crate::text::matches_lower(s, "bishop")
            || crate::text::matches_lower(s, "车")
            || crate::text::matches_lower(s, "vadyrd")
            || crate::text::matches_lower(s, "kaun1")
            || crate::text::matches_lower(s, "badut")
            || crate::text::matches_lower(s, "xije")
            || crate::text::matches_lower(s, "kaun") {
            Ok(Profession::Kaun1)
        } else if crate::text::matches_lower(s, "tiger")
            || crate::text::matches_lower(s, "stistyst")
            || crate::text::matches_lower(s, "dau2")
            || crate::text::matches_lower(s, "cictus")
            || crate::text::matches_lower(s, "cucit")
            || crate::text::matches_lower(s, "dau") {
            Ok(Profession::Dau2)
        } else if crate::text::matches_lower(s, "horse")
            || crate::text::matches_lower(s, "马")
            || crate::text::matches_lower(s, "dodor")
            || crate::text::matches_lower(s, "maun1")
            || crate::text::matches_lower(s, "dodo")
            || crate::text::matches_lower(s, "maun") {
            Ok(Profession::Maun1)
        } else if crate::text::matches_lower(s, "clerk")
            || crate::text::matches_lower(s, "笔")
            || crate::text::matches_lower(s, "kua")
            || crate::text::matches_lower(s, "kua2")
            || crate::text::matches_lower(s, "kuwa") {
            Ok(Profession::Kua2)
        } else if crate::text::matches_lower(s, "shaman")
            || crate::text::matches_lower(s, "terlsk")
            || crate::text::matches_lower(s, "tuk2")
            || crate::text::matches_lower(s, "tamcuk")
            || crate::text::matches_lower(s, "tancuk") {
            Ok(Profession::Tuk2)
        } else if crate::text::matches_lower(s, "general")
            || crate::text::matches_lower(s, "varxle")
            || crate::text::matches_lower(s, "uai1")
            || crate::text::matches_lower(s, "baxule")
            || crate::text::matches_lower(s, "xan")
            || crate::text::matches_lower(s, "wai") {
            Ok(Profession::Uai1)
        } else if crate::text::matches_lower(s, "king")
            || crate::text::matches_lower(s, "ales")
            || crate::text::matches_lower(s, "io")
            || crate::text::matches_lower(s, "xet")
            || crate::text::matches_lower(s, "caupla") {
            Ok(Profession::Io)
        } else {
            Err(ParseError)
        }
    }
}

/// Every spelling in the profession table is already ASCII lowercase, so
/// folding fixes each of them.
proof fn lemma_prof_table_lowercase()
    ensures
        lower_seq("船"@) == "船"@,
        lower_seq("兵"@) == "兵"@,
        lower_seq("弓"@) == "弓"@,
        lower_seq("車"@) == "車"@,
        lower_seq("虎"@) == "虎"@,
        lower_seq("馬"@) == "馬"@,
        lower_seq("筆"@) == "筆"@,
        lower_seq("巫"@) == "巫"@,
        lower_seq("将"@) == "将"@,
        lower_seq("王"@) == "王"@,
        lower_seq("vessel"@) == "vessel"@,
        lower_seq("felkana"@) == "felkana"@,
        lower_seq("nuak1"@) == "nuak1"@,
        lower_seq("muak1"@) == "muak1"@,
        lower_seq("pelkana"@) == "pelkana"@,
        lower_seq("pijume"@) == "pijume"@,
        lower_seq("muak"@) == "muak"@,
        lower_seq("pawn"@) == "pawn"@,
        lower_seq("elmer"@) == "elmer"@,
        lower_seq("kauk2"@) == "kauk2"@,
        lower_seq("elme"@) == "elme"@,
        lower_seq("kauk"@) == "kauk"@,
        lower_seq("rook"@) == "rook"@,
        lower_seq("gustuer"@) == "gustuer"@,
        lower_seq("gua2"@) == "gua2"@,
        lower_seq("kucte"@) == "kucte"@,
        lower_seq("kuctu"@) == "kuctu"@,
        lower_seq("bishop"@) == "bishop"@,
        lower_seq("车"@) == "车"@,
        lower_seq("vadyrd"@) == "vadyrd"@,
        lower_seq("kaun1"@) == "kaun1"@,
        lower_seq("badut"@) == "badut"@,
        lower_seq("xije"@) == "xije"@,
        lower_seq("kaun"@) == "kaun"@,
        lower_seq("tiger"@) == "tiger"@,
        lower_seq("stistyst"@) == "stistyst"@,
        lower_seq("dau2"@) == "dau2"@,
        lower_seq("cictus"@) == "cictus"@,
        lower_seq("cucit"@) == "cucit"@,
        lower_seq("dau"@) == "dau"@,
        lower_seq("horse"@) == "horse"@,
        lower_seq("马"@) == "马"@,
        lower_seq("dodor"@) == "dodor"@,
        lower_seq("maun1"@) == "maun1"@,
        lower_seq("dodo"@) == "dodo"@,
        lower_seq("maun"@) == "maun"@,
        lower_seq("clerk"@) == "clerk"@,
        lower_seq("笔"@) == "笔"@,
        lower_seq("kua"@) == "kua"@,
        lower_seq("kua2"@) == "kua2"@,
        lower_seq("kuwa"@) == "kuwa"@,
        lower_seq("shaman"@) == "shaman"@,
        lower_seq("terlsk"@) == "terlsk"@,
        lower_seq("tuk2"@) == "tuk2"@,
        lower_seq("tamcuk"@) == "tamcuk"@,
        lower_seq("tancuk"@) == "tancuk"@,
        lower_seq("general"@) == "general"@,
        lower_seq("varxle"@) == "varxle"@,
        lower_seq("uai1"@) == "uai1"@,
        lower_seq("baxule"@) == "baxule"@,
        lower_seq("xan"@) == "xan"@,
        lower_seq("wai"@) == "wai"@,
        lower_seq("king"@) == "king"@,
        lower_seq("ales"@) == "ales"@,
        lower_seq("io"@) == "io"@,
        lower_seq("xet"@) == "xet"@,
        lower_seq("caupla"@) == "caupla"@,
{
    reveal_strlit("船");
    reveal_strlit("兵");
    reveal_strlit("弓");
    reveal_strlit("車");
    reveal_strlit("虎");
    reveal_strlit("馬");
    reveal_strlit("筆");
    reveal_strlit("巫");
    reveal_strlit("将");
    reveal_strlit("王");
    reveal_strlit("vessel");
    reveal_strlit("felkana");
    reveal_strlit("nuak1");
    reveal_strlit("muak1");
    reveal_strlit("pelkana");
    reveal_strlit("pijume");
    reveal_strlit("muak");
    reveal_strlit("pawn");
    reveal_strlit("elmer");
    reveal_strlit("kauk2");
    reveal_strlit("elme");
    reveal_strlit("kauk");
    reveal_strlit("rook");
    reveal_strlit("gustuer");
    reveal_strlit("gua2");
    reveal_strlit("kucte");
    reveal_strlit("kuctu");
    reveal_strlit("bishop");
    reveal_strlit("车");
    reveal_strlit("vadyrd");
    reveal_strlit("kaun1");
    reveal_strlit("badut");
    reveal_strlit("xije");
    reveal_strlit("kaun");
    reveal_strlit("tiger");
    reveal_strlit("stistyst");
    reveal_strlit("dau2");
    reveal_strlit("cictus");
    reveal_strlit("cucit");
    reveal_strlit("dau");
    reveal_strlit("horse");
    reveal_strlit("马");
    reveal_strlit("dodor");
    reveal_strlit("maun1");
    reveal_strlit("dodo");
    reveal_strlit("maun");
    reveal_strlit("clerk");
    reveal_strlit("笔");
    reveal_strlit("kua");
    reveal_strlit("kua2");
    reveal_strlit("kuwa");
    reveal_strlit("shaman");
    reveal_strlit("terlsk");
    reveal_strlit("tuk2");
    reveal_strlit("tamcuk");
    reveal_strlit("tancuk");
    reveal_strlit("general");
    reveal_strlit("varxle");
    reveal_strlit("uai1");
    reveal_strlit("baxule");
    reveal_strlit("xan");
    reveal_strlit("wai");
    reveal_strlit("king");
    reveal_strlit("ales");
    reveal_strlit("io");
    reveal_strlit("xet");
    reveal_strlit("caupla");
    assert(lower_seq("船"@) =~= "船"@);
    assert(lower_seq("兵"@) =~= "兵"@);
    assert(lower_seq("弓"@) =~= "弓"@);
    assert(lower_seq("車"@) =~= "車"@);
    assert(lower_seq("虎"@) =~= "虎"@);
    assert(lower_seq("馬"@) =~= "馬"@);
    assert(lower_seq("筆"@) =~= "筆"@);
    assert(lower_seq("巫"@) =~= "巫"@);
    assert(lower_seq("将"@) =~= "将"@);
    assert(lower_seq("王"@) =~= "王"@);
    assert(lower_seq("vessel"@) =~= "vessel"@);
    assert(lower_seq("felkana"@) =~= "felkana"@);
    assert(lower_seq("nuak1"@) =~= "nuak1"@);
    assert(lower_seq("muak1"@) =~= "muak1"@);
    assert(lower_seq("pelkana"@) =~= "pelkana"@);
    assert(lower_seq("pijume"@) =~= "pijume"@);
    assert(lower_seq("muak"@) =~= "muak"@);
    assert(lower_seq("pawn"@) =~= "pawn"@);
    assert(lower_seq("elmer"@) =~= "elmer"@);
    assert(lower_seq("kauk2"@) =~= "kauk2"@);
    assert(lower_seq("elme"@) =~= "elme"@);
    assert(lower_seq("kauk"@) =~= "kauk"@);
    assert(lower_seq("rook"@) =~= "rook"@);
    assert(lower_seq("gustuer"@) =~= "gustuer"@);
    assert(lower_seq("gua2"@) =~= "gua2"@);
    assert(lower_seq("kucte"@) =~= "kucte"@);
    assert(lower_seq("kuctu"@) =~= "kuctu"@);
    assert(lower_seq("bishop"@) =~= "bishop"@);
    assert(lower_seq("车"@) =~= "车"@);
    assert(lower_seq("vadyrd"@) =~= "vadyrd"@);
    assert(lower_seq("kaun1"@) =~= "kaun1"@);
    assert(lower_seq("badut"@) =~= "badut"@);
    assert(lower_seq("xije"@) =~= "xije"@);
    assert(lower_seq("kaun"@) =~= "kaun"@);
    assert(lower_seq("tiger"@) =~= "tiger"@);
    assert(lower_seq("stistyst"@) =~= "stistyst"@);
    assert(lower_seq("dau2"@) =~= "dau2"@);
    assert(lower_seq("cictus"@) =~= "cictus"@);
    assert(lower_seq("cucit"@) =~= "cucit"@);
    assert(lower_seq("dau"@) =~= "dau"@);
    assert(lower_seq("horse"@) =~= "horse"@);
    assert(lower_seq("马"@) =~= "马"@);
    assert(lower_seq("dodor"@) =~= "dodor"@);
    assert(lower_seq("maun1"@) =~= "maun1"@);
    assert(lower_seq("dodo"@) =~= "dodo"@);
    assert(lower_seq("maun"@) =~= "maun"@);
    assert(lower_seq("clerk"@) =~= "clerk"@);
    assert(lower_seq("笔"@) =~= "笔"@);
    assert(lower_seq("kua"@) =~= "kua"@);
    assert(lower_seq("kua2"@) =~= "kua2"@);
    assert(lower_seq("kuwa"@) =~= "kuwa"@);
    assert(lower_seq("shaman"@) =~= "shaman"@);
    assert(lower_seq("terlsk"@) =~= "terlsk"@);
    assert(lower_seq("tuk2"@) =~= "tuk2"@);
    assert(lower_seq("tamcuk"@) =~= "tamcuk"@);
    assert(lower_seq("tancuk"@) =~= "tancuk"@);
    assert(lower_seq("general"@) =~= "general"@);
    assert(lower_seq("varxle"@) =~= "varxle"@);
    assert(lower_seq("uai1"@) =~= "uai1"@);
    assert(lower_seq("baxule"@) =~= "baxule"@);
    assert(lower_seq("xan"@) =~= "xan"@);
    assert(lower_seq("wai"@) =~= "wai"@);
    assert(lower_seq("king"@) =~= "king"@);
    assert(lower_seq("ales"@) =~= "ales"@);
    assert(lower_seq("io"@) =~= "io"@);
    assert(lower_seq("xet"@) =~= "xet"@);
    assert(lower_seq("caupla"@) =~= "caupla"@);
}

/// Round trip: the canonical glyph of every profession parses back to it.
pub proof fn lemma_prof_round_trip(p: Profession)
    ensures
        parse_prof_spec(serialize_prof_spec(p)) == Some(p),
{
    lemma_prof_table_lowercase();
    reveal_strlit("船");
    reveal_strlit("兵");
    reveal_strlit("弓");
    reveal_strlit("車");
    reveal_strlit("虎");
    reveal_strlit("馬");
    reveal_strlit("筆");
    reveal_strlit("巫");
    reveal_strlit("将");
    reveal_strlit("王");
    match p {
        Profession::Nuak1 => {
            assert(prof_of_lowered("船"@) == Some(Profession::Nuak1));
        },
        Profession::Kauk2 => {
            assert(("兵"@)[0] != ("船"@)[0]);
            assert(prof_of_lowered("兵"@) == Some(Profession::Kauk2));
        },
        Profession::Gua2 => {
            assert(("弓"@)[0] != ("船"@)[0]);
            assert(("弓"@)[0] != ("兵"@)[0]);
            assert(prof_of_lowered("弓"@) == Some(Profession::Gua2));
        },
        Profession::Kaun1 => {
            assert(("車"@)[0] != ("船"@)[0]);
            assert(("車"@)[0] != ("兵"@)[0]);
            assert(("車"@)[0] != ("弓"@)[0]);
            assert(prof_of_lowered("車"@) == Some(Profession::Kaun1));
        },
        Profession::Dau2 => {
            assert(("虎"@)[0] != ("船"@)[0]);
            assert(("虎"@)[0] != ("兵"@)[0]);
            assert(("虎"@)[0] != ("弓"@)[0]);
            assert(("虎"@)[0] != ("車"@)[0]);
            assert(prof_of_lowered("虎"@) == Some(Profession::Dau2));
        },
        Profession::Maun1 => {
            assert(("馬"@)[0] != ("船"@)[0]);
            assert(("馬"@)[0] != ("兵"@)[0]);
            assert(("馬"@)[0] != ("弓"@)[0]);
            assert(("馬"@)[0] != ("車"@)[0]);
            assert(("馬"@)[0] != ("虎"@)[0]);
            assert(prof_of_lowered("馬"@) == Some(Profession::Maun1));
        },
        Profession::Kua2 => {
            assert(("筆"@)[0] != ("船"@)[0]);
            assert(("筆"@)[0] != ("兵"@)[0]);
            assert(("筆"@)[0] != ("弓"@)[0]);
            assert(("筆"@)[0] != ("車"@)[0]);
            assert(("筆"@)[0] != ("虎"@)[0]);
            assert(("筆"@)[0] != ("馬"@)[0]);
            assert(prof_of_lowered("筆"@) == Some(Profession::Kua2));
        },
        Profession::Tuk2 => {
            assert(("巫"@)[0] != ("船"@)[0]);
            assert(("巫"@)[0] != ("兵"@)[0]);
            assert(("巫"@)[0] != ("弓"@)[0]);
            assert(("巫"@)[0] != ("車"@)[0]);
            assert(("巫"@)[0] != ("虎"@)[0]);
            assert(("巫"@)[0] != ("馬"@)[0]);
            assert(("巫"@)[0] != ("筆"@)[0]);
            assert(prof_of_lowered("巫"@) == Some(Profession::Tuk2));
        },
        Profession::Uai1 => {
            assert(("将"@)[0] != ("船"@)[0]);
            assert(("将"@)[0] != ("兵"@)[0]);
            assert(("将"@)[0] != ("弓"@)[0]);
            assert(("将"@)[0] != ("車"@)[0]);
            assert(("将"@)[0] != ("虎"@)[0]);
            assert(("将"@)[0] != ("馬"@)[0]);
            assert(("将"@)[0] != ("筆"@)[0]);
            assert(("将"@)[0] != ("巫"@)[0]);
            assert(prof_of_lowered("将"@) == Some(Profession::Uai1));
        },
        Profession::Io => {
            assert(("王"@)[0] != ("船"@)[0]);
            assert(("王"@)[0] != ("兵"@)[0]);
            assert(("王"@)[0] != ("弓"@)[0]);
            assert(("王"@)[0] != ("車"@)[0]);
            assert(("王"@)[0] != ("虎"@)[0]);
            assert(("王"@)[0] != ("馬"@)[0]);
            assert(("王"@)[0] != ("筆"@)[0]);
            assert(("王"@)[0] != ("巫"@)[0]);
            assert(("王"@)[0] != ("将"@)[0]);
            assert(prof_of_lowered("王"@) == Some(Profession::Io));
        },
    }
}

/// Rendering is injective: distinct professions render to distinct glyphs.
pub proof fn lemma_serialize_prof_injective(p1: Profession, p2: Profession)
    ensures
        serialize_prof_spec(p1) == serialize_prof_spec(p2) ==> p1 == p2,
{
    reveal_strlit("船");
    reveal_strlit("兵");
    reveal_strlit("弓");
    reveal_strlit("車");
    reveal_strlit("虎");
    reveal_strlit("馬");
    reveal_strlit("筆");
    reveal_strlit("巫");
    reveal_strlit("将");
    reveal_strlit("王");
    assert(("船"@)[0] != ("兵"@)[0]);
    assert(("船"@)[0] != ("弓"@)[0]);
    assert(("船"@)[0] != ("車"@)[0]);
    assert(("船"@)[0] != ("虎"@)[0]);
    assert(("船"@)[0] != ("馬"@)[0]);
    assert(("船"@)[0] != ("筆"@)[0]);
    assert(("船"@)[0] != ("巫"@)[0]);
    assert(("船"@)[0] != ("将"@)[0]);
    assert(("船"@)[0] != ("王"@)[0]);
    assert(("兵"@)[0] != ("弓"@)[0]);
    assert(("兵"@)[0] != ("車"@)[0]);
    assert(("兵"@)[0] != ("虎"@)[0]);
    assert(("兵"@)[0] != ("馬"@)[0]);
    assert(("兵"@)[0] != ("筆"@)[0]);
    assert(("兵"@)[0] != ("巫"@)[0]);
    assert(("兵"@)[0] != ("将"@)[0]);
    assert(("兵"@)[0] != ("王"@)[0]);
    assert(("弓"@)[0] != ("車"@)[0]);
    assert(("弓"@)[0] != ("虎"@)[0]);
    assert(("弓"@)[0] != ("馬"@)[0]);
    assert(("弓"@)[0] != ("筆"@)[0]);
    assert(("弓"@)[0] != ("巫"@)[0]);
    assert(("弓"@)[0] != ("将"@)[0]);
    assert(("弓"@)[0] != ("王"@)[0]);
    assert(("車"@)[0] != ("虎"@)[0]);
    assert(("車"@)[0] != ("馬"@)[0]);
    assert(("車"@)[0] != ("筆"@)[0]);
    assert(("車"@)[0] != ("巫"@)[0]);
    assert(("車"@)[0] != ("将"@)[0]);
    assert(("車"@)[0] != ("王"@)[0]);
    assert(("虎"@)[0] != ("馬"@)[0]);
    assert(("虎"@)[0] != ("筆"@)[0]);
    assert(("虎"@)[0] != ("巫"@)[0]);
    assert(("虎"@)[0] != ("将"@)[0]);
    assert(("虎"@)[0] != ("王"@)[0]);
    assert(("馬"@)[0] != ("筆"@)[0]);
    assert(("馬"@)[0] != ("巫"@)[0]);
    assert(("馬"@)[0] != ("将"@)[0]);
    assert(("馬"@)[0] != ("王"@)[0]);
    assert(("筆"@)[0] != ("巫"@)[0]);
    assert(("筆"@)[0] != ("将"@)[0]);
    assert(("筆"@)[0] != ("王"@)[0]);
    assert(("巫"@)[0] != ("将"@)[0]);
    assert(("巫"@)[0] != ("王"@)[0]);
    assert(("将"@)[0] != ("王"@)[0]);
}

/// Every documented alias spelling parses to its profession.
pub proof fn lemma_prof_aliases_parse()
    ensures
        parse_prof_spec("vessel"@) == Some(Profession::Nuak1),
        parse_prof_spec("felkana"@) == Some(Profession::Nuak1),
        parse_prof_spec("nuak1"@) == Some(Profession::Nuak1),
        parse_prof_spec("muak1"@) == Some(Profession::Nuak1),
        parse_prof_spec("pelkana"@) == Some(Profession::Nuak1),
        parse_prof_spec("pijume"@) == Some(Profession::Nuak1),
        parse_prof_spec("muak"@) == Some(Profession::Nuak1),
        parse_prof_spec("pawn"@) == Some(Profession::Kauk2),
        parse_prof_spec("elmer"@) == Some(Profession::Kauk2),
        parse_prof_spec("kauk2"@) == Some(Profession::Kauk2),
        parse_prof_spec("elme"@) == Some(Profession::Kauk2),
        parse_prof_spec("kauk"@) == Some(Profession::Kauk2),
        parse_prof_spec("rook"@) == Some(Profession::Gua2),
        parse_prof_spec("gustuer"@) == Some(Profession::Gua2),
        parse_prof_spec("gua2"@) == Some(Profession::Gua2),
        parse_prof_spec("kucte"@) == Some(Profession::Gua2),
        parse_prof_spec("kuctu"@) == Some(Profession::Gua2),
        parse_prof_spec("bishop"@) == Some(Profession::Kaun1),
        parse_prof_spec("车"@) == Some(Profession::Kaun1),
        parse_prof_spec("vadyrd"@) == Some(Profession::Kaun1),
        parse_prof_spec("kaun1"@) == Some(Profession::Kaun1),
        parse_prof_spec("badut"@) == Some(Profession::Kaun1),
        parse_prof_spec("xije"@) == Some(Profession::Kaun1),
        parse_prof_spec("kaun"@) == Some(Profession::Kaun1),
        parse_prof_spec("tiger"@) == Some(Profession::Dau2),
        parse_prof_spec("stistyst"@) == Some(Profession::Dau2),
        parse_prof_spec("dau2"@) == Some(Profession::Dau2),
        parse_prof_spec("cictus"@) == Some(Profession::Dau2),
        parse_prof_spec("cucit"@) == Some(Profession::Dau2),
        parse_prof_spec("dau"@) == Some(Profession::Dau2),
        parse_prof_spec("horse"@) == Some(Profession::Maun1),
        parse_prof_spec("马"@) == Some(Profession::Maun1),
        parse_prof_spec("dodor"@) == Some(Profession::Maun1),
        parse_prof_spec("maun1"@) == Some(Profession::Maun1),
        parse_prof_spec("dodo"@) == Some(Profession::Maun1),
        parse_prof_spec("maun"@) == Some(Profession::Maun1),
        parse_prof_spec("clerk"@) == Some(Profession::Kua2),
        parse_prof_spec("笔"@) == Some(Profession::Kua2),
        parse_prof_spec("kua"@) == Some(Profession::Kua2),
        parse_prof_spec("kua2"@) == Some(Profession::Kua2),
        parse_prof_spec("kuwa"@) == Some(Profession::Kua2),
        parse_prof_spec("shaman"@) == Some(Profession::Tuk2),
        parse_prof_spec("terlsk"@) == Some(Profession::Tuk2),
        parse_prof_spec("tuk2"@) == Some(Profession::Tuk2),
        parse_prof_spec("tamcuk"@) == Some(Profession::Tuk2),
        parse_prof_spec("tancuk"@) == Some(Profession::Tuk2),
        parse_prof_spec("general"@) == Some(Profession::Uai1),
        parse_prof_spec("varxle"@) == Some(Profession::Uai1),
        parse_prof_spec("uai1"@) == Some(Profession::Uai1),
        parse_prof_spec("baxule"@) == Some(Profession::Uai1),
        parse_prof_spec("xan"@) == Some(Profession::Uai1),
        parse_prof_spec("wai"@) == Some(Profession::Uai1),
        parse_prof_spec("king"@) == Some(Profession::Io),
        parse_prof_spec("ales"@) == Some(Profession::Io),
        parse_prof_spec("io"@) == Some(Profession::Io),
        parse_prof_spec("xet"@) == Some(Profession::Io),
        parse_prof_spec("caupla"@) == Some(Profession::Io),
{
    lemma_prof_table_lowercase();
    reveal_strlit("船");
    reveal_strlit("兵");
    reveal_strlit("弓");
    reveal_strlit("車");
    reveal_strlit("虎");
    reveal_strlit("馬");
    reveal_strlit("筆");
    reveal_strlit("巫");
    reveal_strlit("将");
    reveal_strlit("王");
    reveal_strlit("vessel");
    reveal_strlit("felkana");
    reveal_strlit("nuak1");
    reveal_strlit("muak1");
    reveal_strlit("pelkana");
    reveal_strlit("pijume");
    reveal_strlit("muak");
    reveal_strlit("pawn");
    reveal_strlit("elmer");
    reveal_strlit("kauk2");
    reveal_strlit("elme");
    reveal_strlit("kauk");
    reveal_strlit("rook");
    reveal_strlit("gustuer");
    reveal_strlit("gua2");
    reveal_strlit("kucte");
    reveal_strlit("kuctu");
    reveal_strlit("bishop");
    reveal_strlit("车");
    reveal_strlit("vadyrd");
    reveal_strlit("kaun1");
    reveal_strlit("badut");
    reveal_strlit("xije");
    reveal_strlit("kaun");
    reveal_strlit("tiger");
    reveal_strlit("stistyst");
    reveal_strlit("dau2");
    reveal_strlit("cictus");
    reveal_strlit("cucit");
    reveal_strlit("dau");
    reveal_strlit("horse");
    reveal_strlit("马");
    reveal_strlit("dodor");
    reveal_strlit("maun1");
    reveal_strlit("dodo");
    reveal_strlit("maun");
    reveal_strlit("clerk");
    reveal_strlit("笔");
    reveal_strlit("kua");
    reveal_strlit("kua2");
    reveal_strlit("kuwa");
    reveal_strlit("shaman");
    reveal_strlit("terlsk");
    reveal_strlit("tuk2");
    reveal_strlit("tamcuk");
    reveal_strlit("tancuk");
    reveal_strlit("general");
    reveal_strlit("varxle");
    reveal_strlit("uai1");
    reveal_strlit("baxule");
    reveal_strlit("xan");
    reveal_strlit("wai");
    reveal_strlit("king");
    reveal_strlit("ales");
    reveal_strlit("io");
    reveal_strlit("xet");
    reveal_strlit("caupla");
    assert(prof_of_lowered("vessel"@) == Some(Profession::Nuak1));
    assert(prof_of_lowered("felkana"@) == Some(Profession::Nuak1));
    assert(prof_of_lowered("nuak1"@) == Some(Profession::Nuak1));
    assert(prof_of_lowered("muak1"@) == Some(Profession::Nuak1));
    assert(prof_of_lowered("pelkana"@) == Some(Profession::Nuak1));
    assert(prof_of_lowered("pijume"@) == Some(Profession::Nuak1));
    assert(prof_of_lowered("muak"@) == Some(Profession::Nuak1));
    assert(("pawn"@)[0] != ("muak"@)[0]);
    assert(prof_of_lowered("pawn"@) == Some(Profession::Kauk2));
    assert(("elmer"@)[0] != ("nuak1"@)[0]);
    assert(("elmer"@)[0] != ("muak1"@)[0]);
    assert(prof_of_lowered("elmer"@) == Some(Profession::Kauk2));
    assert(("kauk2"@)[0] != ("nuak1"@)[0]);
    assert(("kauk2"@)[0] != ("muak1"@)[0]);
    assert(prof_of_lowered("kauk2"@) == Some(Profession::Kauk2));
    assert(("elme"@)[0] != ("muak"@)[0]);
    assert(prof_of_lowered("elme"@) == Some(Profession::Kauk2));
    assert(("kauk"@)[0] != ("muak"@)[0]);
    assert(prof_of_lowered("kauk"@) == Some(Profession::Kauk2));
    assert(("rook"@)[0] != ("muak"@)[0]);
    assert(("rook"@)[0] != ("pawn"@)[0]);
    assert(("rook"@)[0] != ("elme"@)[0]);
    assert(("rook"@)[0] != ("kauk"@)[0]);
    assert(prof_of_lowered("rook"@) == Some(Profession::Gua2));
    assert(("gustuer"@)[0] != ("felkana"@)[0]);
    assert(("gustuer"@)[0] != ("pelkana"@)[0]);
    assert(prof_of_lowered("gustuer"@) == Some(Profession::Gua2));
    assert(("gua2"@)[0] != ("muak"@)[0]);
    assert(("gua2"@)[0] != ("pawn"@)[0]);
    assert(("gua2"@)[0] != ("elme"@)[0]);
    assert(("gua2"@)[0] != ("kauk"@)[0]);
    assert(prof_of_lowered("gua2"@) == Some(Profession::Gua2));
    assert(("kucte"@)[0] != ("nuak1"@)[0]);
    assert(("kucte"@)[0] != ("muak1"@)[0]);
    assert(("kucte"@)[0] != ("elmer"@)[0]);
    assert(("kucte"@)[1] != ("kauk2"@)[1]);
    assert(prof_of_lowered("kucte"@) == Some(Profession::Gua2));
    assert(("kuctu"@)[0] != ("nuak1"@)[0]);
    assert(("kuctu"@)[0] != ("muak1"@)[0]);
    assert(("kuctu"@)[0] != ("elmer"@)[0]);
    assert(("kuctu"@)[1] != ("kauk2"@)[1]);
    assert(prof_of_lowered("kuctu"@) == Some(Profession::Gua2));
    assert(("bishop"@)[0] != ("vessel"@)[0]);
    assert(("bishop"@)[0] != ("pijume"@)[0]);
    assert(prof_of_lowered("bishop"@) == Some(Profession::Kaun1));
    assert(("车"@)[0] != ("船"@)[0]);
    assert(("车"@)[0] != ("兵"@)[0]);
    assert(("车"@)[0] != ("弓"@)[0]);
    assert(("车"@)[0] != ("車"@)[0]);
    assert(("车"@)[0] != ("虎"@)[0]);
    assert(("车"@)[0] != ("馬"@)[0]);
    assert(("车"@)[0] != ("筆"@)[0]);
    assert(("车"@)[0] != ("巫"@)[0]);
    assert(("车"@)[0] != ("将"@)[0]);
    assert(("车"@)[0] != ("王"@)[0]);
    assert(prof_of_lowered("车"@) == Some(Profession::Kaun1));
    assert(("vadyrd"@)[1] != ("vessel"@)[1]);
    assert(("vadyrd"@)[0] != ("pijume"@)[0]);
    assert(prof_of_lowered("vadyrd"@) == Some(Profession::Kaun1));
    assert(("kaun1"@)[0] != ("nuak1"@)[0]);
    assert(("kaun1"@)[0] != ("muak1"@)[0]);
    assert(("kaun1"@)[0] != ("elmer"@)[0]);
    assert(("kaun1"@)[3] != ("kauk2"@)[3]);
    assert(("kaun1"@)[1] != ("kucte"@)[1]);
    assert(("kaun1"@)[1] != ("kuctu"@)[1]);
    assert(prof_of_lowered("kaun1"@) == Some(Profession::Kaun1));
    assert(("badut"@)[0] != ("nuak1"@)[0]);
    assert(("badut"@)[0] != ("muak1"@)[0]);
    assert(("badut"@)[0] != ("elmer"@)[0]);
    assert(("badut"@)[0] != ("kauk2"@)[0]);
    assert(("badut"@)[0] != ("kucte"@)[0]);
    assert(("badut"@)[0] != ("kuctu"@)[0]);
    assert(prof_of_lowered("badut"@) == Some(Profession::Kaun1));
    assert(("xije"@)[0] != ("muak"@)[0]);
    assert(("xije"@)[0] != ("pawn"@)[0]);
    assert(("xije"@)[0] != ("elme"@)[0]);
    assert(("xije"@)[0] != ("kauk"@)[0]);
    assert(("xije"@)[0] != ("rook"@)[0]);
    assert(("xije"@)[0] != ("gua2"@)[0]);
    assert(prof_of_lowered("xije"@) == Some(Profession::Kaun1));
    assert(("kaun"@)[0] != ("muak"@)[0]);
    assert(("kaun"@)[0] != ("pawn"@)[0]);
    assert(("kaun"@)[0] != ("elme"@)[0]);
    assert(("kaun"@)[3] != ("kauk"@)[3]);
    assert(("kaun"@)[0] != ("rook"@)[0]);
    assert(("kaun"@)[0] != ("gua2"@)[0]);
    assert(prof_of_lowered("kaun"@) == Some(Profession::Kaun1));
    assert(("tiger"@)[0] != ("nuak1"@)[0]);
    assert(("tiger"@)[0] != ("muak1"@)[0]);
    assert(("tiger"@)[0] != ("elmer"@)[0]);
    assert(("tiger"@)[0] != ("kauk2"@)[0]);
    assert(("tiger"@)[0] != ("kucte"@)[0]);
    assert(("tiger"@)[0] != ("kuctu"@)[0]);
    assert(("tiger"@)[0] != ("kaun1"@)[0]);
    assert(("tiger"@)[0] != ("badut"@)[0]);
    assert(prof_of_lowered("tiger"@) == Some(Profession::Dau2));
    assert(prof_of_lowered("stistyst"@) == Some(Profession::Dau2));
    assert(("dau2"@)[0] != ("muak"@)[0]);
    assert(("dau2"@)[0] != ("pawn"@)[0]);
    assert(("dau2"@)[0] != ("elme"@)[0]);
    assert(("dau2"@)[0] != ("kauk"@)[0]);
    assert(("dau2"@)[0] != ("rook"@)[0]);
    assert(("dau2"@)[0] != ("gua2"@)[0]);
    assert(("dau2"@)[0] != ("xije"@)[0]);
    assert(("dau2"@)[0] != ("kaun"@)[0]);
    assert(prof_of_lowered("dau2"@) == Some(Profession::Dau2));
    assert(("cictus"@)[0] != ("vessel"@)[0]);
    assert(("cictus"@)[0] != ("pijume"@)[0]);
    assert(("cictus"@)[0] != ("bishop"@)[0]);
    assert(("cictus"@)[0] != ("vadyrd"@)[0]);
    assert(prof_of_lowered("cictus"@) == Some(Profession::Dau2));
    assert(("cucit"@)[0] != ("nuak1"@)[0]);
    assert(("cucit"@)[0] != ("muak1"@)[0]);
    assert(("cucit"@)[0] != ("elmer"@)[0]);
    assert(("cucit"@)[0] != ("kauk2"@)[0]);
    assert(("cucit"@)[0] != ("kucte"@)[0]);
    assert(("cucit"@)[0] != ("kuctu"@)[0]);
    assert(("cucit"@)[0] != ("kaun1"@)[0]);
    assert(("cucit"@)[0] != ("badut"@)[0]);
    assert(prof_of_lowered("cucit"@) == Some(Profession::Dau2));
    assert(prof_of_lowered("dau"@) == Some(Profession::Dau2));
    assert(("horse"@)[0] != ("nuak1"@)[0]);
    assert(("horse"@)[0] != ("muak1"@)[0]);
    assert(("horse"@)[0] != ("elmer"@)[0]);
    assert(("horse"@)[0] != ("kauk2"@)[0]);
    assert(("horse"@)[0] != ("kucte"@)[0]);
    assert(("horse"@)[0] != ("kuctu"@)[0]);
    assert(("horse"@)[0] != ("kaun1"@)[0]);
    assert(("horse"@)[0] != ("badut"@)[0]);
    assert(("horse"@)[0] != ("tiger"@)[0]);
    assert(("horse"@)[0] != ("cucit"@)[0]);
    assert(prof_of_lowered("horse"@) == Some(Profession::Maun1));
    assert(("马"@)[0] != ("船"@)[0]);
    assert(("马"@)[0] != ("兵"@)[0]);
    assert(("马"@)[0] != ("弓"@)[0]);
    assert(("马"@)[0] != ("車"@)[0]);
    assert(("马"@)[0] != ("虎"@)[0]);
    assert(("马"@)[0] != ("馬"@)[0]);
    assert(("马"@)[0] != ("筆"@)[0]);
    assert(("马"@)[0] != ("巫"@)[0]);
    assert(("马"@)[0] != ("将"@)[0]);
    assert(("马"@)[0] != ("王"@)[0]);
    assert(("马"@)[0] != ("车"@)[0]);
    assert(prof_of_lowered("马"@) == Some(Profession::Maun1));
    assert(("dodor"@)[0] != ("nuak1"@)[0]);
    assert(("dodor"@)[0] != ("muak1"@)[0]);
    assert(("dodor"@)[0] != ("elmer"@)[0]);
    assert(("dodor"@)[0] != ("kauk2"@)[0]);
    assert(("dodor"@)[0] != ("kucte"@)[0]);
    assert(("dodor"@)[0] != ("kuctu"@)[0]);
    assert(("dodor"@)[0] != ("kaun1"@)[0]);
    assert(("dodor"@)[0] != ("badut"@)[0]);
    assert(("dodor"@)[0] != ("tiger"@)[0]);
    assert(("dodor"@)[0] != ("cucit"@)[0]);
    assert(prof_of_lowered("dodor"@) == Some(Profession::Maun1));
    assert(("maun1"@)[0] != ("nuak1"@)[0]);
    assert(("maun1"@)[1] != ("muak1"@)[1]);
    assert(("maun1"@)[0] != ("elmer"@)[0]);
    assert(("maun1"@)[0] != ("kauk2"@)[0]);
    assert(("maun1"@)[0] != ("kucte"@)[0]);
    assert(("maun1"@)[0] != ("kuctu"@)[0]);
    assert(("maun1"@)[0] != ("kaun1"@)[0]);
    assert(("maun1"@)[0] != ("badut"@)[0]);
    assert(("maun1"@)[0] != ("tiger"@)[0]);
    assert(("maun1"@)[0] != ("cucit"@)[0]);
    assert(prof_of_lowered("maun1"@) == Some(Profession::Maun1));
    assert(("dodo"@)[0] != ("muak"@)[0]);
    assert(("dodo"@)[0] != ("pawn"@)[0]);
    assert(("dodo"@)[0] != ("elme"@)[0]);
    assert(("dodo"@)[0] != ("kauk"@)[0]);
    assert(("dodo"@)[0] != ("rook"@)[0]);
    assert(("dodo"@)[0] != ("gua2"@)[0]);
    assert(("dodo"@)[0] != ("xije"@)[0]);
    assert(("dodo"@)[0] != ("kaun"@)[0]);
    assert(("dodo"@)[1] != ("dau2"@)[1]);
    assert(prof_of_lowered("dodo"@) == Some(Profession::Maun1));
    assert(("maun"@)[1] != ("muak"@)[1]);
    assert(("maun"@)[0] != ("pawn"@)[0]);
    assert(("maun"@)[0] != ("elme"@)[0]);
    assert(("maun"@)[0] != ("kauk"@)[0]);
    assert(("maun"@)[0] != ("rook"@)[0]);
    assert(("maun"@)[0] != ("gua2"@)[0]);
    assert(("maun"@)[0] != ("xije"@)[0]);
    assert(("maun"@)[0] != ("kaun"@)[0]);
    assert(("maun"@)[0] != ("dau2"@)[0]);
    assert(prof_of_lowered("maun"@) == Some(Profession::Maun1));
    assert(("clerk"@)[0] != ("nuak1"@)[0]);
    assert(("clerk"@)[0] != ("muak1"@)[0]);
    assert(("clerk"@)[0] != ("elmer"@)[0]);
    assert(("clerk"@)[0] != ("kauk2"@)[0]);
    assert(("clerk"@)[0] != ("kucte"@)[0]);
    assert(("clerk"@)[0] != ("kuctu"@)[0]);
    assert(("clerk"@)[0] != ("kaun1"@)[0]);
    assert(("clerk"@)[0] != ("badut"@)[0]);
    assert(("clerk"@)[0] != ("tiger"@)[0]);
    assert(("clerk"@)[1] != ("cucit"@)[1]);
    assert(("clerk"@)[0] != ("horse"@)[0]);
    assert(("clerk"@)[0] != ("dodor"@)[0]);
    assert(("clerk"@)[0] != ("maun1"@)[0]);
    assert(prof_of_lowered("clerk"@) == Some(Profession::Kua2));
    assert(("笔"@)[0] != ("船"@)[0]);
    assert(("笔"@)[0] != ("兵"@)[0]);
    assert(("笔"@)[0] != ("弓"@)[0]);
    assert(("笔"@)[0] != ("車"@)[0]);
    assert(("笔"@)[0] != ("虎"@)[0]);
    assert(("笔"@)[0] != ("馬"@)[0]);
    assert(("笔"@)[0] != ("筆"@)[0]);
    assert(("笔"@)[0] != ("巫"@)[0]);
    assert(("笔"@)[0] != ("将"@)[0]);
    assert(("笔"@)[0] != ("王"@)[0]);
    assert(("笔"@)[0] != ("车"@)[0]);
    assert(("笔"@)[0] != ("马"@)[0]);
    assert(prof_of_lowered("笔"@) == Some(Profession::Kua2));
    assert(("kua"@)[0] != ("dau"@)[0]);
    assert(prof_of_lowered("kua"@) == Some(Profession::Kua2));
    assert(("kua2"@)[0] != ("muak"@)[0]);
    assert(("kua2"@)[0] != ("pawn"@)[0]);
    assert(("kua2"@)[0] != ("elme"@)[0]);
    assert(("kua2"@)[1] != ("kauk"@)[1]);
    assert(("kua2"@)[0] != ("rook"@)[0]);
    assert(("kua2"@)[0] != ("gua2"@)[0]);
    assert(("kua2"@)[0] != ("xije"@)[0]);
    assert(("kua2"@)[1] != ("kaun"@)[1]);
    assert(("kua2"@)[0] != ("dau2"@)[0]);
    assert(("kua2"@)[0] != ("dodo"@)[0]);
    assert(("kua2"@)[0] != ("maun"@)[0]);
    assert(prof_of_lowered("kua2"@) == Some(Profession::Kua2));
    assert(("kuwa"@)[0] != ("muak"@)[0]);
    assert(("kuwa"@)[0] != ("pawn"@)[0]);
    assert(("kuwa"@)[0] != ("elme"@)[0]);
    assert(("kuwa"@)[1] != ("kauk"@)[1]);
    assert(("kuwa"@)[0] != ("rook"@)[0]);
    assert(("kuwa"@)[0] != ("gua2"@)[0]);
    assert(("kuwa"@)[0] != ("xije"@)[0]);
    assert(("kuwa"@)[1] != ("kaun"@)[1]);
    assert(("kuwa"@)[0] != ("dau2"@)[0]);
    assert(("kuwa"@)[0] != ("dodo"@)[0]);
    assert(("kuwa"@)[0] != ("maun"@)[0]);
    assert(prof_of_lowered("kuwa"@) == Some(Profession::Kua2));
    assert(("shaman"@)[0] != ("vessel"@)[0]);
    assert(("shaman"@)[0] != ("pijume"@)[0]);
    assert(("shaman"@)[0] != ("bishop"@)[0]);
    assert(("shaman"@)[0] != ("vadyrd"@)[0]);
    assert(("shaman"@)[0] != ("cictus"@)[0]);
    assert(prof_of_lowered("shaman"@) == Some(Profession::Tuk2));
    assert(("terlsk"@)[0] != ("vessel"@)[0]);
    assert(("terlsk"@)[0] != ("pijume"@)[0]);
    assert(("terlsk"@)[0] != ("bishop"@)[0]);
    assert(("terlsk"@)[0] != ("vadyrd"@)[0]);
    assert(("terlsk"@)[0] != ("cictus"@)[0]);
    assert(prof_of_lowered("terlsk"@) == Some(Profession::Tuk2));
    assert(("tuk2"@)[0] != ("muak"@)[0]);
    assert(("tuk2"@)[0] != ("pawn"@)[0]);
    assert(("tuk2"@)[0] != ("elme"@)[0]);
    assert(("tuk2"@)[0] != ("kauk"@)[0]);
    assert(("tuk2"@)[0] != ("rook"@)[0]);
    assert(("tuk2"@)[0] != ("gua2"@)[0]);
    assert(("tuk2"@)[0] != ("xije"@)[0]);
    assert(("tuk2"@)[0] != ("kaun"@)[0]);
    assert(("tuk2"@)[0] != ("dau2"@)[0]);
    assert(("tuk2"@)[0] != ("dodo"@)[0]);
    assert(("tuk2"@)[0] != ("maun"@)[0]);
    assert(("tuk2"@)[0] != ("kua2"@)[0]);
    assert(("tuk2"@)[0] != ("kuwa"@)[0]);
    assert(prof_of_lowered("tuk2"@) == Some(Profession::Tuk2));
    assert(("tamcuk"@)[0] != ("vessel"@)[0]);
    assert(("tamcuk"@)[0] != ("pijume"@)[0]);
    assert(("tamcuk"@)[0] != ("bishop"@)[0]);
    assert(("tamcuk"@)[0] != ("vadyrd"@)[0]);
    assert(("tamcuk"@)[0] != ("cictus"@)[0]);
    assert(prof_of_lowered("tamcuk"@) == Some(Profession::Tuk2));
    assert(("tancuk"@)[0] != ("vessel"@)[0]);
    assert(("tancuk"@)[0] != ("pijume"@)[0]);
    assert(("tancuk"@)[0] != ("bishop"@)[0]);
    assert(("tancuk"@)[0] != ("vadyrd"@)[0]);
    assert(("tancuk"@)[0] != ("cictus"@)[0]);
    assert(prof_of_lowered("tancuk"@) == Some(Profession::Tuk2));
    assert(("general"@)[0] != ("felkana"@)[0]);
    assert(("general"@)[0] != ("pelkana"@)[0]);
    assert(("general"@)[1] != ("gustuer"@)[1]);
    assert(prof_of_lowered("general"@) == Some(Profession::Uai1));
    assert(("varxle"@)[1] != ("vessel"@)[1]);
    assert(("varxle"@)[0] != ("pijume"@)[0]);
    assert(("varxle"@)[0] != ("bishop"@)[0]);
    assert(("varxle"@)[2] != ("vadyrd"@)[2]);
    assert(("varxle"@)[0] != ("cictus"@)[0]);
    assert(("varxle"@)[0] != ("shaman"@)[0]);
    assert(("varxle"@)[0] != ("terlsk"@)[0]);
    assert(("varxle"@)[0] != ("tamcuk"@)[0]);
    assert(("varxle"@)[0] != ("tancuk"@)[0]);
    assert(prof_of_lowered("varxle"@) == Some(Profession::Uai1));
    assert(("uai1"@)[0] != ("muak"@)[0]);
    assert(("uai1"@)[0] != ("pawn"@)[0]);
    assert(("uai1"@)[0] != ("elme"@)[0]);
    assert(("uai1"@)[0] != ("kauk"@)[0]);
    assert(("uai1"@)[0] != ("rook"@)[0]);
    assert(("uai1"@)[0] != ("gua2"@)[0]);
    assert(("uai1"@)[0] != ("xije"@)[0]);
    assert(("uai1"@)[0] != ("kaun"@)[0]);
    assert(("uai1"@)[0] != ("dau2"@)[0]);
    assert(("uai1"@)[0] != ("dodo"@)[0]);
    assert(("uai1"@)[0] != ("maun"@)[0]);
    assert(("uai1"@)[0] != ("kua2"@)[0]);
    assert(("uai1"@)[0] != ("kuwa"@)[0]);
    assert(("uai1"@)[0] != ("tuk2"@)[0]);
    assert(prof_of_lowered("uai1"@) == Some(Profession::Uai1));
    assert(("baxule"@)[0] != ("vessel"@)[0]);
    assert(("baxule"@)[0] != ("pijume"@)[0]);
    assert(("baxule"@)[1] != ("bishop"@)[1]);
    assert(("baxule"@)[0] != ("vadyrd"@)[0]);
    assert(("baxule"@)[0] != ("cictus"@)[0]);
    assert(("baxule"@)[0] != ("shaman"@)[0]);
    assert(("baxule"@)[0] != ("terlsk"@)[0]);
    assert(("baxule"@)[0] != ("tamcuk"@)[0]);
    assert(("baxule"@)[0] != ("tancuk"@)[0]);
    assert(prof_of_lowered("baxule"@) == Some(Profession::Uai1));
    assert(("xan"@)[0] != ("dau"@)[0]);
    assert(("xan"@)[0] != ("kua"@)[0]);
    assert(prof_of_lowered("xan"@) == Some(Profession::Uai1));
    assert(("wai"@)[0] != ("dau"@)[0]);
    assert(("wai"@)[0] != ("kua"@)[0]);
    assert(prof_of_lowered("wai"@) == Some(Profession::Uai1));
    assert(("king"@)[0] != ("muak"@)[0]);
    assert(("king"@)[0] != ("pawn"@)[0]);
    assert(("king"@)[0] != ("elme"@)[0]);
    assert(("king"@)[1] != ("kauk"@)[1]);
    assert(("king"@)[0] != ("rook"@)[0]);
    assert(("king"@)[0] != ("gua2"@)[0]);
    assert(("king"@)[0] != ("xije"@)[0]);
    assert(("king"@)[1] != ("kaun"@)[1]);
    assert(("king"@)[0] != ("dau2"@)[0]);
    assert(("king"@)[0] != ("dodo"@)[0]);
    assert(("king"@)[0] != ("maun"@)[0]);
    assert(("king"@)[1] != ("kua2"@)[1]);
    assert(("king"@)[1] != ("kuwa"@)[1]);
    assert(("king"@)[0] != ("tuk2"@)[0]);
    assert(("king"@)[0] != ("uai1"@)[0]);
    assert(prof_of_lowered("king"@) == Some(Profession::Io));
    assert(("ales"@)[0] != ("muak"@)[0]);
    assert(("ales"@)[0] != ("pawn"@)[0]);
    assert(("ales"@)[0] != ("elme"@)[0]);
    assert(("ales"@)[0] != ("kauk"@)[0]);
    assert(("ales"@)[0] != ("rook"@)[0]);
    assert(("ales"@)[0] != ("gua2"@)[0]);
    assert(("ales"@)[0] != ("xije"@)[0]);
    assert(("ales"@)[0] != ("kaun"@)[0]);
    assert(("ales"@)[0] != ("dau2"@)[0]);
    assert(("ales"@)[0] != ("dodo"@)[0]);
    assert(("ales"@)[0] != ("maun"@)[0]);
    assert(("ales"@)[0] != ("kua2"@)[0]);
    assert(("ales"@)[0] != ("kuwa"@)[0]);
    assert(("ales"@)[0] != ("tuk2"@)[0]);
    assert(("ales"@)[0] != ("uai1"@)[0]);
    assert(prof_of_lowered("ales"@) == Some(Profession::Io));
    assert(prof_of_lowered("io"@) == Some(Profession::Io));
    assert(("xet"@)[0] != ("dau"@)[0]);
    assert(("xet"@)[0] != ("kua"@)[0]);
    assert(("xet"@)[1] != ("xan"@)[1]);
    assert(("xet"@)[0] != ("wai"@)[0]);
    assert(prof_of_lowered("xet"@) == Some(Profession::Io));
    assert(("caupla"@)[0] != ("vessel"@)[0]);
    assert(("caupla"@)[0] != ("pijume"@)[0]);
    assert(("caupla"@)[0] != ("bishop"@)[0]);
    assert(("caupla"@)[0] != ("vadyrd"@)[0]);
    assert(("caupla"@)[1] != ("cictus"@)[1]);
    assert(("caupla"@)[0] != ("shaman"@)[0]);
    assert(("caupla"@)[0] != ("terlsk"@)[0]);
    assert(("caupla"@)[0] != ("tamcuk"@)[0]);
    assert(("caupla"@)[0] != ("tancuk"@)[0]);
    assert(("caupla"@)[0] != ("varxle"@)[0]);
    assert(("caupla"@)[0] != ("baxule"@)[0]);
    assert(prof_of_lowered("caupla"@) == Some(Profession::Io));
}

} // verus!
