use cetkaik_fundamental::AbsoluteSide;
use cetkaik_fundamental::Color;
use cetkaik_fundamental::ColorAndProf;
use cetkaik_fundamental::ParseError;
use cetkaik_fundamental::Profession;
use cetkaik_fundamental::serialize_color;
use cetkaik_fundamental::serialize_prof;

const COLORS: [Color; 2] = [Color::Kok1, Color::Huok2];

const PROFESSIONS: [Profession; 10] = [
    Profession::Nuak1,
    Profession::Kauk2,
    Profession::Gua2,
    Profession::Kaun1,
    Profession::Dau2,
    Profession::Maun1,
    Profession::Kua2,
    Profession::Tuk2,
    Profession::Uai1,
    Profession::Io,
];

#[test]
fn side_flip_is_involutive_and_proper() {
    for s in [AbsoluteSide::ASide, AbsoluteSide::IASide] {
        assert_eq!(s.not().not(), s);
        assert_ne!(s.not(), s);
    }
}

#[test]
fn side_parses_canonical_tokens_only() {
    assert_eq!(AbsoluteSide::from_str("A"), Ok(AbsoluteSide::ASide));
    assert_eq!(AbsoluteSide::from_str("IA"), Ok(AbsoluteSide::IASide));
    assert_eq!(AbsoluteSide::from_str("XX"), Err(ParseError));
    assert_eq!(AbsoluteSide::from_str("a"), Err(ParseError));
    assert_eq!(AbsoluteSide::from_str(""), Err(ParseError));
}

#[test]
fn color_renders_canonical_glyphs() {
    assert_eq!(serialize_color(Color::Kok1), "赤");
    assert_eq!(serialize_color(Color::Huok2), "黒");
}

#[test]
fn color_round_trips_through_canonical_glyph() {
    for c in COLORS {
        assert_eq!(Color::from_str(serialize_color(c)), Ok(c));
    }
}

#[test]
fn color_accepts_documented_spellings() {
    assert_eq!(Color::from_str("red"), Ok(Color::Kok1));
    assert_eq!(Color::from_str("RED"), Ok(Color::Kok1));
    assert_eq!(Color::from_str("kok1"), Ok(Color::Kok1));
    assert_eq!(Color::from_str("红"), Ok(Color::Kok1));
    assert_eq!(Color::from_str("紅"), Ok(Color::Kok1));
    assert_eq!(Color::from_str("black"), Ok(Color::Huok2));
    assert_eq!(Color::from_str("Black"), Ok(Color::Huok2));
    assert_eq!(Color::from_str("huok2"), Ok(Color::Huok2));
    assert_eq!(Color::from_str("黑"), Ok(Color::Huok2));
}

#[test]
fn color_rejects_unknown_spellings() {
    assert_eq!(Color::from_str("紫"), Err(ParseError));
    assert_eq!(Color::from_str(""), Err(ParseError));
    assert_eq!(Color::from_str("redd"), Err(ParseError));
}

#[test]
fn profession_renders_canonical_glyphs() {
    assert_eq!(serialize_prof(Profession::Nuak1), "船");
    assert_eq!(serialize_prof(Profession::Kauk2), "兵");
    assert_eq!(serialize_prof(Profession::Gua2), "弓");
    assert_eq!(serialize_prof(Profession::Kaun1), "車");
    assert_eq!(serialize_prof(Profession::Dau2), "虎");
    assert_eq!(serialize_prof(Profession::Maun1), "馬");
    assert_eq!(serialize_prof(Profession::Kua2), "筆");
    assert_eq!(serialize_prof(Profession::Tuk2), "巫");
    assert_eq!(serialize_prof(Profession::Uai1), "将");
    assert_eq!(serialize_prof(Profession::Io), "王");
}

#[test]
fn profession_round_trips_through_canonical_glyph() {
    for p in PROFESSIONS {
        assert_eq!(Profession::from_str(serialize_prof(p)), Ok(p));
    }
}

#[test]
fn profession_rendering_is_injective() {
    for p1 in PROFESSIONS {
        for p2 in PROFESSIONS {
            if p1 != p2 {
                assert_ne!(serialize_prof(p1), serialize_prof(p2));
            }
        }
    }
}

#[test]
fn profession_accepts_documented_spellings() {
    for alias in ["vessel", "felkana", "nuak1", "muak1", "pelkana", "pijume", "muak"] {
        assert_eq!(Profession::from_str(alias), Ok(Profession::Nuak1));
    }
    for alias in ["pawn", "elmer", "kauk2", "elme", "kauk", "兵"] {
        assert_eq!(Profession::from_str(alias), Ok(Profession::Kauk2));
    }
    for alias in ["rook", "gustuer", "gua2", "kucte", "kuctu"] {
        assert_eq!(Profession::from_str(alias), Ok(Profession::Gua2));
    }
    for alias in ["bishop", "车", "vadyrd", "kaun1", "badut", "xije", "kaun"] {
        assert_eq!(Profession::from_str(alias), Ok(Profession::Kaun1));
    }
    for alias in ["tiger", "stistyst", "dau2", "cictus", "cucit", "dau"] {
        assert_eq!(Profession::from_str(alias), Ok(Profession::Dau2));
    }
    for alias in ["horse", "马", "dodor", "maun1", "dodo", "maun"] {
        assert_eq!(Profession::from_str(alias), Ok(Profession::Maun1));
    }
    for alias in ["clerk", "笔", "kua", "kua2", "kuwa"] {
        assert_eq!(Profession::from_str(alias), Ok(Profession::Kua2));
    }
    for alias in ["shaman", "terlsk", "tuk2", "tamcuk", "tancuk"] {
        assert_eq!(Profession::from_str(alias), Ok(Profession::Tuk2));
    }
    for alias in ["general", "varxle", "uai1", "baxule", "xan", "wai"] {
        assert_eq!(Profession::from_str(alias), Ok(Profession::Uai1));
    }
    for alias in ["king", "ales", "io", "xet", "caupla"] {
        assert_eq!(Profession::from_str(alias), Ok(Profession::Io));
    }
}

#[test]
fn profession_parsing_is_case_insensitive() {
    assert_eq!(Profession::from_str("ELMER"), Ok(Profession::Kauk2));
    assert_eq!(Profession::from_str("Bishop"), Ok(Profession::Kaun1));
    assert_eq!(Profession::from_str("UAI1"), Ok(Profession::Uai1));
    assert_eq!(Profession::from_str("King"), Ok(Profession::Io));
}

#[test]
fn profession_rejects_unknown_spellings() {
    assert_eq!(Profession::from_str("queen"), Err(ParseError));
    assert_eq!(Profession::from_str(""), Err(ParseError));
    assert_eq!(Profession::from_str("皇"), Err(ParseError));
}

#[test]
fn color_and_prof_round_trips_for_all_twenty_pairs() {
    for color in COLORS {
        for prof in PROFESSIONS {
            let cp = ColorAndProf { color, prof };
            assert_eq!(ColorAndProf::from_str(&cp.to_text()), Ok(cp));
        }
    }
}

#[test]
fn color_and_prof_renders_color_glyph_first() {
    let cp = ColorAndProf { color: Color::Kok1, prof: Profession::Kauk2 };
    assert_eq!(cp.to_text(), "赤兵");
    let cp = ColorAndProf { color: Color::Huok2, prof: Profession::Nuak1 };
    assert_eq!(cp.to_text(), "黒船");
}

#[test]
fn color_and_prof_accepts_canonical_forms_only() {
    assert_eq!(
        ColorAndProf::from_str("黒将"),
        Ok(ColorAndProf { color: Color::Huok2, prof: Profession::Uai1 })
    );
    assert_eq!(ColorAndProf::from_str("赤"), Err(ParseError));
    assert_eq!(ColorAndProf::from_str("兵赤"), Err(ParseError));
    assert_eq!(ColorAndProf::from_str("赤pawn"), Err(ParseError));
    assert_eq!(ColorAndProf::from_str("redpawn"), Err(ParseError));
    assert_eq!(ColorAndProf::from_str(""), Err(ParseError));
}
