use cetkaik_fundamental::Color;
use cetkaik_fundamental::Profession;
use cetkaik_fundamental::PureMove_;
use cetkaik_fundamental::serialize_pure_move;

fn s(text: &str) -> String {
    String::from(text)
}

#[test]
fn plain_relocation_without_water_check() {
    let m = PureMove_::NonTamMoveSrcDst { src: s("X"), dest: s("Y"), is_water_entry_ciurl: false };
    assert_eq!(serialize_pure_move(&m), "X片Y");
}

#[test]
fn plain_relocation_with_water_check() {
    let m = PureMove_::NonTamMoveSrcDst { src: s("X"), dest: s("Y"), is_water_entry_ciurl: true };
    assert_eq!(serialize_pure_move(&m), "X片Y水");
}

#[test]
fn stepping_relocation_finite() {
    let m = PureMove_::NonTamMoveSrcStepDstFinite {
        src: s("TAU"),
        step: s("TY"),
        dest: s("TO"),
        is_water_entry_ciurl: false,
    };
    assert_eq!(serialize_pure_move(&m), "TAU片TYTO");
    let m = PureMove_::NonTamMoveSrcStepDstFinite {
        src: s("TAU"),
        step: s("TY"),
        dest: s("TO"),
        is_water_entry_ciurl: true,
    };
    assert_eq!(serialize_pure_move(&m), "TAU片TYTO水");
}

#[test]
fn stepping_relocation_infinite_has_no_water_marker() {
    let m = PureMove_::InfAfterStep { src: s("X"), step: s("S"), planned_direction: s("P") };
    assert_eq!(serialize_pure_move(&m), "X片S心P");
}

#[test]
fn pool_entry_of_red_pawn() {
    let m = PureMove_::NonTamMoveFromHopZuo {
        color: Color::Kok1,
        prof: Profession::Kauk2,
        dest: s("Z"),
    };
    assert_eq!(serialize_pure_move(&m), "赤兵Z");
}

#[test]
fn pool_entry_of_black_vessel() {
    let m = PureMove_::NonTamMoveFromHopZuo {
        color: Color::Huok2,
        prof: Profession::Nuak1,
        dest: s("KA"),
    };
    assert_eq!(serialize_pure_move(&m), "黒船KA");
}

#[test]
fn royal_double_step_without_step() {
    let m = PureMove_::TamMoveNoStep {
        src: s("A1"),
        first_dest: s("B2"),
        second_dest: s("C3"),
    };
    assert_eq!(serialize_pure_move(&m), "A1皇[B2]C3");
}

#[test]
fn royal_double_step_stepping_during_former_leg() {
    let m = PureMove_::TamMoveStepsDuringFormer {
        src: s("A1"),
        step: s("S9"),
        first_dest: s("B2"),
        second_dest: s("C3"),
    };
    assert_eq!(serialize_pure_move(&m), "A1皇S9[B2]C3");
}

#[test]
fn royal_double_step_stepping_during_latter_leg() {
    let m = PureMove_::TamMoveStepsDuringLatter {
        src: s("A1"),
        step: s("S9"),
        first_dest: s("B2"),
        second_dest: s("C3"),
    };
    assert_eq!(serialize_pure_move(&m), "A1皇[B2]S9C3");
}
