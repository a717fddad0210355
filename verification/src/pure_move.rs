//! The tagged representation of a move, and its canonical textual notation.

use vstd::prelude::*;
use crate::color::{serialize_color, serialize_color_spec, Color};
use crate::profession::{serialize_prof, serialize_prof_spec, Profession};

verus! {

/// Describes a move. Generic over the coordinate type `Coord`; this crate
/// never inspects a coordinate beyond carrying it, and renders notation from
/// moves whose coordinates are already turned to text.
#[derive(Clone, Copy, PartialEq, Eq, Hash, Debug)]
pub enum PureMove_<Coord> {
    /// A non-Tam2 piece moves from a square on a board to another square
    /// without stepping.
    NonTamMoveSrcDst {
        /// origin
        src: Coord,
        /// final destination
        dest: Coord,
        /// whether a water-entry ciurl is required
        is_water_entry_ciurl: bool,
    },
    /// A non-Tam2 piece moves from a square on a board to another square,
    /// during which it steps another piece and does a finite movement.
    NonTamMoveSrcStepDstFinite {
        /// origin
        src: Coord,
        /// via point
        step: Coord,
        /// destination
        dest: Coord,
        /// whether a water-entry ciurl is required
        is_water_entry_ciurl: bool,
    },
    /// A non-Tam2 piece moves from a square on a board to another square,
    /// during which it steps another piece and tries to do a directional,
    /// infinite movement. Only the planned target is recorded: after casting
    /// the sticks, some rules require going to the destination or in the
    /// direction declared beforehand.
    InfAfterStep {
        /// origin
        src: Coord,
        /// via point
        step: Coord,
        /// the planned location
        planned_direction: Coord,
    },
    /// A non-Tam2 piece enters the board from the captured-piece pool.
    NonTamMoveFromHopZuo {
        /// color of the piece
        color: Color,
        /// profession of the piece
        prof: Profession,
        /// destination
        dest: Coord,
    },
    /// A Tam2 moves from a square on a board to another square without
    /// stepping.
    TamMoveNoStep {
        /// origin
        src: Coord,
        /// first destination
        first_dest: Coord,
        /// second destination
        second_dest: Coord,
    },
    /// A Tam2 moves from a square on a board to another square. In the former
    /// half of its movement, it steps another piece.
    TamMoveStepsDuringFormer {
        /// origin
        src: Coord,
        /// via point
        step: Coord,
        /// first destination
        first_dest: Coord,
        /// second destination
        second_dest: Coord,
    },
    /// A Tam2 moves from a square on a board to another square. In the latter
    /// half of its movement, it steps another piece.
    TamMoveStepsDuringLatter {
        /// origin
        src: Coord,
        /// via point
        step: Coord,
        /// first destination
        first_dest: Coord,
        /// second destination
        second_dest: Coord,
    },
}

/// The canonical notation of a move whose coordinates are given as text.
/// The water-entry marker "水" closes a plain or finite stepping relocation
/// when its flag is set; the brackets always wrap the first destination of a
/// Tam2 double-step to mark it as an intermediate landing square.
pub open spec fn pure_move_text(m: PureMove_<String>) -> Seq<char> {
    match m {
        PureMove_::NonTamMoveSrcDst { src, dest, is_water_entry_ciurl } => src@ + "片"@ + dest@
            + (if is_water_entry_ciurl {
            "水"@
        } else {
            Seq::<char>::empty()
        }),
        PureMove_::NonTamMoveSrcStepDstFinite { src, step, dest, is_water_entry_ciurl } => src@
            + "片"@ + step@ + dest@ + (if is_water_entry_ciurl {
            "水"@
        } else {
            Seq::<char>::empty()
        }),
        PureMove_::InfAfterStep { src, step, planned_direction } => src@ + "片"@ + step@ + "心"@
            + planned_direction@,
        PureMove_::NonTamMoveFromHopZuo { color, prof, dest } => serialize_color_spec(color)
            + serialize_prof_spec(prof) + dest@,
        PureMove_::TamMoveNoStep { src, first_dest, second_dest } => src@ + "皇["@ + first_dest@
            + "]"@ + second_dest@,
        PureMove_::TamMoveStepsDuringFormer { src, step, first_dest, second_dest } => src@ + "皇"@
            + step@ + "["@ + first_dest@ + "]"@ + second_dest@,
        PureMove_::TamMoveStepsDuringLatter { src, step, first_dest, second_dest } => src@ + "皇["@
            + first_dest@ + "]"@ + step@ + second_dest@,
    }
}

/// Renders a move to its canonical notation string.
pub fn serialize_pure_move(m: &PureMove_<String>) -> (r: String)
    ensures
        r@ == pure_move_text(*m),
{
    match m {
        PureMove_::NonTamMoveSrcDst { src, dest, is_water_entry_ciurl } => {
            let mut r = String::from_str(src.as_str());
            r.append("片");
            r.append(dest.as_str());
            if *is_water_entry_ciurl {
                r.append("水");
            }
            proof {
                assert(r@ =~= pure_move_text(*m));
            }
            r
        },
        PureMove_::NonTamMoveSrcStepDstFinite { src, step, dest, is_water_entry_ciurl } => {
            let mut r = String::from_str(src.as_str());
            r.append("片");
            r.append(step.as_str());
            r.append(dest.as_str());
            if *is_water_entry_ciurl {
                r.append("水");
            }
            proof {
                assert(r@ =~= pure_move_text(*m));
            }
            r
        },
        PureMove_::InfAfterStep { src, step, planned_direction } => {
            let mut r = String::from_str(src.as_str());
            r.append("片");
            r.append(step.as_str());
            r.append("心");
            r.append(planned_direction.as_str());
            proof {
                assert(r@ =~= pure_move_text(*m));
            }
            r
        },
        PureMove_::NonTamMoveFromHopZuo { color, prof, dest } => {
            let mut r = String::from_str(serialize_color(*color));
            r.append(serialize_prof(*prof));
            r.append(dest.as_str());
            proof {
                assert(r@ =~= pure_move_text(*m));
            }
            r
        },
        PureMove_::TamMoveNoStep { src, first_dest, second_dest } => {
            let mut r = String::from_str(src.as_str());
            r.append("皇[");
            r.append(first_dest.as_str());
            r.append("]");
            r.append(second_dest.as_str());
            proof {
                assert(r@ =~= pure_move_text(*m));
            }
            r
        },
        PureMove_::TamMoveStepsDuringFormer { src, step, first_dest, second_dest } => {
            let mut r = String::from_str(src.as_str());
            r.append("皇");
            r.append(step.as_str());
            r.append("[");
            r.append(first_dest.as_str());
            r.append("]");
            r.append(second_dest.as_str());
            proof {
                assert(r@ =~= pure_move_text(*m));
            }
            r
        },
        PureMove_::TamMoveStepsDuringLatter { src, step, first_dest, second_dest } => {
            let mut r = String::from_str(src.as_str());
            r.append("皇[");
            r.append(first_dest.as_str());
            r.append("]");
            r.append(step.as_str());
            r.append(second_dest.as_str());
            proof {
                assert(r@ =~= pure_move_text(*m));
            }
            r
        },
    }
}

} // verus!
