use vstd::prelude::*;

use crate::cube::{Face, Move, Rotation};

verus! {

/// Relies on rand::random_range: a uniform draw from `0..bound`. Nothing
/// can be promised of which value comes back, only that it lies in the
/// range; the range is non-empty, so the call cannot panic.
#[verifier::external_body]
fn random_below(bound: u8) -> (r: u8)
    requires
        bound > 0,
    ensures
        r < bound,
{
    rand::random_range(0..bound)
}

impl Move {
    /// A randomly drawn move: any face, any rotation.
    pub fn new() -> (r: Self) {
        let face = match random_below(6) {
            0 => Face::Up,
            1 => Face::Down,
            2 => Face::Front,
            3 => Face::Back,
            4 => Face::Right,
            _ => Face::Left,
        };
        Move { face, rotation: random_rotation() }
    }
}

fn random_rotation() -> (r: Rotation) {
    match random_below(3) {
        0 => Rotation::Clockwise,
        1 => Rotation::CounterClockwise,
        _ => Rotation::DoubleTurn,
    }
}

fn face_allowed(f: Face, skip1: Face, skip2: Option<Face>) -> (r: bool)
    ensures
        r == (f != skip1 && match skip2 {
            Some(s) => f != s,
            None => true,
        }),
{
    f != skip1 && match skip2 {
        Some(s) => f != s,
        None => true,
    }
}

/// A uniformly random face other than the banned one or two. Drawing from
/// the allowed faces directly gives the same distribution as drawing any
/// face and retrying on a banned one.
fn draw_face(skip1: Face, skip2: Option<Face>) -> (r: Face)
    ensures
        r != skip1,
        match skip2 {
            Some(s) => r != s,
            None => true,
        },
{
    let mut allowed: Vec<Face> = Vec::new();
    if face_allowed(Face::Up, skip1, skip2) {
        allowed.push(Face::Up);
    }
    if face_allowed(Face::Down, skip1, skip2) {
        allowed.push(Face::Down);
    }
    if face_allowed(Face::Front, skip1, skip2) {
        allowed.push(Face::Front);
    }
    if face_allowed(Face::Back, skip1, skip2) {
        allowed.push(Face::Back);
    }
    if face_allowed(Face::Right, skip1, skip2) {
        allowed.push(Face::Right);
    }
    if face_allowed(Face::Left, skip1, skip2) {
        allowed.push(Face::Left);
    }
    proof {
        assert(allowed@.len() >= 4);
    }
    let d = random_below(allowed.len() as u8);
    allowed[d as usize]
}

/// A legal scramble: two successive moves never turn the same face, and
/// two successive moves on opposite faces are never followed by a third on
/// that same axis.
pub open spec fn scramble_wf(moves: Seq<Move>) -> bool {
    &&& forall|i: int|
        0 <= i < moves.len() - 1 ==> (#[trigger] moves[i + 1]).face != moves[i].face
    &&& forall|i: int|
        0 <= i < moves.len() - 2 ==> !((#[trigger] moves[i + 2]).face == moves[i
            + 1].face.spec_opposite() && moves[i + 1].face == moves[i].face.spec_opposite())
}

/// A randomly generated sequence of moves for one attempt.
#[derive(Clone, Debug)]
pub struct Scramble {
    pub moves: Vec<Move>,
}

impl Scramble {
    /// Draw a legal scramble of `scramble_length + 1` moves: after the
    /// first, each move is drawn from the faces the adjacency rule allows
    /// at that point.
    pub fn new(scramble_length: u8) -> (r: Self)
        ensures
            r.moves@.len() == scramble_length + 1,
            scramble_wf(r.moves@),
    {
        let mut moves: Vec<Move> = Vec::new();
        moves.push(Move::new());
        let mut previous_move = moves[0];
        let mut was_opposite = false;
        let mut count: usize = 0;
        while count < scramble_length as usize
            invariant
                count <= scramble_length,
                moves@.len() == count + 1,
                scramble_wf(moves@),
                previous_move == moves@.last(),
                was_opposite == (moves@.len() >= 2 && moves@.last().face == moves@[moves@.len()
                    - 2].face.spec_opposite()),
            decreases scramble_length - count,
        {
            let skip2 = if was_opposite {
                Some(previous_move.face.opposite_face())
            } else {
                None
            };
            let face = draw_face(previous_move.face, skip2);
            let mv = Move { face, rotation: random_rotation() };
            let ghost before = moves@;
            was_opposite = mv.face == previous_move.face.opposite_face();
            previous_move = mv;
            moves.push(mv);
            proof {
                let m = moves@;
                assert forall|i: int| 0 <= i < m.len() - 1 implies (#[trigger] m[i + 1]).face
                    != m[i].face by {
                    if i + 1 < m.len() - 1 {
                        assert(before[i + 1].face != before[i].face);
                    }
                }
                assert forall|i: int| 0 <= i < m.len() - 2 implies !((#[trigger] m[i + 2]).face
                    == m[i + 1].face.spec_opposite() && m[i + 1].face
                    == m[i].face.spec_opposite()) by {
                    if i + 2 < m.len() - 1 {
                        assert(!(before[i + 2].face == before[i + 1].face.spec_opposite()
                            && before[i + 1].face == before[i].face.spec_opposite()));
                    }
                }
            }
            count = count + 1;
        }
        Self { moves }
    }
}

} // verus!
