use vstd::prelude::*;
use vstd::pervasive::VecAdditionalExecFns;

verus! {

/// One of the six faces of the puzzle.
#[derive(Clone, Copy, PartialEq, Eq, Structural, Debug)]
pub enum Face {
    Up,
    Down,
    Front,
    Back,
    Right,
    Left,
}

impl Face {
    /// The face on the opposite side of the puzzle.
    pub fn opposite_face(self) -> (r: Self)
        ensures
            r == self.spec_opposite(),
    {
        match self {
            Face::Up => Face::Down,
            Face::Down => Face::Up,
            Face::Front => Face::Back,
            Face::Back => Face::Front,
            Face::Right => Face::Left,
            Face::Left => Face::Right,
        }
    }

    pub open spec fn spec_opposite(self) -> Self {
        match self {
            Face::Up => Face::Down,
            Face::Down => Face::Up,
            Face::Front => Face::Back,
            Face::Back => Face::Front,
            Face::Right => Face::Left,
            Face::Left => Face::Right,
        }
    }
}

/// How far a face is turned by one move.
#[derive(Clone, Copy, PartialEq, Eq, Structural, Debug)]
pub enum Rotation {
    Clockwise,
    CounterClockwise,
    DoubleTurn,
}

/// One turn of one face.
#[derive(Clone, Copy, PartialEq, Eq, Structural, Debug)]
pub struct Move {
    pub face: Face,
    pub rotation: Rotation,
}

/// The face a solved puzzle shows at facelet position `i`.
pub open spec fn solved_face(i: int) -> Face {
    if i < 9 {
        Face::Up
    } else if i < 18 {
        Face::Left
    } else if i < 27 {
        Face::Front
    } else if i < 36 {
        Face::Right
    } else if i < 45 {
        Face::Back
    } else {
        Face::Down
    }
}

pub open spec fn up_cw_src(i: int) -> int {
    if i == 0 {
        6
    } else
    if i == 1 {
        3
    } else
    if i == 2 {
        0
    } else
    if i == 3 {
        7
    } else
    if i == 5 {
        1
    } else
    if i == 6 {
        8
    } else
    if i == 7 {
        5
    } else
    if i == 8 {
        2
    } else
    if i == 9 {
        18
    } else
    if i == 10 {
        19
    } else
    if i == 11 {
        20
    } else
    if i == 18 {
        27
    } else
    if i == 19 {
        28
    } else
    if i == 20 {
        29
    } else
    if i == 27 {
        36
    } else
    if i == 28 {
        37
    } else
    if i == 29 {
        38
    } else
    if i == 36 {
        9
    } else
    if i == 37 {
        10
    } else
    if i == 38 {
        11
    } else
    {
        i
    }
}

pub open spec fn up_cw_touched(i: int) -> bool {
    i == 0 || i == 1 || i == 2 || i == 3 || i == 5 || i == 6 || i == 7 || i == 8 || i == 9 || i == 10 || i == 11 || i == 18 || i == 19 || i == 20 || i == 27 || i == 28 || i == 29 || i == 36 || i == 37 || i == 38
}

#[verifier::rlimit(100)]
#[verifier::spinoff_prover]
fn turn_up_cw(f: &mut Vec<Face>)
    requires
        old(f)@.len() == 54,
    ensures
        final(f)@.len() == 54,
        final(f)@[0] == old(f)@[6],
        final(f)@[1] == old(f)@[3],
        final(f)@[2] == old(f)@[0],
        final(f)@[3] == old(f)@[7],
        final(f)@[5] == old(f)@[1],
        final(f)@[6] == old(f)@[8],
        final(f)@[7] == old(f)@[5],
        final(f)@[8] == old(f)@[2],
        final(f)@[9] == old(f)@[18],
        final(f)@[10] == old(f)@[19],
        final(f)@[11] == old(f)@[20],
        final(f)@[18] == old(f)@[27],
        final(f)@[19] == old(f)@[28],
        final(f)@[20] == old(f)@[29],
        final(f)@[27] == old(f)@[36],
        final(f)@[28] == old(f)@[37],
        final(f)@[29] == old(f)@[38],
        final(f)@[36] == old(f)@[9],
        final(f)@[37] == old(f)@[10],
        final(f)@[38] == old(f)@[11],
        forall|i: int| 0 <= i < 54 && !up_cw_touched(i) ==> final(f)@[i] == old(f)@[i],
{
    let s0 = f[6];
    let s1 = f[3];
    let s2 = f[0];
    let s3 = f[7];
    let s4 = f[1];
    let s5 = f[8];
    let s6 = f[5];
    let s7 = f[2];
    let s8 = f[18];
    let s9 = f[19];
    let s10 = f[20];
    let s11 = f[27];
    let s12 = f[28];
    let s13 = f[29];
    let s14 = f[36];
    let s15 = f[37];
    let s16 = f[38];
    let s17 = f[9];
    let s18 = f[10];
    let s19 = f[11];
    f.set(0, s0);
    f.set(1, s1);
    f.set(2, s2);
    f.set(3, s3);
    f.set(5, s4);
    f.set(6, s5);
    f.set(7, s6);
    f.set(8, s7);
    f.set(9, s8);
    f.set(10, s9);
    f.set(11, s10);
    f.set(18, s11);
    f.set(19, s12);
    f.set(20, s13);
    f.set(27, s14);
    f.set(28, s15);
    f.set(29, s16);
    f.set(36, s17);
    f.set(37, s18);
    f.set(38, s19);
}

pub open spec fn up_ccw_src(i: int) -> int {
    if i == 0 {
        2
    } else
    if i == 1 {
        5
    } else
    if i == 2 {
        8
    } else
    if i == 3 {
        1
    } else
    if i == 5 {
        7
    } else
    if i == 6 {
        0
    } else
    if i == 7 {
        3
    } else
    if i == 8 {
        6
    } else
    if i == 9 {
        36
    } else
    if i == 10 {
        37
    } else
    if i == 11 {
        38
    } else
    if i == 18 {
        9
    } else
    if i == 19 {
        10
    } else
    if i == 20 {
        11
    } else
    if i == 27 {
        18
    } else
    if i == 28 {
        19
    } else
    if i == 29 {
        20
    } else
    if i == 36 {
        27
    } else
    if i == 37 {
        28
    } else
    if i == 38 {
        29
    } else
    {
        i
    }
}

pub open spec fn up_ccw_touched(i: int) -> bool {
    i == 0 || i == 1 || i == 2 || i == 3 || i == 5 || i == 6 || i == 7 || i == 8 || i == 9 || i == 10 || i == 11 || i == 18 || i == 19 || i == 20 || i == 27 || i == 28 || i == 29 || i == 36 || i == 37 || i == 38
}

#[verifier::rlimit(100)]
#[verifier::spinoff_prover]
fn turn_up_ccw(f: &mut Vec<Face>)
    requires
        old(f)@.len() == 54,
    ensures
        final(f)@.len() == 54,
        final(f)@[0] == old(f)@[2],
        final(f)@[1] == old(f)@[5],
        final(f)@[2] == old(f)@[8],
        final(f)@[3] == old(f)@[1],
        final(f)@[5] == old(f)@[7],
        final(f)@[6] == old(f)@[0],
        final(f)@[7] == old(f)@[3],
        final(f)@[8] == old(f)@[6],
        final(f)@[9] == old(f)@[36],
        final(f)@[10] == old(f)@[37],
        final(f)@[11] == old(f)@[38],
        final(f)@[18] == old(f)@[9],
        final(f)@[19] == old(f)@[10],
        final(f)@[20] == old(f)@[11],
        final(f)@[27] == old(f)@[18],
        final(f)@[28] == old(f)@[19],
        final(f)@[29] == old(f)@[20],
        final(f)@[36] == old(f)@[27],
        final(f)@[37] == old(f)@[28],
        final(f)@[38] == old(f)@[29],
        forall|i: int| 0 <= i < 54 && !up_ccw_touched(i) ==> final(f)@[i] == old(f)@[i],
{
    let s0 = f[2];
    let s1 = f[5];
    let s2 = f[8];
    let s3 = f[1];
    let s4 = f[7];
    let s5 = f[0];
    let s6 = f[3];
    let s7 = f[6];
    let s8 = f[36];
    let s9 = f[37];
    let s10 = f[38];
    let s11 = f[9];
    let s12 = f[10];
    let s13 = f[11];
    let s14 = f[18];
    let s15 = f[19];
    let s16 = f[20];
    let s17 = f[27];
    let s18 = f[28];
    let s19 = f[29];
    f.set(0, s0);
    f.set(1, s1);
    f.set(2, s2);
    f.set(3, s3);
    f.set(5, s4);
    f.set(6, s5);
    f.set(7, s6);
    f.set(8, s7);
    f.set(9, s8);
    f.set(10, s9);
    f.set(11, s10);
    f.set(18, s11);
    f.set(19, s12);
    f.set(20, s13);
    f.set(27, s14);
    f.set(28, s15);
    f.set(29, s16);
    f.set(36, s17);
    f.set(37, s18);
    f.set(38, s19);
}

pub open spec fn up_two_src(i: int) -> int {
    if i == 0 {
        8
    } else
    if i == 1 {
        7
    } else
    if i == 2 {
        6
    } else
    if i == 3 {
        5
    } else
    if i == 5 {
        3
    } else
    if i == 6 {
        2
    } else
    if i == 7 {
        1
    } else
    if i == 8 {
        0
    } else
    if i == 9 {
        27
    } else
    if i == 10 {
        28
    } else
    if i == 11 {
        29
    } else
    if i == 18 {
        36
    } else
    if i == 19 {
        37
    } else
    if i == 20 {
        38
    } else
    if i == 27 {
        9
    } else
    if i == 28 {
        10
    } else
    if i == 29 {
        11
    } else
    if i == 36 {
        18
    } else
    if i == 37 {
        19
    } else
    if i == 38 {
        20
    } else
    {
        i
    }
}

pub open spec fn up_two_touched(i: int) -> bool {
    i == 0 || i == 1 || i == 2 || i == 3 || i == 5 || i == 6 || i == 7 || i == 8 || i == 9 || i == 10 || i == 11 || i == 18 || i == 19 || i == 20 || i == 27 || i == 28 || i == 29 || i == 36 || i == 37 || i == 38
}

#[verifier::rlimit(100)]
#[verifier::spinoff_prover]
fn turn_up_two(f: &mut Vec<Face>)
    requires
        old(f)@.len() == 54,
    ensures
        final(f)@.len() == 54,
        final(f)@[0] == old(f)@[8],
        final(f)@[1] == old(f)@[7],
        final(f)@[2] == old(f)@[6],
        final(f)@[3] == old(f)@[5],
        final(f)@[5] == old(f)@[3],
        final(f)@[6] == old(f)@[2],
        final(f)@[7] == old(f)@[1],
        final(f)@[8] == old(f)@[0],
        final(f)@[9] == old(f)@[27],
        final(f)@[10] == old(f)@[28],
        final(f)@[11] == old(f)@[29],
        final(f)@[18] == old(f)@[36],
        final(f)@[19] == old(f)@[37],
        final(f)@[20] == old(f)@[38],
        final(f)@[27] == old(f)@[9],
        final(f)@[28] == old(f)@[10],
        final(f)@[29] == old(f)@[11],
        final(f)@[36] == old(f)@[18],
        final(f)@[37] == old(f)@[19],
        final(f)@[38] == old(f)@[20],
        forall|i: int| 0 <= i < 54 && !up_two_touched(i) ==> final(f)@[i] == old(f)@[i],
{
    let s0 = f[8];
    let s1 = f[7];
    let s2 = f[6];
    let s3 = f[5];
    let s4 = f[3];
    let s5 = f[2];
    let s6 = f[1];
    let s7 = f[0];
    let s8 = f[27];
    let s9 = f[28];
    let s10 = f[29];
    let s11 = f[36];
    let s12 = f[37];
    let s13 = f[38];
    let s14 = f[9];
    let s15 = f[10];
    let s16 = f[11];
    let s17 = f[18];
    let s18 = f[19];
    let s19 = f[20];
    f.set(0, s0);
    f.set(1, s1);
    f.set(2, s2);
    f.set(3, s3);
    f.set(5, s4);
    f.set(6, s5);
    f.set(7, s6);
    f.set(8, s7);
    f.set(9, s8);
    f.set(10, s9);
    f.set(11, s10);
    f.set(18, s11);
    f.set(19, s12);
    f.set(20, s13);
    f.set(27, s14);
    f.set(28, s15);
    f.set(29, s16);
    f.set(36, s17);
    f.set(37, s18);
    f.set(38, s19);
}

pub open spec fn down_cw_src(i: int) -> int {
    if i == 45 {
        51
    } else
    if i == 46 {
        48
    } else
    if i == 47 {
        45
    } else
    if i == 48 {
        52
    } else
    if i == 50 {
        46
    } else
    if i == 51 {
        53
    } else
    if i == 52 {
        50
    } else
    if i == 53 {
        47
    } else
    if i == 15 {
        42
    } else
    if i == 16 {
        43
    } else
    if i == 17 {
        44
    } else
    if i == 24 {
        15
    } else
    if i == 25 {
        16
    } else
    if i == 26 {
        17
    } else
    if i == 33 {
        24
    } else
    if i == 34 {
        25
    } else
    if i == 35 {
        26
    } else
    if i == 42 {
        33
    } else
    if i == 43 {
        34
    } else
    if i == 44 {
        35
    } else
    {
        i
    }
}

pub open spec fn down_cw_touched(i: int) -> bool {
    i == 45 || i == 46 || i == 47 || i == 48 || i == 50 || i == 51 || i == 52 || i == 53 || i == 15 || i == 16 || i == 17 || i == 24 || i == 25 || i == 26 || i == 33 || i == 34 || i == 35 || i == 42 || i == 43 || i == 44
}

#[verifier::rlimit(100)]
#[verifier::spinoff_prover]
fn turn_down_cw(f: &mut Vec<Face>)
    requires
        old(f)@.len() == 54,
    ensures
        final(f)@.len() == 54,
        final(f)@[45] == old(f)@[51],
        final(f)@[46] == old(f)@[48],
        final(f)@[47] == old(f)@[45],
        final(f)@[48] == old(f)@[52],
        final(f)@[50] == old(f)@[46],
        final(f)@[51] == old(f)@[53],
        final(f)@[52] == old(f)@[50],
        final(f)@[53] == old(f)@[47],
        final(f)@[15] == old(f)@[42],
        final(f)@[16] == old(f)@[43],
        final(f)@[17] == old(f)@[44],
        final(f)@[24] == old(f)@[15],
        final(f)@[25] == old(f)@[16],
        final(f)@[26] == old(f)@[17],
        final(f)@[33] == old(f)@[24],
        final(f)@[34] == old(f)@[25],
        final(f)@[35] == old(f)@[26],
        final(f)@[42] == old(f)@[33],
        final(f)@[43] == old(f)@[34],
        final(f)@[44] == old(f)@[35],
        forall|i: int| 0 <= i < 54 && !down_cw_touched(i) ==> final(f)@[i] == old(f)@[i],
{
    let s0 = f[51];
    let s1 = f[48];
    let s2 = f[45];
    let s3 = f[52];
    let s4 = f[46];
    let s5 = f[53];
    let s6 = f[50];
    let s7 = f[47];
    let s8 = f[42];
    let s9 = f[43];
    let s10 = f[44];
    let s11 = f[15];
    let s12 = f[16];
    let s13 = f[17];
    let s14 = f[24];
    let s15 = f[25];
    let s16 = f[26];
    let s17 = f[33];
    let s18 = f[34];
    let s19 = f[35];
    f.set(45, s0);
    f.set(46, s1);
    f.set(47, s2);
    f.set(48, s3);
    f.set(50, s4);
    f.set(51, s5);
    f.set(52, s6);
    f.set(53, s7);
    f.set(15, s8);
    f.set(16, s9);
    f.set(17, s10);
    f.set(24, s11);
    f.set(25, s12);
    f.set(26, s13);
    f.set(33, s14);
    f.set(34, s15);
    f.set(35, s16);
    f.set(42, s17);
    f.set(43, s18);
    f.set(44, s19);
}

pub open spec fn down_ccw_src(i: int) -> int {
    if i == 45 {
        47
    } else
    if i == 46 {
        50
    } else
    if i == 47 {
        53
    } else
    if i == 48 {
        46
    } else
    if i == 50 {
        52
    } else
    if i == 51 {
        45
    } else
    if i == 52 {
        48
    } else
    if i == 53 {
        51
    } else
    if i == 15 {
        24
    } else
    if i == 16 {
        25
    } else
    if i == 17 {
        26
    } else
    if i == 24 {
        33
    } else
    if i == 25 {
        34
    } else
    if i == 26 {
        35
    } else
    if i == 33 {
        42
    } else
    if i == 34 {
        43
    } else
    if i == 35 {
        44
    } else
    if i == 42 {
        15
    } else
    if i == 43 {
        16
    } else
    if i == 44 {
        17
    } else
    {
        i
    }
}

pub open spec fn down_ccw_touched(i: int) -> bool {
    i == 45 || i == 46 || i == 47 || i == 48 || i == 50 || i == 51 || i == 52 || i == 53 || i == 15 || i == 16 || i == 17 || i == 24 || i == 25 || i == 26 || i == 33 || i == 34 || i == 35 || i == 42 || i == 43 || i == 44
}

#[verifier::rlimit(100)]
#[verifier::spinoff_prover]
fn turn_down_ccw(f: &mut Vec<Face>)
    requires
        old(f)@.len() == 54,
    ensures
        final(f)@.len() == 54,
        final(f)@[45] == old(f)@[47],
        final(f)@[46] == old(f)@[50],
        final(f)@[47] == old(f)@[53],
        final(f)@[48] == old(f)@[46],
        final(f)@[50] == old(f)@[52],
        final(f)@[51] == old(f)@[45],
        final(f)@[52] == old(f)@[48],
        final(f)@[53] == old(f)@[51],
        final(f)@[15] == old(f)@[24],
        final(f)@[16] == old(f)@[25],
        final(f)@[17] == old(f)@[26],
        final(f)@[24] == old(f)@[33],
        final(f)@[25] == old(f)@[34],
        final(f)@[26] == old(f)@[35],
        final(f)@[33] == old(f)@[42],
        final(f)@[34] == old(f)@[43],
        final(f)@[35] == old(f)@[44],
        final(f)@[42] == old(f)@[15],
        final(f)@[43] == old(f)@[16],
        final(f)@[44] == old(f)@[17],
        forall|i: int| 0 <= i < 54 && !down_ccw_touched(i) ==> final(f)@[i] == old(f)@[i],
{
    let s0 = f[47];
    let s1 = f[50];
    let s2 = f[53];
    let s3 = f[46];
    let s4 = f[52];
    let s5 = f[45];
    let s6 = f[48];
    let s7 = f[51];
    let s8 = f[24];
    let s9 = f[25];
    let s10 = f[26];
    let s11 = f[33];
    let s12 = f[34];
    let s13 = f[35];
    let s14 = f[42];
    let s15 = f[43];
    let s16 = f[44];
    let s17 = f[15];
    let s18 = f[16];
    let s19 = f[17];
    f.set(45, s0);
    f.set(46, s1);
    f.set(47, s2);
    f.set(48, s3);
    f.set(50, s4);
    f.set(51, s5);
    f.set(52, s6);
    f.set(53, s7);
    f.set(15, s8);
    f.set(16, s9);
    f.set(17, s10);
    f.set(24, s11);
    f.set(25, s12);
    f.set(26, s13);
    f.set(33, s14);
    f.set(34, s15);
    f.set(35, s16);
    f.set(42, s17);
    f.set(43, s18);
    f.set(44, s19);
}

pub open spec fn down_two_src(i: int) -> int {
    if i == 45 {
        53
    } else
    if i == 46 {
        52
    } else
    if i == 47 {
        51
    } else
    if i == 48 {
        50
    } else
    if i == 50 {
        48
    } else
    if i == 51 {
        47
    } else
    if i == 52 {
        46
    } else
    if i == 53 {
        45
    } else
    if i == 15 {
        33
    } else
    if i == 16 {
        34
    } else
    if i == 17 {
        35
    } else
    if i == 24 {
        42
    } else
    if i == 25 {
        43
    } else
    if i == 26 {
        44
    } else
    if i == 33 {
        15
    } else
    if i == 34 {
        16
    } else
    if i == 35 {
        17
    } else
    if i == 42 {
        24
    } else
    if i == 43 {
        25
    } else
    if i == 44 {
        26
    } else
    {
        i
    }
}

pub open spec fn down_two_touched(i: int) -> bool {
    i == 45 || i == 46 || i == 47 || i == 48 || i == 50 || i == 51 || i == 52 || i == 53 || i == 15 || i == 16 || i == 17 || i == 24 || i == 25 || i == 26 || i == 33 || i == 34 || i == 35 || i == 42 || i == 43 || i == 44
}

#[verifier::rlimit(100)]
#[verifier::spinoff_prover]
fn turn_down_two(f: &mut Vec<Face>)
    requires
        old(f)@.len() == 54,
    ensures
        final(f)@.len() == 54,
        final(f)@[45] == old(f)@[53],
        final(f)@[46] == old(f)@[52],
        final(f)@[47] == old(f)@[51],
        final(f)@[48] == old(f)@[50],
        final(f)@[50] == old(f)@[48],
        final(f)@[51] == old(f)@[47],
        final(f)@[52] == old(f)@[46],
        final(f)@[53] == old(f)@[45],
        final(f)@[15] == old(f)@[33],
        final(f)@[16] == old(f)@[34],
        final(f)@[17] == old(f)@[35],
        final(f)@[24] == old(f)@[42],
        final(f)@[25] == old(f)@[43],
        final(f)@[26] == old(f)@[44],
        final(f)@[33] == old(f)@[15],
        final(f)@[34] == old(f)@[16],
        final(f)@[35] == old(f)@[17],
        final(f)@[42] == old(f)@[24],
        final(f)@[43] == old(f)@[25],
        final(f)@[44] == old(f)@[26],
        forall|i: int| 0 <= i < 54 && !down_two_touched(i) ==> final(f)@[i] == old(f)@[i],
{
    let s0 = f[53];
    let s1 = f[52];
    let s2 = f[51];
    let s3 = f[50];
    let s4 = f[48];
    let s5 = f[47];
    let s6 = f[46];
    let s7 = f[45];
    let s8 = f[33];
    let s9 = f[34];
    let s10 = f[35];
    let s11 = f[42];
    let s12 = f[43];
    let s13 = f[44];
    let s14 = f[15];
    let s15 = f[16];
    let s16 = f[17];
    let s17 = f[24];
    let s18 = f[25];
    let s19 = f[26];
    f.set(45, s0);
    f.set(46, s1);
    f.set(47, s2);
    f.set(48, s3);
    f.set(50, s4);
    f.set(51, s5);
    f.set(52, s6);
    f.set(53, s7);
    f.set(15, s8);
    f.set(16, s9);
    f.set(17, s10);
    f.set(24, s11);
    f.set(25, s12);
    f.set(26, s13);
    f.set(33, s14);
    f.set(34, s15);
    f.set(35, s16);
    f.set(42, s17);
    f.set(43, s18);
    f.set(44, s19);
}

pub open spec fn front_cw_src(i: int) -> int {
    if i == 18 {
        24
    } else
    if i == 19 {
        21
    } else
    if i == 20 {
        18
    } else
    if i == 21 {
        25
    } else
    if i == 23 {
        19
    } else
    if i == 24 {
        26
    } else
    if i == 25 {
        23
    } else
    if i == 26 {
        20
    } else
    if i == 6 {
        17
    } else
    if i == 7 {
        14
    } else
    if i == 8 {
        11
    } else
    if i == 11 {
        45
    } else
    if i == 14 {
        46
    } else
    if i == 17 {
        47
    } else
    if i == 27 {
        6
    } else
    if i == 30 {
        7
    } else
    if i == 33 {
        8
    } else
    if i == 45 {
        33
    } else
    if i == 46 {
        30
    } else
    if i == 47 {
        27
    } else
    {
        i
    }
}

pub open spec fn front_cw_touched(i: int) -> bool {
    i == 18 || i == 19 || i == 20 || i == 21 || i == 23 || i == 24 || i == 25 || i == 26 || i == 6 || i == 7 || i == 8 || i == 11 || i == 14 || i == 17 || i == 27 || i == 30 || i == 33 || i == 45 || i == 46 || i == 47
}

#[verifier::rlimit(100)]
#[verifier::spinoff_prover]
fn turn_front_cw(f: &mut Vec<Face>)
    requires
        old(f)@.len() == 54,
    ensures
        final(f)@.len() == 54,
        final(f)@[18] == old(f)@[24],
        final(f)@[19] == old(f)@[21],
        final(f)@[20] == old(f)@[18],
        final(f)@[21] == old(f)@[25],
        final(f)@[23] == old(f)@[19],
        final(f)@[24] == old(f)@[26],
        final(f)@[25] == old(f)@[23],
        final(f)@[26] == old(f)@[20],
        final(f)@[6] == old(f)@[17],
        final(f)@[7] == old(f)@[14],
        final(f)@[8] == old(f)@[11],
        final(f)@[11] == old(f)@[45],
        final(f)@[14] == old(f)@[46],
        final(f)@[17] == old(f)@[47],
        final(f)@[27] == old(f)@[6],
        final(f)@[30] == old(f)@[7],
        final(f)@[33] == old(f)@[8],
        final(f)@[45] == old(f)@[33],
        final(f)@[46] == old(f)@[30],
        final(f)@[47] == old(f)@[27],
        forall|i: int| 0 <= i < 54 && !front_cw_touched(i) ==> final(f)@[i] == old(f)@[i],
{
    let s0 = f[24];
    let s1 = f[21];
    let s2 = f[18];
    let s3 = f[25];
    let s4 = f[19];
    let s5 = f[26];
    let s6 = f[23];
    let s7 = f[20];
    let s8 = f[17];
    let s9 = f[14];
    let s10 = f[11];
    let s11 = f[45];
    let s12 = f[46];
    let s13 = f[47];
    let s14 = f[6];
    let s15 = f[7];
    let s16 = f[8];
    let s17 = f[33];
    let s18 = f[30];
    let s19 = f[27];
    f.set(18, s0);
    f.set(19, s1);
    f.set(20, s2);
    f.set(21, s3);
    f.set(23, s4);
    f.set(24, s5);
    f.set(25, s6);
    f.set(26, s7);
    f.set(6, s8);
    f.set(7, s9);
    f.set(8, s10);
    f.set(11, s11);
    f.set(14, s12);
    f.set(17, s13);
    f.set(27, s14);
    f.set(30, s15);
    f.set(33, s16);
    f.set(45, s17);
    f.set(46, s18);
    f.set(47, s19);
}

pub open spec fn front_ccw_src(i: int) -> int {
    if i == 18 {
        20
    } else
    if i == 19 {
        23
    } else
    if i == 20 {
        26
    } else
    if i == 21 {
        19
    } else
    if i == 23 {
        25
    } else
    if i == 24 {
        18
    } else
    if i == 25 {
        21
    } else
    if i == 26 {
        24
    } else
    if i == 6 {
        27
    } else
    if i == 7 {
        30
    } else
    if i == 8 {
        33
    } else
    if i == 11 {
        8
    } else
    if i == 14 {
        7
    } else
    if i == 17 {
        6
    } else
    if i == 27 {
        47
    } else
    if i == 30 {
        46
    } else
    if i == 33 {
        45
    } else
    if i == 45 {
        11
    } else
    if i == 46 {
        14
    } else
    if i == 47 {
        17
    } else
    {
        i
    }
}

pub open spec fn front_ccw_touched(i: int) -> bool {
    i == 18 || i == 19 || i == 20 || i == 21 || i == 23 || i == 24 || i == 25 || i == 26 || i == 6 || i == 7 || i == 8 || i == 11 || i == 14 || i == 17 || i == 27 || i == 30 || i == 33 || i == 45 || i == 46 || i == 47
}

#[verifier::rlimit(100)]
#[verifier::spinoff_prover]
fn turn_front_ccw(f: &mut Vec<Face>)
    requires
        old(f)@.len() == 54,
    ensures
        final(f)@.len() == 54,
        final(f)@[18] == old(f)@[20],
        final(f)@[19] == old(f)@[23],
        final(f)@[20] == old(f)@[26],
        final(f)@[21] == old(f)@[19],
        final(f)@[23] == old(f)@[25],
        final(f)@[24] == old(f)@[18],
        final(f)@[25] == old(f)@[21],
        final(f)@[26] == old(f)@[24],
        final(f)@[6] == old(f)@[27],
        final(f)@[7] == old(f)@[30],
        final(f)@[8] == old(f)@[33],
        final(f)@[11] == old(f)@[8],
        final(f)@[14] == old(f)@[7],
        final(f)@[17] == old(f)@[6],
        final(f)@[27] == old(f)@[47],
        final(f)@[30] == old(f)@[46],
        final(f)@[33] == old(f)@[45],
        final(f)@[45] == old(f)@[11],
        final(f)@[46] == old(f)@[14],
        final(f)@[47] == old(f)@[17],
        forall|i: int| 0 <= i < 54 && !front_ccw_touched(i) ==> final(f)@[i] == old(f)@[i],
{
    let s0 = f[20];
    let s1 = f[23];
    let s2 = f[26];
    let s3 = f[19];
    let s4 = f[25];
    let s5 = f[18];
    let s6 = f[21];
    let s7 = f[24];
    let s8 = f[27];
    let s9 = f[30];
    let s10 = f[33];
    let s11 = f[8];
    let s12 = f[7];
    let s13 = f[6];
    let s14 = f[47];
    let s15 = f[46];
    let s16 = f[45];
    let s17 = f[11];
    let s18 = f[14];
    let s19 = f[17];
    f.set(18, s0);
    f.set(19, s1);
    f.set(20, s2);
    f.set(21, s3);
    f.set(23, s4);
    f.set(24, s5);
    f.set(25, s6);
    f.set(26, s7);
    f.set(6, s8);
    f.set(7, s9);
    f.set(8, s10);
    f.set(11, s11);
    f.set(14, s12);
    f.set(17, s13);
    f.set(27, s14);
    f.set(30, s15);
    f.set(33, s16);
    f.set(45, s17);
    f.set(46, s18);
    f.set(47, s19);
}

pub open spec fn front_two_src(i: int) -> int {
    if i == 18 {
        26
    } else
    if i == 19 {
        25
    } else
    if i == 20 {
        24
    } else
    if i == 21 {
        23
    } else
    if i == 23 {
        21
    } else
    if i == 24 {
        20
    } else
    if i == 25 {
        19
    } else
    if i == 26 {
        18
    } else
    if i == 6 {
        47
    } else
    if i == 7 {
        46
    } else
    if i == 8 {
        45
    } else
    if i == 11 {
        33
    } else
    if i == 14 {
        30
    } else
    if i == 17 {
        27
    } else
    if i == 27 {
        17
    } else
    if i == 30 {
        14
    } else
    if i == 33 {
        11
    } else
    if i == 45 {
        8
    } else
    if i == 46 {
        7
    } else
    if i == 47 {
        6
    } else
    {
        i
    }
}

pub open spec fn front_two_touched(i: int) -> bool {
    i == 18 || i == 19 || i == 20 || i == 21 || i == 23 || i == 24 || i == 25 || i == 26 || i == 6 || i == 7 || i == 8 || i == 11 || i == 14 || i == 17 || i == 27 || i == 30 || i == 33 || i == 45 || i == 46 || i == 47
}

#[verifier::rlimit(100)]
#[verifier::spinoff_prover]
fn turn_front_two(f: &mut Vec<Face>)
    requires
        old(f)@.len() == 54,
    ensures
        final(f)@.len() == 54,
        final(f)@[18] == old(f)@[26],
        final(f)@[19] == old(f)@[25],
        final(f)@[20] == old(f)@[24],
        final(f)@[21] == old(f)@[23],
        final(f)@[23] == old(f)@[21],
        final(f)@[24] == old(f)@[20],
        final(f)@[25] == old(f)@[19],
        final(f)@[26] == old(f)@[18],
        final(f)@[6] == old(f)@[47],
        final(f)@[7] == old(f)@[46],
        final(f)@[8] == old(f)@[45],
        final(f)@[11] == old(f)@[33],
        final(f)@[14] == old(f)@[30],
        final(f)@[17] == old(f)@[27],
        final(f)@[27] == old(f)@[17],
        final(f)@[30] == old(f)@[14],
        final(f)@[33] == old(f)@[11],
        final(f)@[45] == old(f)@[8],
        final(f)@[46] == old(f)@[7],
        final(f)@[47] == old(f)@[6],
        forall|i: int| 0 <= i < 54 && !front_two_touched(i) ==> final(f)@[i] == old(f)@[i],
{
    let s0 = f[26];
    let s1 = f[25];
    let s2 = f[24];
    let s3 = f[23];
    let s4 = f[21];
    let s5 = f[20];
    let s6 = f[19];
    let s7 = f[18];
    let s8 = f[47];
    let s9 = f[46];
    let s10 = f[45];
    let s11 = f[33];
    let s12 = f[30];
    let s13 = f[27];
    let s14 = f[17];
    let s15 = f[14];
    let s16 = f[11];
    let s17 = f[8];
    let s18 = f[7];
    let s19 = f[6];
    f.set(18, s0);
    f.set(19, s1);
    f.set(20, s2);
    f.set(21, s3);
    f.set(23, s4);
    f.set(24, s5);
    f.set(25, s6);
    f.set(26, s7);
    f.set(6, s8);
    f.set(7, s9);
    f.set(8, s10);
    f.set(11, s11);
    f.set(14, s12);
    f.set(17, s13);
    f.set(27, s14);
    f.set(30, s15);
    f.set(33, s16);
    f.set(45, s17);
    f.set(46, s18);
    f.set(47, s19);
}

pub open spec fn back_cw_src(i: int) -> int {
    if i == 36 {
        42
    } else
    if i == 37 {
        39
    } else
    if i == 38 {
        36
    } else
    if i == 39 {
        43
    } else
    if i == 41 {
        37
    } else
    if i == 42 {
        44
    } else
    if i == 43 {
        41
    } else
    if i == 44 {
        38
    } else
    if i == 0 {
        29
    } else
    if i == 1 {
        32
    } else
    if i == 2 {
        35
    } else
    if i == 9 {
        2
    } else
    if i == 12 {
        1
    } else
    if i == 15 {
        0
    } else
    if i == 29 {
        53
    } else
    if i == 32 {
        52
    } else
    if i == 35 {
        51
    } else
    if i == 51 {
        9
    } else
    if i == 52 {
        12
    } else
    if i == 53 {
        15
    } else
    {
        i
    }
}

pub open spec fn back_cw_touched(i: int) -> bool {
    i == 36 || i == 37 || i == 38 || i == 39 || i == 41 || i == 42 || i == 43 || i == 44 || i == 0 || i == 1 || i == 2 || i == 9 || i == 12 || i == 15 || i == 29 || i == 32 || i == 35 || i == 51 || i == 52 || i == 53
}

#[verifier::rlimit(100)]
#[verifier::spinoff_prover]
fn turn_back_cw(f: &mut Vec<Face>)
    requires
        old(f)@.len() == 54,
    ensures
        final(f)@.len() == 54,
        final(f)@[36] == old(f)@[42],
        final(f)@[37] == old(f)@[39],
        final(f)@[38] == old(f)@[36],
        final(f)@[39] == old(f)@[43],
        final(f)@[41] == old(f)@[37],
        final(f)@[42] == old(f)@[44],
        final(f)@[43] == old(f)@[41],
        final(f)@[44] == old(f)@[38],
        final(f)@[0] == old(f)@[29],
        final(f)@[1] == old(f)@[32],
        final(f)@[2] == old(f)@[35],
        final(f)@[9] == old(f)@[2],
        final(f)@[12] == old(f)@[1],
        final(f)@[15] == old(f)@[0],
        final(f)@[29] == old(f)@[53],
        final(f)@[32] == old(f)@[52],
        final(f)@[35] == old(f)@[51],
        final(f)@[51] == old(f)@[9],
        final(f)@[52] == old(f)@[12],
        final(f)@[53] == old(f)@[15],
        forall|i: int| 0 <= i < 54 && !back_cw_touched(i) ==> final(f)@[i] == old(f)@[i],
{
    let s0 = f[42];
    let s1 = f[39];
    let s2 = f[36];
    let s3 = f[43];
    let s4 = f[37];
    let s5 = f[44];
    let s6 = f[41];
    let s7 = f[38];
    let s8 = f[29];
    let s9 = f[32];
    let s10 = f[35];
    let s11 = f[2];
    let s12 = f[1];
    let s13 = f[0];
    let s14 = f[53];
    let s15 = f[52];
    let s16 = f[51];
    let s17 = f[9];
    let s18 = f[12];
    let s19 = f[15];
    f.set(36, s0);
    f.set(37, s1);
    f.set(38, s2);
    f.set(39, s3);
    f.set(41, s4);
    f.set(42, s5);
    f.set(43, s6);
    f.set(44, s7);
    f.set(0, s8);
    f.set(1, s9);
    f.set(2, s10);
    f.set(9, s11);
    f.set(12, s12);
    f.set(15, s13);
    f.set(29, s14);
    f.set(32, s15);
    f.set(35, s16);
    f.set(51, s17);
    f.set(52, s18);
    f.set(53, s19);
}

pub open spec fn back_ccw_src(i: int) -> int {
    if i == 36 {
        38
    } else
    if i == 37 {
        41
    } else
    if i == 38 {
        44
    } else
    if i == 39 {
        37
    } else
    if i == 41 {
        43
    } else
    if i == 42 {
        36
    } else
    if i == 43 {
        39
    } else
    if i == 44 {
        42
    } else
    if i == 0 {
        15
    } else
    if i == 1 {
        12
    } else
    if i == 2 {
        9
    } else
    if i == 9 {
        51
    } else
    if i == 12 {
        52
    } else
    if i == 15 {
        53
    } else
    if i == 29 {
        0
    } else
    if i == 32 {
        1
    } else
    if i == 35 {
        2
    } else
    if i == 51 {
        35
    } else
    if i == 52 {
        32
    } else
    if i == 53 {
        29
    } else
    {
        i
    }
}

pub open spec fn back_ccw_touched(i: int) -> bool {
    i == 36 || i == 37 || i == 38 || i == 39 || i == 41 || i == 42 || i == 43 || i == 44 || i == 0 || i == 1 || i == 2 || i == 9 || i == 12 || i == 15 || i == 29 || i == 32 || i == 35 || i == 51 || i == 52 || i == 53
}

#[verifier::rlimit(100)]
#[verifier::spinoff_prover]
fn turn_back_ccw(f: &mut Vec<Face>)
    requires
        old(f)@.len() == 54,
    ensures
        final(f)@.len() == 54,
        final(f)@[36] == old(f)@[38],
        final(f)@[37] == old(f)@[41],
        final(f)@[38] == old(f)@[44],
        final(f)@[39] == old(f)@[37],
        final(f)@[41] == old(f)@[43],
        final(f)@[42] == old(f)@[36],
        final(f)@[43] == old(f)@[39],
        final(f)@[44] == old(f)@[42],
        final(f)@[0] == old(f)@[15],
        final(f)@[1] == old(f)@[12],
        final(f)@[2] == old(f)@[9],
        final(f)@[9] == old(f)@[51],
        final(f)@[12] == old(f)@[52],
        final(f)@[15] == old(f)@[53],
        final(f)@[29] == old(f)@[0],
        final(f)@[32] == old(f)@[1],
        final(f)@[35] == old(f)@[2],
        final(f)@[51] == old(f)@[35],
        final(f)@[52] == old(f)@[32],
        final(f)@[53] == old(f)@[29],
        forall|i: int| 0 <= i < 54 && !back_ccw_touched(i) ==> final(f)@[i] == old(f)@[i],
{
    let s0 = f[38];
    let s1 = f[41];
    let s2 = f[44];
    let s3 = f[37];
    let s4 = f[43];
    let s5 = f[36];
    let s6 = f[39];
    let s7 = f[42];
    let s8 = f[15];
    let s9 = f[12];
    let s10 = f[9];
    let s11 = f[51];
    let s12 = f[52];
    let s13 = f[53];
    let s14 = f[0];
    let s15 = f[1];
    let s16 = f[2];
    let s17 = f[35];
    let s18 = f[32];
    let s19 = f[29];
    f.set(36, s0);
    f.set(37, s1);
    f.set(38, s2);
    f.set(39, s3);
    f.set(41, s4);
    f.set(42, s5);
    f.set(43, s6);
    f.set(44, s7);
    f.set(0, s8);
    f.set(1, s9);
    f.set(2, s10);
    f.set(9, s11);
    f.set(12, s12);
    f.set(15, s13);
    f.set(29, s14);
    f.set(32, s15);
    f.set(35, s16);
    f.set(51, s17);
    f.set(52, s18);
    f.set(53, s19);
}

pub open spec fn back_two_src(i: int) -> int {
    if i == 36 {
        44
    } else
    if i == 37 {
        43
    } else
    if i == 38 {
        42
    } else
    if i == 39 {
        41
    } else
    if i == 41 {
        39
    } else
    if i == 42 {
        38
    } else
    if i == 43 {
        37
    } else
    if i == 44 {
        36
    } else
    if i == 0 {
        53
    } else
    if i == 1 {
        52
    } else
    if i == 2 {
        51
    } else
    if i == 9 {
        35
    } else
    if i == 12 {
        32
    } else
    if i == 15 {
        29
    } else
    if i == 29 {
        15
    } else
    if i == 32 {
        12
    } else
    if i == 35 {
        9
    } else
    if i == 51 {
        2
    } else
    if i == 52 {
        1
    } else
    if i == 53 {
        0
    } else
    {
        i
    }
}

pub open spec fn back_two_touched(i: int) -> bool {
    i == 36 || i == 37 || i == 38 || i == 39 || i == 41 || i == 42 || i == 43 || i == 44 || i == 0 || i == 1 || i == 2 || i == 9 || i == 12 || i == 15 || i == 29 || i == 32 || i == 35 || i == 51 || i == 52 || i == 53
}

#[verifier::rlimit(100)]
#[verifier::spinoff_prover]
fn turn_back_two(f: &mut Vec<Face>)
    requires
        old(f)@.len() == 54,
    ensures
        final(f)@.len() == 54,
        final(f)@[36] == old(f)@[44],
        final(f)@[37] == old(f)@[43],
        final(f)@[38] == old(f)@[42],
        final(f)@[39] == old(f)@[41],
        final(f)@[41] == old(f)@[39],
        final(f)@[42] == old(f)@[38],
        final(f)@[43] == old(f)@[37],
        final(f)@[44] == old(f)@[36],
        final(f)@[0] == old(f)@[53],
        final(f)@[1] == old(f)@[52],
        final(f)@[2] == old(f)@[51],
        final(f)@[9] == old(f)@[35],
        final(f)@[12] == old(f)@[32],
        final(f)@[15] == old(f)@[29],
        final(f)@[29] == old(f)@[15],
        final(f)@[32] == old(f)@[12],
        final(f)@[35] == old(f)@[9],
        final(f)@[51] == old(f)@[2],
        final(f)@[52] == old(f)@[1],
        final(f)@[53] == old(f)@[0],
        forall|i: int| 0 <= i < 54 && !back_two_touched(i) ==> final(f)@[i] == old(f)@[i],
{
    let s0 = f[44];
    let s1 = f[43];
    let s2 = f[42];
    let s3 = f[41];
    let s4 = f[39];
    let s5 = f[38];
    let s6 = f[37];
    let s7 = f[36];
    let s8 = f[53];
    let s9 = f[52];
    let s10 = f[51];
    let s11 = f[35];
    let s12 = f[32];
    let s13 = f[29];
    let s14 = f[15];
    let s15 = f[12];
    let s16 = f[9];
    let s17 = f[2];
    let s18 = f[1];
    let s19 = f[0];
    f.set(36, s0);
    f.set(37, s1);
    f.set(38, s2);
    f.set(39, s3);
    f.set(41, s4);
    f.set(42, s5);
    f.set(43, s6);
    f.set(44, s7);
    f.set(0, s8);
    f.set(1, s9);
    f.set(2, s10);
    f.set(9, s11);
    f.set(12, s12);
    f.set(15, s13);
    f.set(29, s14);
    f.set(32, s15);
    f.set(35, s16);
    f.set(51, s17);
    f.set(52, s18);
    f.set(53, s19);
}

pub open spec fn right_cw_src(i: int) -> int {
    if i == 27 {
        33
    } else
    if i == 28 {
        30
    } else
    if i == 29 {
        27
    } else
    if i == 30 {
        34
    } else
    if i == 32 {
        28
    } else
    if i == 33 {
        35
    } else
    if i == 34 {
        32
    } else
    if i == 35 {
        29
    } else
    if i == 2 {
        20
    } else
    if i == 5 {
        23
    } else
    if i == 8 {
        26
    } else
    if i == 20 {
        47
    } else
    if i == 23 {
        50
    } else
    if i == 26 {
        53
    } else
    if i == 36 {
        8
    } else
    if i == 39 {
        5
    } else
    if i == 42 {
        2
    } else
    if i == 47 {
        42
    } else
    if i == 50 {
        39
    } else
    if i == 53 {
        36
    } else
    {
        i
    }
}

pub open spec fn right_cw_touched(i: int) -> bool {
    i == 27 || i == 28 || i == 29 || i == 30 || i == 32 || i == 33 || i == 34 || i == 35 || i == 2 || i == 5 || i == 8 || i == 20 || i == 23 || i == 26 || i == 36 || i == 39 || i == 42 || i == 47 || i == 50 || i == 53
}

#[verifier::rlimit(100)]
#[verifier::spinoff_prover]
fn turn_right_cw(f: &mut Vec<Face>)
    requires
        old(f)@.len() == 54,
    ensures
        final(f)@.len() == 54,
        final(f)@[27] == old(f)@[33],
        final(f)@[28] == old(f)@[30],
        final(f)@[29] == old(f)@[27],
        final(f)@[30] == old(f)@[34],
        final(f)@[32] == old(f)@[28],
        final(f)@[33] == old(f)@[35],
        final(f)@[34] == old(f)@[32],
        final(f)@[35] == old(f)@[29],
        final(f)@[2] == old(f)@[20],
        final(f)@[5] == old(f)@[23],
        final(f)@[8] == old(f)@[26],
        final(f)@[20] == old(f)@[47],
        final(f)@[23] == old(f)@[50],
        final(f)@[26] == old(f)@[53],
        final(f)@[36] == old(f)@[8],
        final(f)@[39] == old(f)@[5],
        final(f)@[42] == old(f)@[2],
        final(f)@[47] == old(f)@[42],
        final(f)@[50] == old(f)@[39],
        final(f)@[53] == old(f)@[36],
        forall|i: int| 0 <= i < 54 && !right_cw_touched(i) ==> final(f)@[i] == old(f)@[i],
{
    let s0 = f[33];
    let s1 = f[30];
    let s2 = f[27];
    let s3 = f[34];
    let s4 = f[28];
    let s5 = f[35];
    let s6 = f[32];
    let s7 = f[29];
    let s8 = f[20];
    let s9 = f[23];
    let s10 = f[26];
    let s11 = f[47];
    let s12 = f[50];
    let s13 = f[53];
    let s14 = f[8];
    let s15 = f[5];
    let s16 = f[2];
    let s17 = f[42];
    let s18 = f[39];
    let s19 = f[36];
    f.set(27, s0);
    f.set(28, s1);
    f.set(29, s2);
    f.set(30, s3);
    f.set(32, s4);
    f.set(33, s5);
    f.set(34, s6);
    f.set(35, s7);
    f.set(2, s8);
    f.set(5, s9);
    f.set(8, s10);
    f.set(20, s11);
    f.set(23, s12);
    f.set(26, s13);
    f.set(36, s14);
    f.set(39, s15);
    f.set(42, s16);
    f.set(47, s17);
    f.set(50, s18);
    f.set(53, s19);
}

pub open spec fn right_ccw_src(i: int) -> int {
    if i == 27 {
        29
    } else
    if i == 28 {
        32
    } else
    if i == 29 {
        35
    } else
    if i == 30 {
        28
    } else
    if i == 32 {
        34
    } else
    if i == 33 {
        27
    } else
    if i == 34 {
        30
    } else
    if i == 35 {
        33
    } else
    if i == 2 {
        42
    } else
    if i == 5 {
        39
    } else
    if i == 8 {
        36
    } else
    if i == 20 {
        2
    } else
    if i == 23 {
        5
    } else
    if i == 26 {
        8
    } else
    if i == 36 {
        53
    } else
    if i == 39 {
        50
    } else
    if i == 42 {
        47
    } else
    if i == 47 {
        20
    } else
    if i == 50 {
        23
    } else
    if i == 53 {
        26
    } else
    {
        i
    }
}

pub open spec fn right_ccw_touched(i: int) -> bool {
    i == 27 || i == 28 || i == 29 || i == 30 || i == 32 || i == 33 || i == 34 || i == 35 || i == 2 || i == 5 || i == 8 || i == 20 || i == 23 || i == 26 || i == 36 || i == 39 || i == 42 || i == 47 || i == 50 || i == 53
}

#[verifier::rlimit(100)]
#[verifier::spinoff_prover]
fn turn_right_ccw(f: &mut Vec<Face>)
    requires
        old(f)@.len() == 54,
    ensures
        final(f)@.len() == 54,
        final(f)@[27] == old(f)@[29],
        final(f)@[28] == old(f)@[32],
        final(f)@[29] == old(f)@[35],
        final(f)@[30] == old(f)@[28],
        final(f)@[32] == old(f)@[34],
        final(f)@[33] == old(f)@[27],
        final(f)@[34] == old(f)@[30],
        final(f)@[35] == old(f)@[33],
        final(f)@[2] == old(f)@[42],
        final(f)@[5] == old(f)@[39],
        final(f)@[8] == old(f)@[36],
        final(f)@[20] == old(f)@[2],
        final(f)@[23] == old(f)@[5],
        final(f)@[26] == old(f)@[8],
        final(f)@[36] == old(f)@[53],
        final(f)@[39] == old(f)@[50],
        final(f)@[42] == old(f)@[47],
        final(f)@[47] == old(f)@[20],
        final(f)@[50] == old(f)@[23],
        final(f)@[53] == old(f)@[26],
        forall|i: int| 0 <= i < 54 && !right_ccw_touched(i) ==> final(f)@[i] == old(f)@[i],
{
    let s0 = f[29];
    let s1 = f[32];
    let s2 = f[35];
    let s3 = f[28];
    let s4 = f[34];
    let s5 = f[27];
    let s6 = f[30];
    let s7 = f[33];
    let s8 = f[42];
    let s9 = f[39];
    let s10 = f[36];
    let s11 = f[2];
    let s12 = f[5];
    let s13 = f[8];
    let s14 = f[53];
    let s15 = f[50];
    let s16 = f[47];
    let s17 = f[20];
    let s18 = f[23];
    let s19 = f[26];
    f.set(27, s0);
    f.set(28, s1);
    f.set(29, s2);
    f.set(30, s3);
    f.set(32, s4);
    f.set(33, s5);
    f.set(34, s6);
    f.set(35, s7);
    f.set(2, s8);
    f.set(5, s9);
    f.set(8, s10);
    f.set(20, s11);
    f.set(23, s12);
    f.set(26, s13);
    f.set(36, s14);
    f.set(39, s15);
    f.set(42, s16);
    f.set(47, s17);
    f.set(50, s18);
    f.set(53, s19);
}

pub open spec fn right_two_src(i: int) -> int {
    if i == 27 {
        35
    } else
    if i == 28 {
        34
    } else
    if i == 29 {
        33
    } else
    if i == 30 {
        32
    } else
    if i == 32 {
        30
    } else
    if i == 33 {
        29
    } else
    if i == 34 {
        28
    } else
    if i == 35 {
        27
    } else
    if i == 2 {
        47
    } else
    if i == 5 {
        50
    } else
    if i == 8 {
        53
    } else
    if i == 20 {
        42
    } else
    if i == 23 {
        39
    } else
    if i == 26 {
        36
    } else
    if i == 36 {
        26
    } else
    if i == 39 {
        23
    } else
    if i == 42 {
        20
    } else
    if i == 47 {
        2
    } else
    if i == 50 {
        5
    } else
    if i == 53 {
        8
    } else
    {
        i
    }
}

pub open spec fn right_two_touched(i: int) -> bool {
    i == 27 || i == 28 || i == 29 || i == 30 || i == 32 || i == 33 || i == 34 || i == 35 || i == 2 || i == 5 || i == 8 || i == 20 || i == 23 || i == 26 || i == 36 || i == 39 || i == 42 || i == 47 || i == 50 || i == 53
}

#[verifier::rlimit(100)]
#[verifier::spinoff_prover]
fn turn_right_two(f: &mut Vec<Face>)
    requires
        old(f)@.len() == 54,
    ensures
        final(f)@.len() == 54,
        final(f)@[27] == old(f)@[35],
        final(f)@[28] == old(f)@[34],
        final(f)@[29] == old(f)@[33],
        final(f)@[30] == old(f)@[32],
        final(f)@[32] == old(f)@[30],
        final(f)@[33] == old(f)@[29],
        final(f)@[34] == old(f)@[28],
        final(f)@[35] == old(f)@[27],
        final(f)@[2] == old(f)@[47],
        final(f)@[5] == old(f)@[50],
        final(f)@[8] == old(f)@[53],
        final(f)@[20] == old(f)@[42],
        final(f)@[23] == old(f)@[39],
        final(f)@[26] == old(f)@[36],
        final(f)@[36] == old(f)@[26],
        final(f)@[39] == old(f)@[23],
        final(f)@[42] == old(f)@[20],
        final(f)@[47] == old(f)@[2],
        final(f)@[50] == old(f)@[5],
        final(f)@[53] == old(f)@[8],
        forall|i: int| 0 <= i < 54 && !right_two_touched(i) ==> final(f)@[i] == old(f)@[i],
{
    let s0 = f[35];
    let s1 = f[34];
    let s2 = f[33];
    let s3 = f[32];
    let s4 = f[30];
    let s5 = f[29];
    let s6 = f[28];
    let s7 = f[27];
    let s8 = f[47];
    let s9 = f[50];
    let s10 = f[53];
    let s11 = f[42];
    let s12 = f[39];
    let s13 = f[36];
    let s14 = f[26];
    let s15 = f[23];
    let s16 = f[20];
    let s17 = f[2];
    let s18 = f[5];
    let s19 = f[8];
    f.set(27, s0);
    f.set(28, s1);
    f.set(29, s2);
    f.set(30, s3);
    f.set(32, s4);
    f.set(33, s5);
    f.set(34, s6);
    f.set(35, s7);
    f.set(2, s8);
    f.set(5, s9);
    f.set(8, s10);
    f.set(20, s11);
    f.set(23, s12);
    f.set(26, s13);
    f.set(36, s14);
    f.set(39, s15);
    f.set(42, s16);
    f.set(47, s17);
    f.set(50, s18);
    f.set(53, s19);
}

pub open spec fn left_cw_src(i: int) -> int {
    if i == 9 {
        15
    } else
    if i == 10 {
        12
    } else
    if i == 11 {
        9
    } else
    if i == 12 {
        16
    } else
    if i == 14 {
        10
    } else
    if i == 15 {
        17
    } else
    if i == 16 {
        14
    } else
    if i == 17 {
        11
    } else
    if i == 0 {
        44
    } else
    if i == 3 {
        41
    } else
    if i == 6 {
        38
    } else
    if i == 18 {
        0
    } else
    if i == 21 {
        3
    } else
    if i == 24 {
        6
    } else
    if i == 38 {
        51
    } else
    if i == 41 {
        48
    } else
    if i == 44 {
        45
    } else
    if i == 45 {
        18
    } else
    if i == 48 {
        21
    } else
    if i == 51 {
        24
    } else
    {
        i
    }
}

pub open spec fn left_cw_touched(i: int) -> bool {
    i == 9 || i == 10 || i == 11 || i == 12 || i == 14 || i == 15 || i == 16 || i == 17 || i == 0 || i == 3 || i == 6 || i == 18 || i == 21 || i == 24 || i == 38 || i == 41 || i == 44 || i == 45 || i == 48 || i == 51
}

#[verifier::rlimit(100)]
#[verifier::spinoff_prover]
fn turn_left_cw(f: &mut Vec<Face>)
    requires
        old(f)@.len() == 54,
    ensures
        final(f)@.len() == 54,
        final(f)@[9] == old(f)@[15],
        final(f)@[10] == old(f)@[12],
        final(f)@[11] == old(f)@[9],
        final(f)@[12] == old(f)@[16],
        final(f)@[14] == old(f)@[10],
        final(f)@[15] == old(f)@[17],
        final(f)@[16] == old(f)@[14],
        final(f)@[17] == old(f)@[11],
        final(f)@[0] == old(f)@[44],
        final(f)@[3] == old(f)@[41],
        final(f)@[6] == old(f)@[38],
        final(f)@[18] == old(f)@[0],
        final(f)@[21] == old(f)@[3],
        final(f)@[24] == old(f)@[6],
        final(f)@[38] == old(f)@[51],
        final(f)@[41] == old(f)@[48],
        final(f)@[44] == old(f)@[45],
        final(f)@[45] == old(f)@[18],
        final(f)@[48] == old(f)@[21],
        final(f)@[51] == old(f)@[24],
        forall|i: int| 0 <= i < 54 && !left_cw_touched(i) ==> final(f)@[i] == old(f)@[i],
{
    let s0 = f[15];
    let s1 = f[12];
    let s2 = f[9];
    let s3 = f[16];
    let s4 = f[10];
    let s5 = f[17];
    let s6 = f[14];
    let s7 = f[11];
    let s8 = f[44];
    let s9 = f[41];
    let s10 = f[38];
    let s11 = f[0];
    let s12 = f[3];
    let s13 = f[6];
    let s14 = f[51];
    let s15 = f[48];
    let s16 = f[45];
    let s17 = f[18];
    let s18 = f[21];
    let s19 = f[24];
    f.set(9, s0);
    f.set(10, s1);
    f.set(11, s2);
    f.set(12, s3);
    f.set(14, s4);
    f.set(15, s5);
    f.set(16, s6);
    f.set(17, s7);
    f.set(0, s8);
    f.set(3, s9);
    f.set(6, s10);
    f.set(18, s11);
    f.set(21, s12);
    f.set(24, s13);
    f.set(38, s14);
    f.set(41, s15);
    f.set(44, s16);
    f.set(45, s17);
    f.set(48, s18);
    f.set(51, s19);
}

pub open spec fn left_ccw_src(i: int) -> int {
    if i == 9 {
        11
    } else
    if i == 10 {
        14
    } else
    if i == 11 {
        17
    } else
    if i == 12 {
        10
    } else
    if i == 14 {
        16
    } else
    if i == 15 {
        9
    } else
    if i == 16 {
        12
    } else
    if i == 17 {
        15
    } else
    if i == 0 {
        18
    } else
    if i == 3 {
        21
    } else
    if i == 6 {
        24
    } else
    if i == 18 {
        45
    } else
    if i == 21 {
        48
    } else
    if i == 24 {
        51
    } else
    if i == 38 {
        6
    } else
    if i == 41 {
        3
    } else
    if i == 44 {
        0
    } else
    if i == 45 {
        44
    } else
    if i == 48 {
        41
    } else
    if i == 51 {
        38
    } else
    {
        i
    }
}

pub open spec fn left_ccw_touched(i: int) -> bool {
    i == 9 || i == 10 || i == 11 || i == 12 || i == 14 || i == 15 || i == 16 || i == 17 || i == 0 || i == 3 || i == 6 || i == 18 || i == 21 || i == 24 || i == 38 || i == 41 || i == 44 || i == 45 || i == 48 || i == 51
}

#[verifier::rlimit(100)]
#[verifier::spinoff_prover]
fn turn_left_ccw(f: &mut Vec<Face>)
    requires
        old(f)@.len() == 54,
    ensures
        final(f)@.len() == 54,
        final(f)@[9] == old(f)@[11],
        final(f)@[10] == old(f)@[14],
        final(f)@[11] == old(f)@[17],
        final(f)@[12] == old(f)@[10],
        final(f)@[14] == old(f)@[16],
        final(f)@[15] == old(f)@[9],
        final(f)@[16] == old(f)@[12],
        final(f)@[17] == old(f)@[15],
        final(f)@[0] == old(f)@[18],
        final(f)@[3] == old(f)@[21],
        final(f)@[6] == old(f)@[24],
        final(f)@[18] == old(f)@[45],
        final(f)@[21] == old(f)@[48],
        final(f)@[24] == old(f)@[51],
        final(f)@[38] == old(f)@[6],
        final(f)@[41] == old(f)@[3],
        final(f)@[44] == old(f)@[0],
        final(f)@[45] == old(f)@[44],
        final(f)@[48] == old(f)@[41],
        final(f)@[51] == old(f)@[38],
        forall|i: int| 0 <= i < 54 && !left_ccw_touched(i) ==> final(f)@[i] == old(f)@[i],
{
    let s0 = f[11];
    let s1 = f[14];
    let s2 = f[17];
    let s3 = f[10];
    let s4 = f[16];
    let s5 = f[9];
    let s6 = f[12];
    let s7 = f[15];
    let s8 = f[18];
    let s9 = f[21];
    let s10 = f[24];
    let s11 = f[45];
    let s12 = f[48];
    let s13 = f[51];
    let s14 = f[6];
    let s15 = f[3];
    let s16 = f[0];
    let s17 = f[44];
    let s18 = f[41];
    let s19 = f[38];
    f.set(9, s0);
    f.set(10, s1);
    f.set(11, s2);
    f.set(12, s3);
    f.set(14, s4);
    f.set(15, s5);
    f.set(16, s6);
    f.set(17, s7);
    f.set(0, s8);
    f.set(3, s9);
    f.set(6, s10);
    f.set(18, s11);
    f.set(21, s12);
    f.set(24, s13);
    f.set(38, s14);
    f.set(41, s15);
    f.set(44, s16);
    f.set(45, s17);
    f.set(48, s18);
    f.set(51, s19);
}

pub open spec fn left_two_src(i: int) -> int {
    if i == 9 {
        17
    } else
    if i == 10 {
        16
    } else
    if i == 11 {
        15
    } else
    if i == 12 {
        14
    } else
    if i == 14 {
        12
    } else
    if i == 15 {
        11
    } else
    if i == 16 {
        10
    } else
    if i == 17 {
        9
    } else
    if i == 0 {
        45
    } else
    if i == 3 {
        48
    } else
    if i == 6 {
        51
    } else
    if i == 18 {
        44
    } else
    if i == 21 {
        41
    } else
    if i == 24 {
        38
    } else
    if i == 38 {
        24
    } else
    if i == 41 {
        21
    } else
    if i == 44 {
        18
    } else
    if i == 45 {
        0
    } else
    if i == 48 {
        3
    } else
    if i == 51 {
        6
    } else
    {
        i
    }
}

pub open spec fn left_two_touched(i: int) -> bool {
    i == 9 || i == 10 || i == 11 || i == 12 || i == 14 || i == 15 || i == 16 || i == 17 || i == 0 || i == 3 || i == 6 || i == 18 || i == 21 || i == 24 || i == 38 || i == 41 || i == 44 || i == 45 || i == 48 || i == 51
}

#[verifier::rlimit(100)]
#[verifier::spinoff_prover]
fn turn_left_two(f: &mut Vec<Face>)
    requires
        old(f)@.len() == 54,
    ensures
        final(f)@.len() == 54,
        final(f)@[9] == old(f)@[17],
        final(f)@[10] == old(f)@[16],
        final(f)@[11] == old(f)@[15],
        final(f)@[12] == old(f)@[14],
        final(f)@[14] == old(f)@[12],
        final(f)@[15] == old(f)@[11],
        final(f)@[16] == old(f)@[10],
        final(f)@[17] == old(f)@[9],
        final(f)@[0] == old(f)@[45],
        final(f)@[3] == old(f)@[48],
        final(f)@[6] == old(f)@[51],
        final(f)@[18] == old(f)@[44],
        final(f)@[21] == old(f)@[41],
        final(f)@[24] == old(f)@[38],
        final(f)@[38] == old(f)@[24],
        final(f)@[41] == old(f)@[21],
        final(f)@[44] == old(f)@[18],
        final(f)@[45] == old(f)@[0],
        final(f)@[48] == old(f)@[3],
        final(f)@[51] == old(f)@[6],
        forall|i: int| 0 <= i < 54 && !left_two_touched(i) ==> final(f)@[i] == old(f)@[i],
{
    let s0 = f[17];
    let s1 = f[16];
    let s2 = f[15];
    let s3 = f[14];
    let s4 = f[12];
    let s5 = f[11];
    let s6 = f[10];
    let s7 = f[9];
    let s8 = f[45];
    let s9 = f[48];
    let s10 = f[51];
    let s11 = f[44];
    let s12 = f[41];
    let s13 = f[38];
    let s14 = f[24];
    let s15 = f[21];
    let s16 = f[18];
    let s17 = f[0];
    let s18 = f[3];
    let s19 = f[6];
    f.set(9, s0);
    f.set(10, s1);
    f.set(11, s2);
    f.set(12, s3);
    f.set(14, s4);
    f.set(15, s5);
    f.set(16, s6);
    f.set(17, s7);
    f.set(0, s8);
    f.set(3, s9);
    f.set(6, s10);
    f.set(18, s11);
    f.set(21, s12);
    f.set(24, s13);
    f.set(38, s14);
    f.set(41, s15);
    f.set(44, s16);
    f.set(45, s17);
    f.set(48, s18);
    f.set(51, s19);
}

/// The facelet position that position `i` takes its facelet from when
/// move `m` is applied; positions the move does not touch keep their own.
pub open spec fn move_source(m: Move, i: int) -> int {
    match (m.face, m.rotation) {
        (Face::Up, Rotation::Clockwise) => up_cw_src(i),
        (Face::Up, Rotation::CounterClockwise) => up_ccw_src(i),
        (Face::Up, Rotation::DoubleTurn) => up_two_src(i),
        (Face::Down, Rotation::Clockwise) => down_cw_src(i),
        (Face::Down, Rotation::CounterClockwise) => down_ccw_src(i),
        (Face::Down, Rotation::DoubleTurn) => down_two_src(i),
        (Face::Front, Rotation::Clockwise) => front_cw_src(i),
        (Face::Front, Rotation::CounterClockwise) => front_ccw_src(i),
        (Face::Front, Rotation::DoubleTurn) => front_two_src(i),
        (Face::Back, Rotation::Clockwise) => back_cw_src(i),
        (Face::Back, Rotation::CounterClockwise) => back_ccw_src(i),
        (Face::Back, Rotation::DoubleTurn) => back_two_src(i),
        (Face::Right, Rotation::Clockwise) => right_cw_src(i),
        (Face::Right, Rotation::CounterClockwise) => right_ccw_src(i),
        (Face::Right, Rotation::DoubleTurn) => right_two_src(i),
        (Face::Left, Rotation::Clockwise) => left_cw_src(i),
        (Face::Left, Rotation::CounterClockwise) => left_ccw_src(i),
        (Face::Left, Rotation::DoubleTurn) => left_two_src(i),
    }
}

/// The 3x3 puzzle the scramble preview shows: 54 facelets, nine per face,
/// in the fixed Up, Left, Front, Right, Back, Down order.
#[derive(Debug)]
pub struct Cube {
    pub facelets: Vec<Face>,
}

impl Cube {
    pub open spec fn wf(&self) -> bool {
        self.facelets@.len() == 54
    }

    /// A solved puzzle.
    pub fn new() -> (r: Self)
        ensures
            r.wf(),
            forall|i: int| 0 <= i < 54 ==> r.facelets@[i] == solved_face(i),
    {
        let mut facelets = Vec::new();
        let mut i: usize = 0;
        while i < 54
            invariant
                facelets@.len() == i,
                0 <= i <= 54,
                forall|k: int| 0 <= k < i ==> facelets@[k] == solved_face(k),
            decreases 54 - i,
        {
            let face = if i < 9 {
                Face::Up
            } else if i < 18 {
                Face::Left
            } else if i < 27 {
                Face::Front
            } else if i < 36 {
                Face::Right
            } else if i < 45 {
                Face::Back
            } else {
                Face::Down
            };
            facelets.push(face);
            i = i + 1;
        }
        Self { facelets }
    }

    /// Turn one face: every facelet position takes the facelet of the
    /// position that `move_source` names for this move.
    pub fn apply_move(&mut self, mv: &Move)
        requires
            old(self).wf(),
        ensures
            final(self).wf(),
            forall|i: int|
                0 <= i < 54 ==> final(self).facelets@[i] == old(self).facelets@[move_source(
                    *mv,
                    i,
                )],
    {
        match (mv.face, mv.rotation) {
            (Face::Up, Rotation::Clockwise) => {
                turn_up_cw(&mut self.facelets);
                proof {
                    assert forall|i: int| 0 <= i < 54 implies self.facelets@[i]
                        == old(self).facelets@[up_cw_src(i)] by {
                        if i == 0 {
                        } else if i == 1 {
                        } else if i == 2 {
                        } else if i == 3 {
                        } else if i == 5 {
                        } else if i == 6 {
                        } else if i == 7 {
                        } else if i == 8 {
                        } else if i == 9 {
                        } else if i == 10 {
                        } else if i == 11 {
                        } else if i == 18 {
                        } else if i == 19 {
                        } else if i == 20 {
                        } else if i == 27 {
                        } else if i == 28 {
                        } else if i == 29 {
                        } else if i == 36 {
                        } else if i == 37 {
                        } else if i == 38 {
                        } else {
                            assert(!up_cw_touched(i));
                        }
                    }
                }
            },
            (Face::Up, Rotation::CounterClockwise) => {
                turn_up_ccw(&mut self.facelets);
                proof {
                    assert forall|i: int| 0 <= i < 54 implies self.facelets@[i]
                        == old(self).facelets@[up_ccw_src(i)] by {
                        if i == 0 {
                        } else if i == 1 {
                        } else if i == 2 {
                        } else if i == 3 {
                        } else if i == 5 {
                        } else if i == 6 {
                        } else if i == 7 {
                        } else if i == 8 {
                        } else if i == 9 {
                        } else if i == 10 {
                        } else if i == 11 {
                        } else if i == 18 {
                        } else if i == 19 {
                        } else if i == 20 {
                        } else if i == 27 {
                        } else if i == 28 {
                        } else if i == 29 {
                        } else if i == 36 {
                        } else if i == 37 {
                        } else if i == 38 {
                        } else {
                            assert(!up_ccw_touched(i));
                        }
                    }
                }
            },
            (Face::Up, Rotation::DoubleTurn) => {
                turn_up_two(&mut self.facelets);
                proof {
                    assert forall|i: int| 0 <= i < 54 implies self.facelets@[i]
                        == old(self).facelets@[up_two_src(i)] by {
                        if i == 0 {
                        } else if i == 1 {
                        } else if i == 2 {
                        } else if i == 3 {
                        } else if i == 5 {
                        } else if i == 6 {
                        } else if i == 7 {
                        } else if i == 8 {
                        } else if i == 9 {
                        } else if i == 10 {
                        } else if i == 11 {
                        } else if i == 18 {
                        } else if i == 19 {
                        } else if i == 20 {
                        } else if i == 27 {
                        } else if i == 28 {
                        } else if i == 29 {
                        } else if i == 36 {
                        } else if i == 37 {
                        } else if i == 38 {
                        } else {
                            assert(!up_two_touched(i));
                        }
                    }
                }
            },
            (Face::Down, Rotation::Clockwise) => {
                turn_down_cw(&mut self.facelets);
                proof {
                    assert forall|i: int| 0 <= i < 54 implies self.facelets@[i]
                        == old(self).facelets@[down_cw_src(i)] by {
                        if i == 45 {
                        } else if i == 46 {
                        } else if i == 47 {
                        } else if i == 48 {
                        } else if i == 50 {
                        } else if i == 51 {
                        } else if i == 52 {
                        } else if i == 53 {
                        } else if i == 15 {
                        } else if i == 16 {
                        } else if i == 17 {
                        } else if i == 24 {
                        } else if i == 25 {
                        } else if i == 26 {
                        } else if i == 33 {
                        } else if i == 34 {
                        } else if i == 35 {
                        } else if i == 42 {
                        } else if i == 43 {
                        } else if i == 44 {
                        } else {
                            assert(!down_cw_touched(i));
                        }
                    }
                }
            },
            (Face::Down, Rotation::CounterClockwise) => {
                turn_down_ccw(&mut self.facelets);
                proof {
                    assert forall|i: int| 0 <= i < 54 implies self.facelets@[i]
                        == old(self).facelets@[down_ccw_src(i)] by {
                        if i == 45 {
                        } else if i == 46 {
                        } else if i == 47 {
                        } else if i == 48 {
                        } else if i == 50 {
                        } else if i == 51 {
                        } else if i == 52 {
                        } else if i == 53 {
                        } else if i == 15 {
                        } else if i == 16 {
                        } else if i == 17 {
                        } else if i == 24 {
                        } else if i == 25 {
                        } else if i == 26 {
                        } else if i == 33 {
                        } else if i == 34 {
                        } else if i == 35 {
                        } else if i == 42 {
                        } else if i == 43 {
                        } else if i == 44 {
                        } else {
                            assert(!down_ccw_touched(i));
                        }
                    }
                }
            },
            (Face::Down, Rotation::DoubleTurn) => {
                turn_down_two(&mut self.facelets);
                proof {
                    assert forall|i: int| 0 <= i < 54 implies self.facelets@[i]
                        == old(self).facelets@[down_two_src(i)] by {
                        if i == 45 {
                        } else if i == 46 {
                        } else if i == 47 {
                        } else if i == 48 {
                        } else if i == 50 {
                        } else if i == 51 {
                        } else if i == 52 {
                        } else if i == 53 {
                        } else if i == 15 {
                        } else if i == 16 {
                        } else if i == 17 {
                        } else if i == 24 {
                        } else if i == 25 {
                        } else if i == 26 {
                        } else if i == 33 {
                        } else if i == 34 {
                        } else if i == 35 {
                        } else if i == 42 {
                        } else if i == 43 {
                        } else if i == 44 {
                        } else {
                            assert(!down_two_touched(i));
                        }
                    }
                }
            },
            (Face::Front, Rotation::Clockwise) => {
                turn_front_cw(&mut self.facelets);
                proof {
                    assert forall|i: int| 0 <= i < 54 implies self.facelets@[i]
                        == old(self).facelets@[front_cw_src(i)] by {
                        if i == 18 {
                        } else if i == 19 {
                        } else if i == 20 {
                        } else if i == 21 {
                        } else if i == 23 {
                        } else if i == 24 {
                        } else if i == 25 {
                        } else if i == 26 {
                        } else if i == 6 {
                        } else if i == 7 {
                        } else if i == 8 {
                        } else if i == 11 {
                        } else if i == 14 {
                        } else if i == 17 {
                        } else if i == 27 {
                        } else if i == 30 {
                        } else if i == 33 {
                        } else if i == 45 {
                        } else if i == 46 {
                        } else if i == 47 {
                        } else {
                            assert(!front_cw_touched(i));
                        }
                    }
                }
            },
            (Face::Front, Rotation::CounterClockwise) => {
                turn_front_ccw(&mut self.facelets);
                proof {
                    assert forall|i: int| 0 <= i < 54 implies self.facelets@[i]
                        == old(self).facelets@[front_ccw_src(i)] by {
                        if i == 18 {
                        } else if i == 19 {
                        } else if i == 20 {
                        } else if i == 21 {
                        } else if i == 23 {
                        } else if i == 24 {
                        } else if i == 25 {
                        } else if i == 26 {
                        } else if i == 6 {
                        } else if i == 7 {
                        } else if i == 8 {
                        } else if i == 11 {
                        } else if i == 14 {
                        } else if i == 17 {
                        } else if i == 27 {
                        } else if i == 30 {
                        } else if i == 33 {
                        } else if i == 45 {
                        } else if i == 46 {
                        } else if i == 47 {
                        } else {
                            assert(!front_ccw_touched(i));
                        }
                    }
                }
            },
            (Face::Front, Rotation::DoubleTurn) => {
                turn_front_two(&mut self.facelets);
                proof {
                    assert forall|i: int| 0 <= i < 54 implies self.facelets@[i]
                        == old(self).facelets@[front_two_src(i)] by {
                        if i == 18 {
                        } else if i == 19 {
                        } else if i == 20 {
                        } else if i == 21 {
                        } else if i == 23 {
                        } else if i == 24 {
                        } else if i == 25 {
                        } else if i == 26 {
                        } else if i == 6 {
                        } else if i == 7 {
                        } else if i == 8 {
                        } else if i == 11 {
                        } else if i == 14 {
                        } else if i == 17 {
                        } else if i == 27 {
                        } else if i == 30 {
                        } else if i == 33 {
                        } else if i == 45 {
                        } else if i == 46 {
                        } else if i == 47 {
                        } else {
                            assert(!front_two_touched(i));
                        }
                    }
                }
            },
            (Face::Back, Rotation::Clockwise) => {
                turn_back_cw(&mut self.facelets);
                proof {
                    assert forall|i: int| 0 <= i < 54 implies self.facelets@[i]
                        == old(self).facelets@[back_cw_src(i)] by {
                        if i == 36 {
                        } else if i == 37 {
                        } else if i == 38 {
                        } else if i == 39 {
                        } else if i == 41 {
                        } else if i == 42 {
                        } else if i == 43 {
                        } else if i == 44 {
                        } else if i == 0 {
                        } else if i == 1 {
                        } else if i == 2 {
                        } else if i == 9 {
                        } else if i == 12 {
                        } else if i == 15 {
                        } else if i == 29 {
                        } else if i == 32 {
                        } else if i == 35 {
                        } else if i == 51 {
                        } else if i == 52 {
                        } else if i == 53 {
                        } else {
                            assert(!back_cw_touched(i));
                        }
                    }
                }
            },
            (Face::Back, Rotation::CounterClockwise) => {
                turn_back_ccw(&mut self.facelets);
                proof {
                    assert forall|i: int| 0 <= i < 54 implies self.facelets@[i]
                        == old(self).facelets@[back_ccw_src(i)] by {
                        if i == 36 {
                        } else if i == 37 {
                        } else if i == 38 {
                        } else if i == 39 {
                        } else if i == 41 {
                        } else if i == 42 {
                        } else if i == 43 {
                        } else if i == 44 {
                        } else if i == 0 {
                        } else if i == 1 {
                        } else if i == 2 {
                        } else if i == 9 {
                        } else if i == 12 {
                        } else if i == 15 {
                        } else if i == 29 {
                        } else if i == 32 {
                        } else if i == 35 {
                        } else if i == 51 {
                        } else if i == 52 {
                        } else if i == 53 {
                        } else {
                            assert(!back_ccw_touched(i));
                        }
                    }
                }
            },
            (Face::Back, Rotation::DoubleTurn) => {
                turn_back_two(&mut self.facelets);
                proof {
                    assert forall|i: int| 0 <= i < 54 implies self.facelets@[i]
                        == old(self).facelets@[back_two_src(i)] by {
                        if i == 36 {
                        } else if i == 37 {
                        } else if i == 38 {
                        } else if i == 39 {
                        } else if i == 41 {
                        } else if i == 42 {
                        } else if i == 43 {
                        } else if i == 44 {
                        } else if i == 0 {
                        } else if i == 1 {
                        } else if i == 2 {
                        } else if i == 9 {
                        } else if i == 12 {
                        } else if i == 15 {
                        } else if i == 29 {
                        } else if i == 32 {
                        } else if i == 35 {
                        } else if i == 51 {
                        } else if i == 52 {
                        } else if i == 53 {
                        } else {
                            assert(!back_two_touched(i));
                        }
                    }
                }
            },
            (Face::Right, Rotation::Clockwise) => {
                turn_right_cw(&mut self.facelets);
                proof {
                    assert forall|i: int| 0 <= i < 54 implies self.facelets@[i]
                        == old(self).facelets@[right_cw_src(i)] by {
                        if i == 27 {
                        } else if i == 28 {
                        } else if i == 29 {
                        } else if i == 30 {
                        } else if i == 32 {
                        } else if i == 33 {
                        } else if i == 34 {
                        } else if i == 35 {
                        } else if i == 2 {
                        } else if i == 5 {
                        } else if i == 8 {
                        } else if i == 20 {
                        } else if i == 23 {
                        } else if i == 26 {
                        } else if i == 36 {
                        } else if i == 39 {
                        } else if i == 42 {
                        } else if i == 47 {
                        } else if i == 50 {
                        } else if i == 53 {
                        } else {
                            assert(!right_cw_touched(i));
                        }
                    }
                }
            },
            (Face::Right, Rotation::CounterClockwise) => {
                turn_right_ccw(&mut self.facelets);
                proof {
                    assert forall|i: int| 0 <= i < 54 implies self.facelets@[i]
                        == old(self).facelets@[right_ccw_src(i)] by {
                        if i == 27 {
                        } else if i == 28 {
                        } else if i == 29 {
                        } else if i == 30 {
                        } else if i == 32 {
                        } else if i == 33 {
                        } else if i == 34 {
                        } else if i == 35 {
                        } else if i == 2 {
                        } else if i == 5 {
                        } else if i == 8 {
                        } else if i == 20 {
                        } else if i == 23 {
                        } else if i == 26 {
                        } else if i == 36 {
                        } else if i == 39 {
                        } else if i == 42 {
                        } else if i == 47 {
                        } else if i == 50 {
                        } else if i == 53 {
                        } else {
                            assert(!right_ccw_touched(i));
                        }
                    }
                }
            },
            (Face::Right, Rotation::DoubleTurn) => {
                turn_right_two(&mut self.facelets);
                proof {
                    assert forall|i: int| 0 <= i < 54 implies self.facelets@[i]
                        == old(self).facelets@[right_two_src(i)] by {
                        if i == 27 {
                        } else if i == 28 {
                        } else if i == 29 {
                        } else if i == 30 {
                        } else if i == 32 {
                        } else if i == 33 {
                        } else if i == 34 {
                        } else if i == 35 {
                        } else if i == 2 {
                        } else if i == 5 {
                        } else if i == 8 {
                        } else if i == 20 {
                        } else if i == 23 {
                        } else if i == 26 {
                        } else if i == 36 {
                        } else if i == 39 {
                        } else if i == 42 {
                        } else if i == 47 {
                        } else if i == 50 {
                        } else if i == 53 {
                        } else {
                            assert(!right_two_touched(i));
                        }
                    }
                }
            },
            (Face::Left, Rotation::Clockwise) => {
                turn_left_cw(&mut self.facelets);
                proof {
                    assert forall|i: int| 0 <= i < 54 implies self.facelets@[i]
                        == old(self).facelets@[left_cw_src(i)] by {
                        if i == 9 {
                        } else if i == 10 {
                        } else if i == 11 {
                        } else if i == 12 {
                        } else if i == 14 {
                        } else if i == 15 {
                        } else if i == 16 {
                        } else if i == 17 {
                        } else if i == 0 {
                        } else if i == 3 {
                        } else if i == 6 {
                        } else if i == 18 {
                        } else if i == 21 {
                        } else if i == 24 {
                        } else if i == 38 {
                        } else if i == 41 {
                        } else if i == 44 {
                        } else if i == 45 {
                        } else if i == 48 {
                        } else if i == 51 {
                        } else {
                            assert(!left_cw_touched(i));
                        }
                    }
                }
            },
            (Face::Left, Rotation::CounterClockwise) => {
                turn_left_ccw(&mut self.facelets);
                proof {
                    assert forall|i: int| 0 <= i < 54 implies self.facelets@[i]
                        == old(self).facelets@[left_ccw_src(i)] by {
                        if i == 9 {
                        } else if i == 10 {
                        } else if i == 11 {
                        } else if i == 12 {
                        } else if i == 14 {
                        } else if i == 15 {
                        } else if i == 16 {
                        } else if i == 17 {
                        } else if i == 0 {
                        } else if i == 3 {
                        } else if i == 6 {
                        } else if i == 18 {
                        } else if i == 21 {
                        } else if i == 24 {
                        } else if i == 38 {
                        } else if i == 41 {
                        } else if i == 44 {
                        } else if i == 45 {
                        } else if i == 48 {
                        } else if i == 51 {
                        } else {
                            assert(!left_ccw_touched(i));
                        }
                    }
                }
            },
            (Face::Left, Rotation::DoubleTurn) => {
                turn_left_two(&mut self.facelets);
                proof {
                    assert forall|i: int| 0 <= i < 54 implies self.facelets@[i]
                        == old(self).facelets@[left_two_src(i)] by {
                        if i == 9 {
                        } else if i == 10 {
                        } else if i == 11 {
                        } else if i == 12 {
                        } else if i == 14 {
                        } else if i == 15 {
                        } else if i == 16 {
                        } else if i == 17 {
                        } else if i == 0 {
                        } else if i == 3 {
                        } else if i == 6 {
                        } else if i == 18 {
                        } else if i == 21 {
                        } else if i == 24 {
                        } else if i == 38 {
                        } else if i == 41 {
                        } else if i == 44 {
                        } else if i == 45 {
                        } else if i == 48 {
                        } else if i == 51 {
                        } else {
                            assert(!left_two_touched(i));
                        }
                    }
                }
            },
        }
    }
}

} // verus!
