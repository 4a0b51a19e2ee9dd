use vstd::prelude::*;

use crate::app::Solve;
use crate::cube::{Face, Move, Rotation};
use crate::scramble::Scramble;
use crate::timer::u64_to_string;

verus! {

/// Whether `b` is an ASCII decimal digit.
pub open spec fn is_dec_digit(b: u8) -> bool {
    48 <= b <= 57
}

pub open spec fn all_digits(s: Seq<u8>) -> bool {
    forall|i: int| 0 <= i < s.len() ==> is_dec_digit(#[trigger] s[i])
}

/// The number the digit bytes of `s` denote.
pub open spec fn dec_val(s: Seq<u8>) -> int
    decreases s.len(),
{
    if s.len() == 0 {
        0
    } else {
        dec_val(s.drop_last()) * 10 + (s.last() - 48)
    }
}

/// The decimal digit bytes of `n`, most significant first.
pub open spec fn dec_bytes(n: nat) -> Seq<u8>
    decreases n,
{
    if n < 10 {
        seq![(48 + n) as u8]
    } else {
        dec_bytes(n / 10).push((48 + n % 10) as u8)
    }
}

proof fn lemma_dec_val_nonneg(s: Seq<u8>)
    requires
        all_digits(s),
    ensures
        dec_val(s) >= 0,
    decreases s.len(),
{
    if s.len() > 0 {
        lemma_dec_val_nonneg(s.drop_last());
    }
}

/// Appending digit bytes can only grow the denoted number.
proof fn lemma_dec_val_grows(s: Seq<u8>, j: int)
    requires
        0 <= j <= s.len(),
        all_digits(s),
    ensures
        dec_val(s) >= dec_val(s.take(j)),
    decreases s.len() - j,
{
    lemma_dec_val_nonneg(s.take(j));
    if j < s.len() {
        lemma_dec_val_grows(s, j + 1);
        assert(s.take(j + 1).drop_last() =~= s.take(j));
        lemma_dec_val_nonneg(s.take(j));
    } else {
        assert(s.take(j) =~= s);
    }
}

/// Parse an unsigned decimal number: succeeds exactly on non-empty
/// all-digit input whose value fits.
pub fn parse_u64(bytes: &[u8]) -> (r: Option<u64>)
    ensures
        r == (if bytes@.len() > 0 && all_digits(bytes@) && dec_val(bytes@) <= u64::MAX {
            Some(dec_val(bytes@) as u64)
        } else {
            None::<u64>
        }),
{
    let length = bytes.len();
    if length == 0 {
        return None;
    }
    let mut acc: u64 = 0;
    let mut i: usize = 0;
    while i < length
        invariant
            length == bytes@.len(),
            0 <= i <= length,
            all_digits(bytes@.take(i as int)),
            acc == dec_val(bytes@.take(i as int)),
        decreases length - i,
    {
        let b = bytes[i];
        proof {
            assert(bytes@.take(i + 1).drop_last() =~= bytes@.take(i as int));
        }
        if b < 48 || b > 57 {
            proof {
                assert(!is_dec_digit(bytes@[i as int]));
            }
            return None;
        }
        let wide: u128 = (acc as u128) * 10 + ((b - 48) as u128);
        if wide > u64::MAX as u128 {
            proof {
                assert(dec_val(bytes@.take(i + 1)) > u64::MAX);
                if all_digits(bytes@) {
                    lemma_dec_val_grows(bytes@, i + 1);
                }
            }
            return None;
        }
        acc = wide as u64;
        i = i + 1;
    }
    proof {
        assert(bytes@.take(length as int) =~= bytes@);
    }
    Some(acc)
}

/// The decimal rendering of `n` as bytes.
pub fn u64_to_dec_bytes(n: u64) -> (r: Vec<u8>)
    ensures
        r@ == dec_bytes(n as nat),
    decreases n,
{
    if n < 10 {
        let mut v: Vec<u8> = Vec::new();
        v.push(48 + (n as u8));
        proof {
            assert(v@ =~= dec_bytes(n as nat));
        }
        v
    } else {
        let mut v = u64_to_dec_bytes(n / 10);
        v.push(48 + ((n % 10) as u8));
        v
    }
}

fn push_bytes(out: &mut Vec<u8>, src: &[u8])
    ensures
        final(out)@ == old(out)@ + src@,
{
    let length = src.len();
    let mut i: usize = 0;
    while i < length
        invariant
            length == src@.len(),
            0 <= i <= length,
            out@ == old(out)@ + src@.take(i as int),
        decreases length - i,
    {
        out.push(src[i]);
        proof {
            assert(old(out)@ + src@.take(i + 1) =~= (old(out)@ + src@.take(i as int)).push(
                src@[i as int],
            ));
        }
        i = i + 1;
    }
    proof {
        assert(src@.take(length as int) =~= src@);
    }
}

/// The byte a face is written as.
pub open spec fn face_byte(f: Face) -> u8 {
    match f {
        Face::Up => 85,
        Face::Down => 68,
        Face::Front => 70,
        Face::Back => 66,
        Face::Right => 82,
        Face::Left => 76,
    }
}

/// The suffix a rotation is written as: nothing, a prime, or a two.
pub open spec fn rotation_bytes(r: Rotation) -> Seq<u8> {
    match r {
        Rotation::Clockwise => Seq::empty(),
        Rotation::CounterClockwise => seq![39u8],
        Rotation::DoubleTurn => seq![50u8],
    }
}

pub open spec fn move_bytes(m: Move) -> Seq<u8> {
    seq![face_byte(m.face)] + rotation_bytes(m.rotation)
}

/// The rendering of a move sequence: moves separated by single spaces.
pub open spec fn moves_bytes(ms: Seq<Move>) -> Seq<u8>
    decreases ms.len(),
{
    if ms.len() == 0 {
        Seq::empty()
    } else if ms.len() == 1 {
        move_bytes(ms[0])
    } else {
        moves_bytes(ms.drop_last()) + seq![32u8] + move_bytes(ms.last())
    }
}

/// Render a task sequence into the opaque token a solve record carries.
pub fn scramble_to_bytes(scramble: &Scramble) -> (r: Vec<u8>)
    ensures
        r@ == moves_bytes(scramble.moves@),
{
    let mut out: Vec<u8> = Vec::new();
    let length = scramble.moves.len();
    let mut i: usize = 0;
    while i < length
        invariant
            length == scramble.moves@.len(),
            0 <= i <= length,
            out@ == moves_bytes(scramble.moves@.take(i as int)),
        decreases length - i,
    {
        if i > 0 {
            out.push(32);
        }
        let mv = scramble.moves[i];
        let fb = match mv.face {
            Face::Up => 85,
            Face::Down => 68,
            Face::Front => 70,
            Face::Back => 66,
            Face::Right => 82,
            Face::Left => 76,
        };
        out.push(fb);
        match mv.rotation {
            Rotation::Clockwise => {},
            Rotation::CounterClockwise => out.push(39),
            Rotation::DoubleTurn => out.push(50),
        }
        proof {
            let taken = scramble.moves@.take(i + 1);
            assert(taken.drop_last() =~= scramble.moves@.take(i as int));
            assert(taken.last() == scramble.moves@[i as int]);
            assert(out@ =~= moves_bytes(taken));
        }
        i = i + 1;
    }
    proof {
        assert(scramble.moves@.take(length as int) =~= scramble.moves@);
    }
    out
}

/// The persisted record of one solve: its four comma-separated fields.
pub open spec fn record_bytes(time: u64, code: u8, token: Seq<u8>, date: u64) -> Seq<u8> {
    dec_bytes(time as nat) + seq![44u8] + dec_bytes(code as nat) + seq![44u8] + token + seq![44u8]
        + dec_bytes(date as nat)
}

/// Render one solve as its persisted record line (without the newline).
pub fn record_of_solve(solve: &Solve) -> (r: Vec<u8>)
    ensures
        r@ == record_bytes(
            solve.time.time,
            solve.time.penalty.spec_code(),
            solve.scramble@,
            solve.date,
        ),
{
    let mut out = u64_to_dec_bytes(solve.time.time);
    out.push(44);
    let code = solve.time.penalty.code();
    let code_bytes = u64_to_dec_bytes(code as u64);
    push_bytes(&mut out, code_bytes.as_slice());
    out.push(44);
    push_bytes(&mut out, solve.scramble.as_slice());
    out.push(44);
    let date_bytes = u64_to_dec_bytes(solve.date);
    push_bytes(&mut out, date_bytes.as_slice());
    proof {
        assert(out@ =~= record_bytes(
            solve.time.time,
            solve.time.penalty.spec_code(),
            solve.scramble@,
            solve.date,
        ));
    }
    out
}

/// The positions of the comma bytes of `s`, in order.
pub open spec fn comma_positions(s: Seq<u8>) -> Seq<int>
    decreases s.len(),
{
    if s.len() == 0 {
        Seq::empty()
    } else {
        let rest = comma_positions(s.drop_last());
        if s.last() == 44 {
            rest.push(s.len() - 1)
        } else {
            rest
        }
    }
}

proof fn lemma_comma_positions_bounds(s: Seq<u8>)
    ensures
        forall|j: int|
            0 <= j < comma_positions(s).len() ==> 0 <= #[trigger] comma_positions(s)[j] < s.len(),
        forall|j: int, j2: int|
            #![trigger comma_positions(s)[j], comma_positions(s)[j2]]
            0 <= j < j2 < comma_positions(s).len() ==> comma_positions(s)[j] < comma_positions(
                s,
            )[j2],
    decreases s.len(),
{
    if s.len() > 0 {
        lemma_comma_positions_bounds(s.drop_last());
        let rest = comma_positions(s.drop_last());
        let cs = comma_positions(s);
        assert forall|j: int| #![trigger cs[j]] 0 <= j < cs.len() implies 0 <= cs[j] < s.len() by {
            if j < rest.len() {
                assert(cs[j] == rest[j]);
            }
        }
        assert forall|j: int, j2: int| #![trigger cs[j], cs[j2]] 0 <= j < j2 < cs.len() implies cs[j]
            < cs[j2] by {
            assert(cs[j] == rest[j]);
            if j2 < rest.len() {
                assert(cs[j2] == rest[j2]);
            } else {
                assert(rest[j] < s.drop_last().len());
            }
        }
    }
}

/// What a persisted record line means: it must hold exactly three commas,
/// its first two fields must be numbers (the second a penalty code), its
/// third is the opaque token, and its fourth is a number.
pub open spec fn spec_parse_record(s: Seq<u8>) -> Option<(u64, u8, Seq<u8>, u64)> {
    let cs = comma_positions(s);
    if cs.len() != 3 {
        None
    } else {
        let f0 = s.subrange(0, cs[0]);
        let f1 = s.subrange(cs[0] + 1, cs[1]);
        let tok = s.subrange(cs[1] + 1, cs[2]);
        let f3 = s.subrange(cs[2] + 1, s.len() as int);
        if f0.len() > 0 && all_digits(f0) && dec_val(f0) <= u64::MAX && f1.len() > 0 && all_digits(
            f1,
        ) && dec_val(f1) <= 2 && f3.len() > 0 && all_digits(f3) && dec_val(f3) <= u64::MAX {
            Some((dec_val(f0) as u64, dec_val(f1) as u8, tok, dec_val(f3) as u64))
        } else {
            None
        }
    }
}

/// Parse one persisted record line back into a solve; the cached window
/// averages are left for the replay to compute. Fails exactly on lines
/// that `spec_parse_record` rejects.
pub fn parse_record(line: &[u8]) -> (r: Option<Solve>)
    ensures
        match r {
            Some(solve) => {
                &&& spec_parse_record(line@) matches Some(f)
                &&& solve.time.time == f.0
                &&& solve.time.penalty == crate::app::Penalty::spec_from_code(f.1)
                &&& solve.avg_of_5 is None
                &&& solve.avg_of_12 is None
                &&& solve.scramble@ == f.2
                &&& solve.date == f.3
            },
            None => spec_parse_record(line@) is None,
        },
{
    let length = line.len();
    let mut commas: Vec<usize> = Vec::new();
    let mut i: usize = 0;
    while i < length
        invariant
            length == line@.len(),
            0 <= i <= length,
            commas@.len() == comma_positions(line@.take(i as int)).len(),
            forall|j: int|
                0 <= j < commas@.len() ==> commas@[j] == comma_positions(line@.take(i as int))[j],
            forall|j: int| 0 <= j < commas@.len() ==> commas@[j] < i,
        decreases length - i,
    {
        proof {
            assert(line@.take(i + 1).drop_last() =~= line@.take(i as int));
        }
        if line[i] == 44 {
            commas.push(i);
        }
        i = i + 1;
    }
    proof {
        assert(line@.take(length as int) =~= line@);
        lemma_comma_positions_bounds(line@);
    }
    if commas.len() != 3 {
        return None;
    }
    let c0 = commas[0];
    let c1 = commas[1];
    let c2 = commas[2];
    let t = parse_u64(&line[0..c0]);
    let p = parse_u64(&line[c0 + 1..c1]);
    let d = parse_u64(&line[c2 + 1..length]);
    proof {
        let cs = comma_positions(line@);
        assert(c0 == cs[0] && c1 == cs[1] && c2 == cs[2]);
    }
    match (t, p, d) {
        (Some(time), Some(code), Some(date)) => {
            if code <= 2 {
                proof {
                    let cs = comma_positions(line@);
                    let f1 = line@.subrange(cs[0] + 1, cs[1]);
                    lemma_dec_val_nonneg(f1);
                    assert(f1.len() > 0 && all_digits(f1) && dec_val(f1) <= 2);
                    assert(code == dec_val(f1));
                    let sp = spec_parse_record(line@);
                    assert(sp matches Some(ff) && ff.0 == time && ff.1 == dec_val(f1) as u8
                        && ff.2 == line@.subrange(cs[1] + 1, cs[2]) && ff.3 == date);
                    assert(dec_val(f1) as u8 == code as u8);
                }
                Some(Solve::from_history_file(time, code as u8, &line[c1 + 1..c2], date))
            } else {
                proof {
                    let cs = comma_positions(line@);
                    let f1 = line@.subrange(cs[0] + 1, cs[1]);
                    lemma_dec_val_nonneg(f1);
                    assert(dec_val(f1) == code);
                    assert(spec_parse_record(line@) is None);
                }
                None
            }
        },
        _ => {
            proof {
                let cs = comma_positions(line@);
                let f0 = line@.subrange(0, cs[0]);
                let f1 = line@.subrange(cs[0] + 1, cs[1]);
                let f3 = line@.subrange(cs[2] + 1, line@.len() as int);
                if t is None {
                    assert(!(f0.len() > 0 && all_digits(f0) && dec_val(f0) <= u64::MAX));
                } else if p is None {
                    assert(!(f1.len() > 0 && all_digits(f1) && dec_val(f1) <= u64::MAX));
                } else {
                    assert(!(f3.len() > 0 && all_digits(f3) && dec_val(f3) <= u64::MAX));
                }
                assert(spec_parse_record(line@) is None);
            }
            None
        },
    }
}

/// The file name of the session with this zero-based index: sessions are
/// numbered from one on disk.
pub fn session_file_name(idx: usize) -> (r: String)
    requires
        idx < usize::MAX,
    ensures
        r@ == "session_"@ + crate::timer::spec_u64_digits((idx + 1) as nat) + ".csv"@,
{
    proof {
        reveal_strlit("session_");
        reveal_strlit(".csv");
    }
    let mut s = String::new();
    s.append("session_");
    let n = u64_to_string((idx as u64) + 1);
    s.append(n.as_str());
    s.append(".csv");
    s
}

/// The position of the first underscore byte of `s`, if any.
pub open spec fn first_underscore(s: Seq<u8>) -> Option<int>
    decreases s.len(),
{
    if s.len() == 0 {
        None
    } else if s[0] == 95 {
        Some(0int)
    } else {
        match first_underscore(s.subrange(1, s.len() as int)) {
            Some(u) => Some(u + 1),
            None => None,
        }
    }
}

proof fn lemma_first_underscore_at(s: Seq<u8>, i: int)
    requires
        0 <= i < s.len(),
        s[i] == 95,
        forall|k: int| 0 <= k < i ==> s[k] != 95,
    ensures
        first_underscore(s) == Some(i),
    decreases i,
{
    if i > 0 {
        lemma_first_underscore_at(s.subrange(1, s.len() as int), i - 1);
    }
}

proof fn lemma_no_underscore(s: Seq<u8>)
    requires
        forall|k: int| 0 <= k < s.len() ==> s[k] != 95,
    ensures
        first_underscore(s) is None,
    decreases s.len(),
{
    if s.len() > 0 {
        lemma_no_underscore(s.subrange(1, s.len() as int));
    }
}

/// The zero-based session index a file stem names: everything after the
/// first underscore must be a positive number, read as one-based.
pub fn session_index_of_stem(stem: &[u8]) -> (r: Option<usize>)
    ensures
        r == (match first_underscore(stem@) {
            None => None::<usize>,
            Some(u) => {
                let rest = stem@.subrange(u + 1, stem@.len() as int);
                if rest.len() > 0 && all_digits(rest) && 1 <= dec_val(rest) <= usize::MAX {
                    Some((dec_val(rest) - 1) as usize)
                } else {
                    None::<usize>
                }
            },
        }),
{
    let length = stem.len();
    let mut i: usize = 0;
    let mut underscore: Option<usize> = None;
    while i < length && underscore.is_none()
        invariant
            length == stem@.len(),
            0 <= i <= length,
            match underscore {
                Some(u) => u == i && u < length && stem@[u as int] == 95 && forall|k: int|
                    0 <= k < u ==> stem@[k] != 95,
                None => forall|k: int| 0 <= k < i ==> stem@[k] != 95,
            },
        decreases length - i, (if underscore is None {
            1int
        } else {
            0int
        }),
    {
        if stem[i] == 95 {
            underscore = Some(i);
        } else {
            i = i + 1;
        }
    }
    match underscore {
        Some(u) => {
            proof {
                lemma_first_underscore_at(stem@, u as int);
            }
            match parse_u64(&stem[u + 1..length]) {
                Some(n) => {
                    proof {
                        lemma_dec_val_nonneg(stem@.subrange(u + 1, stem@.len() as int));
                    }
                    if n >= 1 && n <= (usize::MAX as u64) {
                        Some((n - 1) as usize)
                    } else {
                        None
                    }
                },
                None => None,
            }
        },
        None => {
            proof {
                lemma_no_underscore(stem@);
            }
            None
        },
    }
}

} // verus!
