//! The level format.
//!
//! A level file is a sequence of records of three lines.  The first two
//! lines each start with four numbers, separated by white space: opposite
//! corners of a box.  The third line is `T` where the box is the target,
//! and otherwise lists the faces of the box that are walls, one letter
//! each: `x`, `y`, `z`, `w` for the face at the lower bound of that axis,
//! `X`, `Y`, `Z`, `W` for the face at the upper bound.  Lines after the
//! last complete record are ignored.
//!
//! A number is an optional `-`, one or more ASCII digits, and optionally a
//! `.` followed by one or more ASCII digits: the digits a decimal number
//! can be written in.  Only the start of a coordinate line is read:
//! whatever follows the fourth number is ignored, a digit of another script
//! included.
use vstd::prelude::*;

verus! {

/// The ASCII digits.
pub open spec fn is_digit(c: char) -> bool {
    '0' <= c <= '9'
}

/// The Unicode `White_Space` characters.
pub open spec fn is_space(c: char) -> bool {
    ||| '\u{9}' <= c <= '\u{d}'
    ||| c == ' '
    ||| c == '\u{85}'
    ||| c == '\u{a0}'
    ||| c == '\u{1680}'
    ||| '\u{2000}' <= c <= '\u{200a}'
    ||| c == '\u{2028}'
    ||| c == '\u{2029}'
    ||| c == '\u{202f}'
    ||| c == '\u{205f}'
    ||| c == '\u{3000}'
}

/// The length of the run of characters satisfying `f` that starts at `i`.
pub open spec fn run(s: Seq<char>, i: int, f: spec_fn(char) -> bool) -> nat
    decreases s.len() - i,
{
    if 0 <= i < s.len() && f(s[i]) {
        1 + run(s, i + 1, f)
    } else {
        0
    }
}

/// Where the longest number that starts at `i` ends, if one starts there.
pub open spec fn number_end(s: Seq<char>, i: int) -> Option<int> {
    let j = if i < s.len() && s[i] == '-' {
        i + 1
    } else {
        i
    };
    let e = j + run(s, j, |c: char| is_digit(c));
    if e == j {
        None
    } else if e < s.len() && s[e] == '.' && run(s, e + 1, |c: char| is_digit(c)) > 0 {
        Some(e + 1 + run(s, e + 1, |c: char| is_digit(c)))
    } else {
        Some(e)
    }
}

/// The spans `[start, end)` of the four numbers at the start of a
/// coordinate line, read from `i` on, `n` numbers still to read; `None`
/// where the line does not start that way.
pub open spec fn number_spans(s: Seq<char>, i: int, n: nat) -> Option<Seq<(int, int)>>
    decreases n,
{
    if n == 0 {
        Some(seq![])
    } else {
        match number_end(s, i) {
            None => None,
            Some(e) => if n == 1 {
                Some(seq![(i, e)])
            } else {
                let gap = run(s, e, |c: char| is_space(c));
                if gap == 0 {
                    None
                } else {
                    match number_spans(s, e + gap, (n - 1) as nat) {
                        None => None,
                        Some(rest) => Some(seq![(i, e)] + rest),
                    }
                }
            },
        }
    }
}

fn digit_run(s: &[char], i: usize) -> (r: usize)
    requires
        i <= s@.len(),
    ensures
        r == run(s@, i as int, |c: char| is_digit(c)),
        i + r <= s@.len(),
{
    let mut k = i;
    while k < s.len() && '0' <= s[k] && s[k] <= '9'
        invariant
            i <= k <= s@.len(),
            run(s@, i as int, |c: char| is_digit(c)) == (k - i) + run(
                s@,
                k as int,
                |c: char| is_digit(c),
            ),
        decreases s@.len() - k,
    {
        k = k + 1;
    }
    k - i
}

fn is_space_char(c: char) -> (r: bool)
    ensures
        r == is_space(c),
{
    ('\u{9}' <= c && c <= '\u{d}') || c == ' ' || c == '\u{85}' || c == '\u{a0}' || c
        == '\u{1680}' || ('\u{2000}' <= c && c <= '\u{200a}') || c == '\u{2028}' || c
        == '\u{2029}' || c == '\u{202f}' || c == '\u{205f}' || c == '\u{3000}'
}

fn space_run(s: &[char], i: usize) -> (r: usize)
    requires
        i <= s@.len(),
    ensures
        r == run(s@, i as int, |c: char| is_space(c)),
        i + r <= s@.len(),
{
    let mut k = i;
    while k < s.len() && is_space_char(s[k])
        invariant
            i <= k <= s@.len(),
            run(s@, i as int, |c: char| is_space(c)) == (k - i) + run(
                s@,
                k as int,
                |c: char| is_space(c),
            ),
        decreases s@.len() - k,
    {
        k = k + 1;
    }
    k - i
}

fn scan_number(s: &[char], i: usize) -> (r: Option<usize>)
    requires
        i <= s@.len(),
    ensures
        r matches Some(e) ==> number_end(s@, i as int) == Some(e as int) && e <= s@.len(),
        r is None ==> number_end(s@, i as int) is None,
{
    let j = if i < s.len() && s[i] == '-' {
        i + 1
    } else {
        i
    };
    let e = j + digit_run(s, j);
    if e == j {
        None
    } else if e < s.len() && s[e] == '.' && digit_run(s, e + 1) > 0 {
        Some(e + 1 + digit_run(s, e + 1))
    } else {
        Some(e)
    }
}

/// The spans `[start, end)` of the four numbers at the start of a
/// coordinate line, or `None` where the line does not start with four
/// numbers separated by white space.
pub fn coordinate_spans(line: &[char]) -> (r: Option<Vec<(usize, usize)>>)
    ensures
        r matches Some(v) ==> number_spans(line@, 0, 4) == Some(
            v@.map_values(|p: (usize, usize)| (p.0 as int, p.1 as int)),
        ),
        r is None ==> number_spans(line@, 0, 4) is None,
{
    let mut spans: Vec<(usize, usize)> = Vec::new();
    let mut i: usize = 0;
    let mut n: usize = 4;
    let len = line.len();
    while n > 0
        invariant
            len == line@.len(),
            n <= 4,
            i <= line@.len(),
            spans@.len() + n == 4,
            number_spans(line@, 0, 4) == match number_spans(line@, i as int, n as nat) {
                None => None,
                Some(rest) => Some(
                    spans@.map_values(|p: (usize, usize)| (p.0 as int, p.1 as int)) + rest,
                ),
            },
        decreases n,
    {
        let ghost before = spans@.map_values(|p: (usize, usize)| (p.0 as int, p.1 as int));
        match scan_number(line, i) {
            None => {
                return None;
            },
            Some(e) => {
                spans.push((i, e));
                assert(spans@.map_values(|p: (usize, usize)| (p.0 as int, p.1 as int))
                    =~= before.push((i as int, e as int)));
                if n == 1 {
                    assert(before + seq![(i as int, e as int)] =~= before.push(
                        (i as int, e as int),
                    ));
                    n = 0;
                } else {
                    let gap = space_run(line, e);
                    if gap == 0 {
                        return None;
                    }
                    proof {
                        let rest = number_spans(line@, e + gap, (n - 1) as nat);
                        if rest is Some {
                            assert(before + (seq![(i as int, e as int)] + rest->0)
                                =~= before.push((i as int, e as int)) + rest->0);
                        }
                    }
                    i = e + gap;
                    n = n - 1;
                }
            },
        }
    }
    assert(spans@.map_values(|p: (usize, usize)| (p.0 as int, p.1 as int)) + seq![]
        =~= spans@.map_values(|p: (usize, usize)| (p.0 as int, p.1 as int)));
    Some(spans)
}

/// A face of a box that is a wall: the face at the lower or the upper bound
/// of axis `axis` (0 to 3 for `x`, `y`, `z`, `w`).
#[derive(Clone, Copy, Debug, PartialEq, Eq, Structural)]
pub struct WallFace {
    pub axis: usize,
    pub upper: bool,
}

/// What the third line of a record makes of its box.
#[derive(Debug, PartialEq, Eq)]
pub enum LineKind {
    Target,
    Walls(Vec<WallFace>),
    /// A letter that names no face.
    Invalid,
}

/// The face that a letter names, if any.
pub open spec fn face_of(c: char) -> Option<WallFace> {
    if c == 'x' || c == 'X' {
        Some(WallFace { axis: 0, upper: c == 'X' })
    } else if c == 'y' || c == 'Y' {
        Some(WallFace { axis: 1, upper: c == 'Y' })
    } else if c == 'z' || c == 'Z' {
        Some(WallFace { axis: 2, upper: c == 'Z' })
    } else if c == 'w' || c == 'W' {
        Some(WallFace { axis: 3, upper: c == 'W' })
    } else {
        None
    }
}

pub fn face_letter(c: char) -> (r: Option<WallFace>)
    ensures
        r == face_of(c),
{
    if c == 'x' || c == 'X' {
        Some(WallFace { axis: 0, upper: c == 'X' })
    } else if c == 'y' || c == 'Y' {
        Some(WallFace { axis: 1, upper: c == 'Y' })
    } else if c == 'z' || c == 'Z' {
        Some(WallFace { axis: 2, upper: c == 'Z' })
    } else if c == 'w' || c == 'W' {
        Some(WallFace { axis: 3, upper: c == 'W' })
    } else {
        None
    }
}

/// Reads the third line of a record: `T` alone marks the target; otherwise
/// every letter names a wall face, in order, and a letter that names none
/// makes the line invalid.
pub fn line_kind(line: &[char]) -> (r: LineKind)
    ensures
        line@ == seq!['T'] ==> r is Target,
        line@ != seq!['T'] && (exists|i: int| 0 <= i < line@.len() && face_of(line@[i]) is None)
            ==> r is Invalid,
        line@ != seq!['T'] && (forall|i: int| 0 <= i < line@.len() ==> face_of(line@[i]) is Some)
            ==> (r matches LineKind::Walls(v) && v@ == line@.map_values(|c: char| face_of(c)->0)),
{
    if line.len() == 1 && line[0] == 'T' {
        assert(line@ =~= seq!['T']);
        return LineKind::Target;
    }
    assert(line@ != seq!['T']) by {
        if line@ == seq!['T'] {
            assert(line@.len() == 1 && line@[0] == 'T');
        }
    }
    let mut faces: Vec<WallFace> = Vec::new();
    let mut k: usize = 0;
    while k < line.len()
        invariant
            line@ != seq!['T'],
            k <= line@.len(),
            faces@ == line@.subrange(0, k as int).map_values(|c: char| face_of(c)->0),
            forall|i: int| 0 <= i < k ==> face_of(line@[i]) is Some,
        decreases line.len() - k,
    {
        match face_letter(line[k]) {
            Some(f) => {
                faces.push(f);
                assert(line@.subrange(0, k + 1).map_values(|c: char| face_of(c)->0)
                    =~= line@.subrange(0, k as int).map_values(|c: char| face_of(c)->0).push(f));
            },
            None => {
                return LineKind::Invalid;
            },
        }
        k = k + 1;
    }
    assert(line@.subrange(0, line@.len() as int) =~= line@);
    LineKind::Walls(faces)
}

/// How many lines of the current record have been read.
#[derive(Debug, PartialEq, Eq)]
pub enum ReadState<T> {
    NoLines,
    OneLine(T),
    TwoLines(T, T),
}

impl<T> ReadState<T> {
    /// Takes in the next line: the third line of a record completes it,
    /// hands it out and starts the next one.
    pub fn feed(self, line: T) -> (r: (ReadState<T>, Option<(T, T, T)>))
        ensures
            match self {
                ReadState::NoLines => r.0 == ReadState::OneLine(line) && r.1 is None,
                ReadState::OneLine(a) => r.0 == ReadState::TwoLines(a, line) && r.1 is None,
                ReadState::TwoLines(a, b) => r.0 == ReadState::<T>::NoLines && r.1 == Some(
                    (a, b, line),
                ),
            },
    {
        match self {
            ReadState::NoLines => (ReadState::OneLine(line), None),
            ReadState::OneLine(a) => (ReadState::TwoLines(a, line), None),
            ReadState::TwoLines(a, b) => (ReadState::NoLines, Some((a, b, line))),
        }
    }
}

/// A box that should be a wall is flat along no axis, or along more than
/// one, so that the hyperplane that holds it is not determined.
#[derive(Clone, Copy, Debug, PartialEq, Eq, Structural)]
pub struct NotFlat;

/// The one axis along which a wall has no extent, given for each axis
/// whether its extent is zero.
pub fn flat_axis(zero: [bool; 4]) -> (r: Result<usize, NotFlat>)
    ensures
        r matches Ok(a) ==> (a < 4 && zero[a as int] && forall|b: int|
            0 <= b < 4 && b != a ==> !zero[b]),
        r is Err <==> !(exists|a: int|
            0 <= a < 4 && zero[a] && forall|b: int| 0 <= b < 4 && b != a ==> !zero[b]),
{
    let mut found: Option<usize> = None;
    let mut k: usize = 0;
    while k < 4
        invariant
            k <= 4,
            match found {
                None => forall|b: int| 0 <= b < k ==> !zero[b],
                Some(a) => a < k && zero[a as int] && forall|b: int|
                    0 <= b < k && b != a ==> !zero[b],
            },
        decreases 4 - k,
    {
        if zero[k] {
            if found.is_some() {
                return Err(NotFlat);
            }
            found = Some(k);
        }
        k = k + 1;
    }
    match found {
        Some(a) => Ok(a),
        None => Err(NotFlat),
    }
}

} // verus!
