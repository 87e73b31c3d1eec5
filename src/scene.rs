//! How the solids of a scene are built from tetrahedra.
//!
//! A cube, given by its eight corners, is cut into five tetrahedra; a
//! tesseract, given by its sixteen corners, is the union of its eight cubic
//! cells.  Corners are named by their positions in the caller's list.
use vstd::prelude::*;

verus! {

/// The five tetrahedra of a cube, as positions in its list of corners.
pub open spec fn cube_split_seq() -> Seq<[usize; 4]> {
    seq![[0usize, 2, 1, 4], [5usize, 7, 4, 1], [6usize, 4, 7, 2], [3usize, 1, 2, 7], [2usize, 7, 1, 4]]
}

/// The eight cubic cells of a tesseract, as positions in its list of
/// corners.  Corner `i` of the tesseract lies on the positive side of axis
/// `x`, `y`, `z`, `w` where bit 3, 2, 1, 0 of `i` is set.
pub open spec fn tesseract_cell_seq() -> Seq<[usize; 8]> {
    seq![
        [0usize, 1, 2, 3, 4, 5, 6, 7],
        [8usize, 9, 10, 11, 12, 13, 14, 15],
        [0usize, 1, 2, 3, 8, 9, 10, 11],
        [4usize, 5, 6, 7, 12, 13, 14, 15],
        [0usize, 1, 4, 5, 8, 9, 12, 13],
        [2usize, 3, 6, 7, 10, 11, 14, 15],
        [0usize, 2, 4, 6, 8, 10, 12, 14],
        [1usize, 3, 5, 7, 9, 11, 13, 15],
    ]
}

/// The five tetrahedra of a cube.
pub fn cube_split() -> (r: Vec<[usize; 4]>)
    ensures
        r@ == cube_split_seq(),
{
    let r = vec![[0usize, 2, 1, 4], [5usize, 7, 4, 1], [6usize, 4, 7, 2], [3usize, 1, 2, 7], [2usize, 7, 1, 4]];
    assert(r@ =~= cube_split_seq());
    r
}

/// The eight cubic cells of a tesseract.
pub fn tesseract_cells() -> (r: Vec<[usize; 8]>)
    ensures
        r@ == tesseract_cell_seq(),
{
    let r = vec![
        [0usize, 1, 2, 3, 4, 5, 6, 7],
        [8usize, 9, 10, 11, 12, 13, 14, 15],
        [0usize, 1, 2, 3, 8, 9, 10, 11],
        [4usize, 5, 6, 7, 12, 13, 14, 15],
        [0usize, 1, 4, 5, 8, 9, 12, 13],
        [2usize, 3, 6, 7, 10, 11, 14, 15],
        [0usize, 2, 4, 6, 8, 10, 12, 14],
        [1usize, 3, 5, 7, 9, 11, 13, 15],
    ];
    assert(r@ =~= tesseract_cell_seq());
    r
}

/// Whether corner `corner` of a tesseract lies on the positive side of
/// axis `axis` (0 to 3 for `x`, `y`, `z`, `w`).
pub open spec fn corner_positive(corner: nat, axis: nat) -> bool {
    (corner / pow2((3 - axis) as nat)) % 2 == 1
}

pub open spec fn pow2(e: nat) -> nat
    decreases e,
{
    if e == 0 {
        1
    } else {
        2 * pow2((e - 1) as nat)
    }
}

/// Whether corner `corner` of a tesseract lies on the positive side of
/// axis `axis`.
pub fn tesseract_corner_positive(corner: usize, axis: usize) -> (r: bool)
    requires
        corner < 16,
        axis < 4,
    ensures
        r == corner_positive(corner as nat, axis as nat),
{
    reveal_with_fuel(pow2, 4);
    let bit: usize = if axis == 0 {
        8
    } else if axis == 1 {
        4
    } else if axis == 2 {
        2
    } else {
        1
    };
    (corner / bit) % 2 == 1
}

/// The forty tetrahedra of a tesseract: the five of each cell in turn, as
/// positions in the tesseract's list of corners.
pub fn tesseract_split() -> (r: Vec<[usize; 4]>)
    ensures
        r@.len() == 40,
        forall|c: int, t: int, k: int|
            0 <= c < 8 && 0 <= t < 5 && 0 <= k < 4 ==> #[trigger] r@[5 * c + t][k]
                == tesseract_cell_seq()[c][cube_split_seq()[t][k] as int],
{
    let cells = tesseract_cells();
    let split = cube_split();
    let mut r: Vec<[usize; 4]> = Vec::new();
    let mut c: usize = 0;
    while c < 8
        invariant
            c <= 8,
            cells@ == tesseract_cell_seq(),
            split@ == cube_split_seq(),
            r@.len() == 5 * c,
            forall|c2: int, t: int, k: int|
                0 <= c2 < c && 0 <= t < 5 && 0 <= k < 4 ==> #[trigger] r@[5 * c2 + t][k]
                    == tesseract_cell_seq()[c2][cube_split_seq()[t][k] as int],
        decreases 8 - c,
    {
        let mut t: usize = 0;
        while t < 5
            invariant
                c < 8,
                t <= 5,
                cells@ == tesseract_cell_seq(),
                split@ == cube_split_seq(),
                r@.len() == 5 * c + t,
                forall|c2: int, t2: int, k: int|
                    0 <= c2 < c && 0 <= t2 < 5 && 0 <= k < 4 ==> #[trigger] r@[5 * c2 + t2][k]
                        == tesseract_cell_seq()[c2][cube_split_seq()[t2][k] as int],
                forall|t2: int, k: int|
                    0 <= t2 < t && 0 <= k < 4 ==> #[trigger] r@[5 * c + t2][k]
                        == tesseract_cell_seq()[c as int][cube_split_seq()[t2][k] as int],
            decreases 5 - t,
        {
            let cell = cells[c];
            let tet = split[t];
            assert(forall|k: int| 0 <= k < 4 ==> tet[k] < 8);
            r.push([cell[tet[0]], cell[tet[1]], cell[tet[2]], cell[tet[3]]]);
            t = t + 1;
        }
        c = c + 1;
    }
    r
}

} // verus!
