//! The seed pattern: the deterministic initial condition written into both
//! generations of both concentration fields at construction and on reset.
//!
//! A cell holds either full concentration or none, so a seed value is carried
//! as `0` or `1`; the host maps `0` to `0.0f32` and `1` to `1.0f32` when it
//! uploads a buffer. Species B is present (`B = 1`, `A = 0`) on an
//! axis-aligned rectangle spanning the middle fifth of the linear index range
//! and the middle fifth of each row; everywhere else the background holds
//! species A (`A = 1`, `B = 0`).

use vstd::prelude::*;

verus! {

/// Whether linear cell index `i` lies in the seeded rectangle of a
/// `width * height` grid with `size == width * height`: strictly inside the
/// middle fifth of the linear range and strictly inside the middle fifth of
/// its row (integer division, truncating). For small grids the rectangle may
/// be empty; that is accepted behaviour, not an error.
pub open spec fn seeded_cell(width: nat, size: nat, i: nat) -> bool {
    &&& size * 2 / 5 < i < size * 3 / 5
    &&& width * 2 / 5 < i % width
    &&& i % width < width * 3 / 5
}

/// The initial field of species A: `0` inside the seeded rectangle, `1` in
/// the background.
pub open spec fn seed_a(width: nat, height: nat) -> Seq<u32> {
    Seq::new(width * height, |i: int| if seeded_cell(width, width * height, i as nat) { 0u32 } else { 1u32 })
}

/// The initial field of species B: `1` inside the seeded rectangle, `0` in
/// the background.
pub open spec fn seed_b(width: nat, height: nat) -> Seq<u32> {
    Seq::new(width * height, |i: int| if seeded_cell(width, width * height, i as nat) { 1u32 } else { 0u32 })
}

/// Build the initial values of both fields for a `width * height` grid,
/// linearly indexed `row * width + col`.
pub fn init_values(width: u32, height: u32) -> (r: (Vec<u32>, Vec<u32>))
    requires
        width > 0,
        width * height <= u32::MAX,
    ensures
        r.0@ == seed_a(width as nat, height as nat),
        r.1@ == seed_b(width as nat, height as nat),
{
    let size: u64 = (width as u64) * (height as u64);
    let row_lo: u64 = size * 2 / 5;
    let row_hi: u64 = size * 3 / 5;
    let col_lo: u64 = (width as u64) * 2 / 5;
    let col_hi: u64 = (width as u64) * 3 / 5;

    let mut a_init_values: Vec<u32> = Vec::new();
    let mut b_init_values: Vec<u32> = Vec::new();
    let mut i: u64 = 0;
    while i < size
        invariant
            size == width * height,
            size <= u32::MAX,
            width > 0,
            row_lo == size * 2 / 5,
            row_hi == size * 3 / 5,
            col_lo == width * 2 / 5,
            col_hi == width * 3 / 5,
            i <= size,
            a_init_values@.len() == i,
            b_init_values@.len() == i,
            forall|j: int| 0 <= j < i ==> a_init_values@[j] == seed_a(width as nat, height as nat)[j],
            forall|j: int| 0 <= j < i ==> b_init_values@[j] == seed_b(width as nat, height as nat)[j],
        decreases size - i,
    {
        let col: u64 = i % (width as u64);
        if row_lo < i && i < row_hi && col_lo < col && col < col_hi {
            a_init_values.push(0);
            b_init_values.push(1);
        } else {
            a_init_values.push(1);
            b_init_values.push(0);
        }
        i = i + 1;
    }
    assert(a_init_values@ =~= seed_a(width as nat, height as nat));
    assert(b_init_values@ =~= seed_b(width as nat, height as nat));
    (a_init_values, b_init_values)
}

/// Every cell of the seed holds exactly one of the two species at full
/// concentration: both fields have length `width * height`, each value is
/// `0` or `1`, and at every index the two values sum to `1`.
pub proof fn lemma_seed_complementary(width: nat, height: nat)
    ensures
        seed_a(width, height).len() == width * height,
        seed_b(width, height).len() == width * height,
        forall|i: int| 0 <= i < width * height ==>
            (#[trigger] seed_a(width, height)[i] == 0 || seed_a(width, height)[i] == 1),
        forall|i: int| 0 <= i < width * height ==>
            (#[trigger] seed_b(width, height)[i] == 0 || seed_b(width, height)[i] == 1),
        forall|i: int| 0 <= i < width * height ==>
            #[trigger] seed_a(width, height)[i] + seed_b(width, height)[i] == 1,
{
}

} // verus!
