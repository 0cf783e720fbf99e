//! Decoding of the textual wall description of a maze into a grid of
//! per-cell wall masks.
//!
//! A description is a two-character prefix (by convention `0x`) followed by
//! one hexadecimal digit per addressed cell. Position `i` of the digits is
//! addressed to the cell in row `2 * i / n` and column
//! `(i mod (n / 2)) * 2 + (1 - n mod 2) * (row mod 2)` of the `n` by `n` grid,
//! all divisions rounding down.

use vstd::prelude::*;
use vstd::arithmetic::div_mod::{lemma_div_denominator, lemma_fundamental_div_mod};

verus! {

/// Number of characters in front of the digits of a description.
pub const PREFIX_LEN: u64 = 2;

/// Character that stands for a position past the end of a description.
pub const NO_VALUE: char = '\0';

/// Whether a character is one of the sixteen hexadecimal digits, in either
/// case.
pub open spec fn spec_is_hex_digit(c: char) -> bool {
    ('0' <= c && c <= '9') || ('a' <= c && c <= 'f') || ('A' <= c && c <= 'F')
}

/// Value of a character read as one hexadecimal digit; every other
/// character counts as zero.
pub open spec fn spec_nibble(c: char) -> u8 {
    if '0' <= c && c <= '9' {
        (c as u32 - '0' as u32) as u8
    } else if 'a' <= c && c <= 'f' {
        (c as u32 - 'a' as u32 + 10) as u8
    } else if 'A' <= c && c <= 'F' {
        (c as u32 - 'A' as u32 + 10) as u8
    } else {
        0u8
    }
}

/// Parses one character as a hexadecimal digit. A character that is no
/// hexadecimal digit, the stand-in for a missing position among them, gives
/// the empty mask without any error.
pub fn nibble(c: char) -> (mask: u8)
    ensures
        mask == spec_nibble(c),
        mask < 16,
        !spec_is_hex_digit(c) ==> mask == 0,
        c == 'f' ==> mask == 15,
{
    let code: u32 = c as u32;
    if '0' <= c && c <= '9' {
        (code - 48) as u8
    } else if 'a' <= c && c <= 'f' {
        (code - 87) as u8
    } else if 'A' <= c && c <= 'F' {
        (code - 55) as u8
    } else {
        0
    }
}

/// Number of cells that a description addresses in a grid of side `n`:
/// every other cell, rounded up.
pub open spec fn spec_encoding_length(n: nat) -> nat {
    (n * n - (n * n) / 2) as nat
}

/// Row of the cell that position `i` is addressed to.
pub open spec fn spec_cell_row(i: nat, n: nat) -> nat
    recommends
        n > 0,
{
    (2 * i) / n
}

/// Column of the cell that position `i` is addressed to. In a grid of side
/// one, where half the side is zero, the column is zero.
pub open spec fn spec_cell_col(i: nat, n: nat) -> nat
    recommends
        n > 0,
{
    let half = n / 2;
    let base = if half == 0 {
        0
    } else {
        (i % half) * 2
    };
    (base + (1 - n % 2) * (spec_cell_row(i, n) % 2)) as nat
}

/// Character that position `i` of the digits reads from a description.
pub open spec fn spec_char_at(encoding: Seq<char>, i: nat) -> char {
    if i + PREFIX_LEN < encoding.len() {
        encoding[i + PREFIX_LEN]
    } else {
        NO_VALUE
    }
}

/// Every position below the encoding length is addressed to a cell inside
/// the grid.
pub proof fn lemma_address_in_grid(i: nat, n: nat)
    requires
        i < spec_encoding_length(n),
    ensures
        n > 0,
        spec_cell_row(i, n) < n,
        spec_cell_col(i, n) < n,
{
    assert(n > 0) by (nonlinear_arith)
        requires
            i < (n * n - (n * n) / 2),
    ;
    let row = (2 * i) / n;
    assert(2 * i < n * n);
    assert(row < n) by (nonlinear_arith)
        requires
            n > 0,
            2 * i < n * n,
            row == (2 * i) / n,
    ;
    let half = n / 2;
    if half > 0 {
        assert(i % half < half) by (nonlinear_arith)
            requires
                half > 0,
        ;
    }
}

/// Number of cells that a description addresses in a grid of side `size`.
/// For side zero it is zero: nothing is read.
pub fn encoding_length(size: u32) -> (len: u64)
    ensures
        len == spec_encoding_length(size as nat),
        len <= 0x7fff_ffff_8000_0001,
{
    let n: u64 = size as u64;
    assert(n * n <= 0xffff_fffe_0000_0001) by (nonlinear_arith)
        requires
            n <= 0xffff_ffff,
    ;
    let cells: u64 = n * n;
    cells - cells / 2
}

/// The cell that position `i` of the digits is addressed to in a grid of
/// side `size`, as row and column; `None` for a position at or past the
/// encoding length, which no grid of that side reads.
pub fn cell_address(i: u64, size: u32) -> (cell: Option<(u32, u32)>)
    ensures
        i < spec_encoding_length(size as nat) ==> cell == Some(
            (
                spec_cell_row(i as nat, size as nat) as u32,
                spec_cell_col(i as nat, size as nat) as u32,
            ),
        ),
        i >= spec_encoding_length(size as nat) ==> cell is None,
        cell matches Some((r, c)) ==> r < size && c < size,
{
    if i >= encoding_length(size) {
        return None;
    }
    proof {
        lemma_address_in_grid(i as nat, size as nat);
    }
    let n: u64 = size as u64;
    let row: u64 = 2 * i / n;
    let half: u64 = n / 2;
    let base: u64 = if half == 0 {
        0
    } else {
        (i % half) * 2
    };
    let col: u64 = base + (1 - n % 2) * (row % 2);
    Some((row as u32, col as u32))
}

/// A square table of wall masks, one per cell, rows first.
#[derive(Debug, PartialEq, Eq)]
pub struct Grid {
    cells: Vec<Vec<u8>>,
}

impl View for Grid {
    type V = Seq<Seq<u8>>;

    closed spec fn view(&self) -> Seq<Seq<u8>> {
        Seq::new(self.cells@.len(), |r: int| self.cells@[r]@)
    }
}

/// A table with as many rows as each row has cells, of a side that a `u32`
/// can hold.
pub open spec fn spec_is_square(table: Seq<Seq<u8>>) -> bool {
    &&& table.len() <= u32::MAX
    &&& forall|r: int| 0 <= r < table.len() ==> (#[trigger] table[r]).len() == table.len()
}

/// The grid of side `n` without any wall.
pub open spec fn spec_blank(n: nat) -> Seq<Seq<u8>> {
    Seq::new(n, |r: int| Seq::new(n, |c: int| 0u8))
}

/// Mask that cell `(r, c)` holds once the first `k` positions of a
/// description have been read: the digit of the last of them addressed to
/// that cell, or no wall at all if none of them is.
pub open spec fn spec_cell_mask(encoding: Seq<char>, n: nat, r: nat, c: nat, k: nat) -> u8
    decreases k,
{
    if k == 0 {
        0u8
    } else {
        let i = (k - 1) as nat;
        if spec_cell_row(i, n) == r && spec_cell_col(i, n) == c {
            spec_nibble(spec_char_at(encoding, i))
        } else {
            spec_cell_mask(encoding, n, r, c, i)
        }
    }
}

/// The grid after the first `k` positions of a description have been read.
pub open spec fn spec_decode_prefix(encoding: Seq<char>, n: nat, k: nat) -> Seq<Seq<u8>> {
    Seq::new(
        n,
        |r: int| Seq::new(n, |c: int| spec_cell_mask(encoding, n, r as nat, c as nat, k)),
    )
}

/// The grid of side `n` that a description stands for.
pub open spec fn spec_decode(encoding: Seq<char>, n: nat) -> Seq<Seq<u8>> {
    spec_decode_prefix(encoding, n, spec_encoding_length(n))
}

impl Grid {
    /// The table is square: the invariant of every grid.
    pub open spec fn wf(&self) -> bool {
        spec_is_square(self@)
    }

    /// The grid of side `size` in which no cell has a wall.
    pub fn blank(size: u32) -> (grid: Grid)
        ensures
            grid.wf(),
            grid@ == spec_blank(size as nat),
    {
        let mut cells: Vec<Vec<u8>> = Vec::new();
        let mut r: u32 = 0;
        while r < size
            invariant
                r <= size,
                cells@.len() == r,
                forall|k: int| 0 <= k < r ==> (#[trigger] cells@[k])@ == Seq::new(
                    size as nat,
                    |c: int| 0u8,
                ),
            decreases size - r,
        {
            let mut row: Vec<u8> = Vec::new();
            let mut c: u32 = 0;
            while c < size
                invariant
                    c <= size,
                    row@ == Seq::new(c as nat, |c: int| 0u8),
                decreases size - c,
            {
                row.push(0u8);
                c = c + 1;
                assert(row@ =~= Seq::new(c as nat, |c: int| 0u8));
            }
            cells.push(row);
            r = r + 1;
        }
        let grid = Grid { cells };
        assert(grid@ =~= spec_blank(size as nat));
        grid
    }

    /// Side of the grid, in cells.
    pub fn size(&self) -> (n: u32)
        requires
            self.wf(),
        ensures
            n == self@.len(),
    {
        self.cells.len() as u32
    }

    /// Mask of the cell in row `r` and column `c`; `None` outside the grid.
    pub fn mask(&self, r: u32, c: u32) -> (mask: Option<u8>)
        requires
            self.wf(),
        ensures
            r < self@.len() && c < self@.len() ==> mask == Some(self@[r as int][c as int]),
            !(r < self@.len() && c < self@.len()) ==> mask is None,
    {
        if (r as usize) < self.cells.len() && (c as usize) < self.cells.len() {
            assert(self@[r as int].len() == self@.len());
            Some(self.cells[r as usize][c as usize])
        } else {
            None
        }
    }

    /// Replaces the mask of the cell in row `r` and column `c`. Outside the
    /// grid nothing is stored and the answer is `false`.
    pub fn store(&mut self, r: u32, c: u32, mask: u8) -> (stored: bool)
        requires
            old(self).wf(),
        ensures
            final(self).wf(),
            stored == (r < old(self)@.len() && c < old(self)@.len()),
            stored ==> final(self)@ == old(self)@.update(
                r as int,
                old(self)@[r as int].update(c as int, mask),
            ),
            !stored ==> final(self)@ == old(self)@,
    {
        if (r as usize) < self.cells.len() && (c as usize) < self.cells.len() {
            assert(self@[r as int].len() == self@.len());
            self.cells[r as usize][c as usize] = mask;
            assert(self@ =~= old(self)@.update(
                r as int,
                old(self)@[r as int].update(c as int, mask),
            ));
            true
        } else {
            false
        }
    }
}

/// What is no hexadecimal digit reads as the empty mask, and so does a
/// position past the end of the description; the digit `f` reads as the
/// mask with all four walls.
pub proof fn lemma_nibble_values(encoding: Seq<char>, i: nat, c: char)
    ensures
        spec_nibble('f') == 15,
        spec_nibble(c) < 16,
        !spec_is_hex_digit(c) ==> spec_nibble(c) == 0,
        i + PREFIX_LEN >= encoding.len() ==> spec_nibble(spec_char_at(encoding, i)) == 0,
{
}

/// Every mask of a decoded grid is a digit: below sixteen.
pub proof fn lemma_cell_mask_is_nibble(encoding: Seq<char>, n: nat, r: nat, c: nat, k: nat)
    ensures
        spec_cell_mask(encoding, n, r, c, k) < 16,
    decreases k,
{
    if k > 0 {
        lemma_nibble_values(encoding, (k - 1) as nat, spec_char_at(encoding, (k - 1) as nat));
        lemma_cell_mask_is_nibble(encoding, n, r, c, (k - 1) as nat);
    }
}

/// A cell that none of the first `k` positions is addressed to holds the
/// empty mask.
pub proof fn lemma_cell_mask_unaddressed(encoding: Seq<char>, n: nat, r: nat, c: nat, k: nat)
    requires
        forall|i: nat| i < k ==> !(spec_cell_row(i, n) == r && spec_cell_col(i, n) == c),
    ensures
        spec_cell_mask(encoding, n, r, c, k) == 0,
    decreases k,
{
    if k > 0 {
        lemma_cell_mask_unaddressed(encoding, n, r, c, (k - 1) as nat);
    }
}

/// A cell holds the digit of the last position addressed to it: that of
/// position `i`, if none of the positions behind `i` and below `k` is
/// addressed to the same cell.
pub proof fn lemma_cell_mask_last(encoding: Seq<char>, n: nat, i: nat, k: nat)
    requires
        i < k,
        forall|j: nat|
            i < j < k ==> !(spec_cell_row(j, n) == spec_cell_row(i, n) && spec_cell_col(j, n)
                == spec_cell_col(i, n)),
    ensures
        spec_cell_mask(encoding, n, spec_cell_row(i, n), spec_cell_col(i, n), k) == spec_nibble(
            spec_char_at(encoding, i),
        ),
    decreases k,
{
    if k - 1 > i {
        lemma_cell_mask_last(encoding, n, i, (k - 1) as nat);
    }
}

/// A cell holds the empty mask where every position read so far gave the
/// empty mask.
pub proof fn lemma_cell_mask_of_empty_digits(encoding: Seq<char>, n: nat, r: nat, c: nat, k: nat)
    requires
        forall|i: nat| i < k ==> spec_nibble(#[trigger] spec_char_at(encoding, i)) == 0,
    ensures
        spec_cell_mask(encoding, n, r, c, k) == 0,
    decreases k,
{
    if k > 0 {
        lemma_cell_mask_of_empty_digits(encoding, n, r, c, (k - 1) as nat);
    }
}

/// A description in which every position reads as the empty mask, be it a
/// zero, no digit at all or past the end, stands for the grid without any
/// wall.
pub proof fn lemma_decode_of_empty_digits(encoding: Seq<char>, n: nat)
    requires
        forall|i: nat|
            i < spec_encoding_length(n) ==> spec_nibble(#[trigger] spec_char_at(encoding, i))
                == 0,
    ensures
        spec_decode(encoding, n) == spec_blank(n),
{
    let decoded = spec_decode(encoding, n);
    assert forall|r: int| 0 <= r < n implies #[trigger] decoded[r] == spec_blank(n)[r] by {
        assert forall|c: int| 0 <= c < n implies #[trigger] decoded[r][c] == 0 by {
            lemma_cell_mask_of_empty_digits(
                encoding,
                n,
                r as nat,
                c as nat,
                spec_encoding_length(n),
            );
        }
        assert(decoded[r] =~= spec_blank(n)[r]);
    }
    assert(decoded =~= spec_blank(n));
}

/// In a grid of even side no two positions are addressed to one cell.
pub proof fn lemma_even_addresses_differ(n: nat, i: nat, j: nat)
    requires
        n > 0,
        n % 2 == 0,
        spec_cell_row(i, n) == spec_cell_row(j, n),
        spec_cell_col(i, n) == spec_cell_col(j, n),
    ensures
        i == j,
{
    let half = n / 2;
    assert(n == 2 * half);
    assert((2 * i) / n == i / half && (2 * j) / n == j / half) by {
        lemma_div_denominator(2 * i as int, 2, half as int);
        lemma_div_denominator(2 * j as int, 2, half as int);
    }
    assert(i % half == j % half);
    lemma_fundamental_div_mod(i as int, half as int);
    lemma_fundamental_div_mod(j as int, half as int);
}

/// In a grid of even side every position has a cell of its own, so that
/// the grid holds each digit that was read in the cell it was addressed to.
pub proof fn lemma_decode_even(encoding: Seq<char>, n: nat, i: nat)
    requires
        n % 2 == 0,
        i < spec_encoding_length(n),
    ensures
        spec_cell_row(i, n) < n,
        spec_cell_col(i, n) < n,
        spec_decode(encoding, n)[spec_cell_row(i, n) as int][spec_cell_col(i, n) as int]
            == spec_nibble(spec_char_at(encoding, i)),
{
    lemma_address_in_grid(i, n);
    assert forall|j: nat| i < j < spec_encoding_length(n) implies !(spec_cell_row(j, n)
        == spec_cell_row(i, n) && spec_cell_col(j, n) == spec_cell_col(i, n)) by {
        if spec_cell_row(j, n) == spec_cell_row(i, n) && spec_cell_col(j, n) == spec_cell_col(
            i,
            n,
        ) {
            lemma_even_addresses_differ(n, i, j);
        }
    }
    lemma_cell_mask_last(encoding, n, i, spec_encoding_length(n));
}

/// A decoded grid is square, of the side asked for, and holds in every
/// cell a digit.
pub proof fn lemma_decode_shape(encoding: Seq<char>, n: nat)
    ensures
        spec_decode(encoding, n).len() == n,
        forall|r: int| 0 <= r < n ==> (#[trigger] spec_decode(encoding, n)[r]).len() == n,
        forall|r: int, c: int|
            0 <= r < n && 0 <= c < n ==> #[trigger] spec_decode(encoding, n)[r][c] < 16,
{
    assert forall|r: int, c: int| 0 <= r < n && 0 <= c < n implies #[trigger] spec_decode(
        encoding,
        n,
    )[r][c] < 16 by {
        lemma_cell_mask_is_nibble(encoding, n, r as nat, c as nat, spec_encoding_length(n));
    }
}

/// Decoding is a function of the description and the side: two grids
/// decoded from the same description for the same side are equal.
pub proof fn lemma_decode_deterministic(first: Grid, second: Grid, encoding: Seq<char>, size: u32)
    requires
        first@ == spec_decode(encoding, size as nat),
        second@ == spec_decode(encoding, size as nat),
    ensures
        first@ == second@,
{
}

/// Reading one more position changes the cell it is addressed to and no
/// other.
proof fn lemma_decode_step(encoding: Seq<char>, n: nat, k: nat)
    requires
        k < spec_encoding_length(n),
    ensures
        spec_decode_prefix(encoding, n, k + 1) == spec_decode_prefix(encoding, n, k).update(
            spec_cell_row(k, n) as int,
            spec_decode_prefix(encoding, n, k)[spec_cell_row(k, n) as int].update(
                spec_cell_col(k, n) as int,
                spec_nibble(spec_char_at(encoding, k)),
            ),
        ),
{
    lemma_address_in_grid(k, n);
    let before = spec_decode_prefix(encoding, n, k);
    let row = spec_cell_row(k, n) as int;
    let col = spec_cell_col(k, n) as int;
    let after = before.update(
        row,
        before[row].update(col, spec_nibble(spec_char_at(encoding, k))),
    );
    let target = spec_decode_prefix(encoding, n, k + 1);
    assert forall|r: int| 0 <= r < n implies #[trigger] target[r] == after[r] by {
        assert(target[r] =~= after[r]);
    }
    assert(target =~= after);
}

/// Decodes a description into the grid of side `size` that it stands for.
///
/// Positions `0` up to the encoding length are read in turn. Each reads the
/// character behind the prefix at its position, or the stand-in where the
/// description has ended, takes it as a hexadecimal digit, and stores the
/// digit in the cell that the position is addressed to. Cells that no
/// position is addressed to keep the empty mask. Nothing is rejected: what
/// is no digit reads as the empty mask.
pub fn decode(encoding: &str, size: u32) -> (grid: Grid)
    ensures
        grid.wf(),
        grid@ == spec_decode(encoding@, size as nat),
{
    let mut grid = Grid::blank(size);
    let available: u64 = encoding.unicode_len() as u64;
    let total: u64 = encoding_length(size);
    let mut i: u64 = 0;
    assert(grid@ =~= spec_decode_prefix(encoding@, size as nat, 0)) by {
        assert forall|r: int| 0 <= r < size implies #[trigger] grid@[r] =~= spec_decode_prefix(
            encoding@,
            size as nat,
            0,
        )[r] by {}
    }
    while i < total
        invariant
            i <= total,
            total == spec_encoding_length(size as nat),
            total <= 0x7fff_ffff_8000_0001,
            available == encoding@.len(),
            available <= usize::MAX,
            grid.wf(),
            grid@ == spec_decode_prefix(encoding@, size as nat, i as nat),
        decreases total - i,
    {
        let digit: char = if i + PREFIX_LEN < available {
            encoding.get_char((i + PREFIX_LEN) as usize)
        } else {
            NO_VALUE
        };
        let mask: u8 = nibble(digit);
        proof {
            lemma_address_in_grid(i as nat, size as nat);
            lemma_decode_step(encoding@, size as nat, i as nat);
        }
        match cell_address(i, size) {
            Some((r, c)) => {
                grid.store(r, c, mask);
            },
            None => {},
        }
        i = i + 1;
    }
    grid
}

} // verus!
