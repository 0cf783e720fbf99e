use micromouse_maze::decoder::{cell_address, decode, encoding_length, nibble, Grid};

fn masks(grid: &Grid) -> Vec<Vec<u8>> {
    let n = grid.size();
    (0..n).map(|r| (0..n).map(|c| grid.mask(r, c).unwrap()).collect()).collect()
}

#[test]
fn nibble_reads_hex_digits() {
    assert_eq!(nibble('f'), 15);
    assert_eq!(nibble('F'), 15);
    assert_eq!(nibble('0'), 0);
    assert_eq!(nibble('1'), 1);
    assert_eq!(nibble('9'), 9);
    assert_eq!(nibble('a'), 10);
    assert_eq!(nibble('A'), 10);
    assert_eq!(nibble('c'), 12);
    assert_eq!(nibble('E'), 14);
}

#[test]
fn nibble_of_anything_else_is_empty() {
    for c in ['g', 'G', 'x', ' ', '\0', '+', '-', '_', '/', ':', '@', '`', 'é', '٣', '\u{10ffff}'] {
        assert_eq!(nibble(c), 0, "{:?}", c);
    }
}

#[test]
fn encoding_length_is_half_the_cells_rounded_up() {
    assert_eq!(encoding_length(0), 0);
    assert_eq!(encoding_length(1), 1);
    assert_eq!(encoding_length(2), 2);
    assert_eq!(encoding_length(3), 5);
    assert_eq!(encoding_length(4), 8);
    assert_eq!(encoding_length(5), 13);
    assert_eq!(encoding_length(16), 128);
    assert_eq!(encoding_length(u32::MAX), 9223372032559808513);
}

#[test]
fn index_formula_for_side_four() {
    let expected: [(u32, u32); 8] =
        [(0, 0), (0, 2), (1, 1), (1, 3), (2, 0), (2, 2), (3, 1), (3, 3)];
    for i in 0..8u64 {
        let n: u64 = 4;
        let r = 2 * i / n;
        let c = (i % (n / 2)) * 2 + (1 - n % 2) * (r % 2);
        assert_eq!(cell_address(i, 4), Some((r as u32, c as u32)));
        assert_eq!(cell_address(i, 4), Some(expected[i as usize]));
    }
    assert_eq!(cell_address(8, 4), None);
}

#[test]
fn index_formula_for_side_two() {
    assert_eq!(cell_address(0, 2), Some((0, 0)));
    assert_eq!(cell_address(1, 2), Some((1, 1)));
    assert_eq!(cell_address(2, 2), None);
}

#[test]
fn index_formula_for_odd_sides() {
    let expected: [(u32, u32); 5] = [(0, 0), (0, 0), (1, 0), (2, 0), (2, 0)];
    for i in 0..5u64 {
        assert_eq!(cell_address(i, 3), Some(expected[i as usize]));
    }
    assert_eq!(cell_address(5, 3), None);
    let expected: [(u32, u32); 13] = [
        (0, 0),
        (0, 2),
        (0, 0),
        (1, 2),
        (1, 0),
        (2, 2),
        (2, 0),
        (2, 2),
        (3, 0),
        (3, 2),
        (4, 0),
        (4, 2),
        (4, 0),
    ];
    for i in 0..13u64 {
        assert_eq!(cell_address(i, 5), Some(expected[i as usize]));
    }
}

#[test]
fn index_formula_for_degenerate_sides() {
    assert_eq!(cell_address(0, 0), None);
    assert_eq!(cell_address(0, 1), Some((0, 0)));
    assert_eq!(cell_address(1, 1), None);
}

#[test]
fn index_formula_stays_inside_large_grids() {
    let n: u32 = u32::MAX;
    let last = encoding_length(n) - 1;
    assert_eq!(cell_address(last, n), Some((n - 1, 0)));
    let n: u32 = u32::MAX - 1;
    let last = encoding_length(n) - 1;
    assert_eq!(cell_address(last, n), Some((n - 1, n - 1)));
}

#[test]
fn decode_without_walls() {
    let grid = decode("0x0", 16);
    assert_eq!(grid.size(), 16);
    assert_eq!(masks(&grid), vec![vec![0u8; 16]; 16]);
    assert_eq!(grid, Grid::blank(16));
}

#[test]
fn decode_single_digit_in_side_two() {
    let grid = decode("0xf", 2);
    assert_eq!(encoding_length(2), 2);
    assert_eq!(masks(&grid), vec![vec![15, 0], vec![0, 0]]);
}

#[test]
fn decode_places_each_digit_in_an_even_grid() {
    let grid = decode("0x12345678", 4);
    assert_eq!(
        masks(&grid),
        vec![vec![1, 0, 2, 0], vec![0, 3, 0, 4], vec![5, 0, 6, 0], vec![0, 7, 0, 8]]
    );
}

#[test]
fn decode_keeps_the_last_digit_of_a_cell_in_an_odd_grid() {
    let grid = decode("0x12345", 3);
    assert_eq!(masks(&grid), vec![vec![2, 0, 0], vec![3, 0, 0], vec![5, 0, 0]]);
}

#[test]
fn decode_ignores_the_prefix_whatever_it_is() {
    assert_eq!(decode("0xab", 2), decode("zzab", 2));
    assert_eq!(decode("ffab", 2), decode("0xab", 2));
    assert_eq!(masks(&decode("ffab", 2)), vec![vec![10, 0], vec![0, 11]]);
}

#[test]
fn decode_reads_missing_positions_as_empty() {
    assert_eq!(decode("", 4), Grid::blank(4));
    assert_eq!(decode("0", 4), Grid::blank(4));
    assert_eq!(decode("0x", 4), Grid::blank(4));
    assert_eq!(
        masks(&decode("0xc", 4)),
        vec![vec![12, 0, 0, 0], vec![0; 4], vec![0; 4], vec![0; 4]]
    );
}

#[test]
fn decode_reads_what_is_no_digit_as_empty() {
    assert_eq!(masks(&decode("0xgF", 2)), vec![vec![0, 0], vec![0, 15]]);
    assert_eq!(masks(&decode("0x-7", 2)), vec![vec![0, 0], vec![0, 7]]);
    assert_eq!(masks(&decode("0x 3", 2)), vec![vec![0, 0], vec![0, 3]]);
}

#[test]
fn decode_counts_characters_not_bytes() {
    assert_eq!(masks(&decode("0xéf", 2)), vec![vec![0, 0], vec![0, 15]]);
    assert_eq!(masks(&decode("éé9a", 2)), vec![vec![9, 0], vec![0, 10]]);
}

#[test]
fn decode_ignores_digits_past_the_encoding_length() {
    assert_eq!(decode("0x12ffff", 2), decode("0x12", 2));
    assert_eq!(masks(&decode("0x12ffff", 2)), vec![vec![1, 0], vec![0, 2]]);
}

#[test]
fn decode_of_degenerate_sides() {
    let grid = decode("0xf", 0);
    assert_eq!(grid.size(), 0);
    assert_eq!(grid.mask(0, 0), None);
    let grid = decode("0xf", 1);
    assert_eq!(masks(&grid), vec![vec![15]]);
}

#[test]
fn decode_is_deterministic() {
    let first = decode("0x1a2b3c4d", 4);
    let second = decode("0x1a2b3c4d", 4);
    assert_eq!(first, second);
    assert_eq!(masks(&first), masks(&second));
}

#[test]
fn grid_stores_inside_only() {
    let mut grid = Grid::blank(2);
    assert!(grid.store(1, 0, 9));
    assert!(!grid.store(2, 0, 9));
    assert!(!grid.store(0, 2, 9));
    assert_eq!(masks(&grid), vec![vec![0, 0], vec![9, 0]]);
    assert_eq!(grid.mask(1, 0), Some(9));
    assert_eq!(grid.mask(2, 0), None);
    assert_eq!(grid.mask(0, 2), None);
}
