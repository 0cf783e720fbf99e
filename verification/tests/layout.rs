use micromouse_maze::decoder::{decode, Grid};
use micromouse_maze::layout::{
    generate, BoxShape, Element, LayoutParams, MaterialTag, Origin, Transform,
};

fn count(elements: &[Element], tag: MaterialTag) -> usize {
    elements.iter().filter(|e| e.material_tag == tag).count()
}

/// The transform of a place given in tenths, at scale one on the default
/// origin, where a place is in hundredths.
fn at(x: i128, z: i128, quarter_turns: u8) -> Transform {
    Transform { x: 10 * x, y: 0, z: 10 * z, quarter_turns, scale_tenths: 10 }
}

fn cuboid(width: u128, height: u128, depth: u128) -> BoxShape {
    BoxShape { width, height, depth }
}

const NONE: BoxShape = BoxShape { width: 0, height: 0, depth: 0 };

#[test]
fn default_measures() {
    assert_eq!(
        LayoutParams::default(),
        LayoutParams { cell_space: 160, wall_height: 50, wall_width: 12, vertex_side: 12 }
    );
    assert_eq!(Origin::default(), Origin::new(0, 0, 0, 10));
    assert_eq!(Origin::default().x(), 0);
    assert_eq!(Origin::default().y(), 0);
    assert_eq!(Origin::default().z(), 0);
    assert_eq!(Origin::default().scale_tenths(), 10);
}

#[test]
fn scene_of_a_maze_without_walls() {
    let grid = decode("0x0", 16);
    let elements = generate(&grid, &LayoutParams::default(), &Origin::default());
    assert_eq!(elements.len(), 1 + 225 + 4);
    assert_eq!(count(&elements, MaterialTag::StartMarker), 1);
    assert_eq!(count(&elements, MaterialTag::Vertex), 15 * 15);
    assert_eq!(count(&elements, MaterialTag::OuterWall), 4);
    assert_eq!(count(&elements, MaterialTag::InnerWall), 0);
    assert_eq!(elements[0].material_tag, MaterialTag::StartMarker);
    assert!(elements[1..226].iter().all(|e| e.material_tag == MaterialTag::Vertex));
    assert!(elements[226..230].iter().all(|e| e.material_tag == MaterialTag::OuterWall));
}

#[test]
fn scene_of_one_walled_cell() {
    let grid = decode("0xf", 2);
    let elements = generate(&grid, &LayoutParams::default(), &Origin::default());
    assert_eq!(elements.len(), 1 + 1 + 4 + 4);
    assert_eq!(count(&elements, MaterialTag::InnerWall), 4);
    let shape = cuboid(120, 500, 1600);
    let collider = cuboid(60, 250, 800);
    let expected = [at(1600, 800, 0), at(800, 1600, 1), at(0, 800, 0), at(800, 0, 1)];
    for d in 0..4 {
        assert_eq!(
            elements[6 + d],
            Element {
                shape,
                transform: expected[d],
                material_tag: MaterialTag::InnerWall,
                has_collider: true,
                collider,
            }
        );
    }
}

#[test]
fn start_marker_stands_on_the_origin() {
    let elements = generate(&Grid::blank(3), &LayoutParams::default(), &Origin::default());
    assert_eq!(
        elements[0],
        Element {
            shape: cuboid(240, 1000, 240),
            transform: at(0, 0, 0),
            material_tag: MaterialTag::StartMarker,
            has_collider: false,
            collider: NONE,
        }
    );
}

#[test]
fn posts_stand_on_the_crossings_inside() {
    let elements = generate(&Grid::blank(3), &LayoutParams::default(), &Origin::default());
    assert_eq!(elements.len(), 1 + 4 + 4);
    let expected = [at(1600, 1600, 0), at(1600, 3200, 0), at(3200, 1600, 0), at(3200, 3200, 0)];
    for k in 0..4 {
        assert_eq!(
            elements[1 + k],
            Element {
                shape: cuboid(108, 450, 108),
                transform: expected[k],
                material_tag: MaterialTag::Vertex,
                has_collider: false,
                collider: NONE,
            }
        );
    }
}

#[test]
fn outer_walls_stand_on_the_middle_of_each_side() {
    let elements = generate(&Grid::blank(2), &LayoutParams::default(), &Origin::default());
    let expected = [at(3200, 1600, 1), at(1600, 3200, 0), at(0, 1600, 1), at(1600, 0, 0)];
    for side in 0..4 {
        assert_eq!(
            elements[2 + side],
            Element {
                shape: cuboid(3200, 550, 132),
                transform: expected[side],
                material_tag: MaterialTag::OuterWall,
                has_collider: true,
                collider: cuboid(1600, 250, 60),
            }
        );
    }
}

#[test]
fn inner_walls_follow_the_bits_of_the_mask() {
    let params = LayoutParams { cell_space: 2, wall_height: 3, wall_width: 4, vertex_side: 5 };
    let mut grid = Grid::blank(2);
    assert!(grid.store(0, 1, 0b0101));
    assert!(grid.store(1, 0, 0b1010));
    let elements = generate(&grid, &params, &Origin::default());
    let walls: Vec<Transform> = elements[6..].iter().map(|e| e.transform).collect();
    // Half a cell is ten tenths. Cell (0, 1) has its middle at (1, 3) half
    // cells, cell (1, 0) at (3, 1).
    assert_eq!(walls, vec![at(20, 30, 0), at(0, 30, 0), at(30, 20, 1), at(30, 0, 1)]);
    for wall in &elements[6..] {
        assert_eq!(wall.shape, cuboid(40, 30, 20));
        assert_eq!(wall.collider, cuboid(20, 15, 10));
        assert!(wall.has_collider);
        assert_eq!(wall.material_tag, MaterialTag::InnerWall);
    }
}

#[test]
fn bits_above_the_four_walls_are_ignored() {
    let mut grid = Grid::blank(1);
    assert!(grid.store(0, 0, 0xf0));
    let elements = generate(&grid, &LayoutParams::default(), &Origin::default());
    assert_eq!(elements.len(), 5);
    assert!(grid.store(0, 0, 0xf2));
    let elements = generate(&grid, &LayoutParams::default(), &Origin::default());
    assert_eq!(elements.len(), 6);
    assert_eq!(elements[5].transform, at(800, 1600, 1));
}

#[test]
fn walls_come_row_by_row() {
    let grid = decode("0x12345678", 4);
    let elements = generate(&grid, &LayoutParams::default(), &Origin::default());
    let posts = 9;
    let walls: Vec<(i128, i128)> =
        elements[5 + posts..].iter().map(|e| (e.transform.x, e.transform.z)).collect();
    let half = 8000;
    let expected: Vec<(i128, i128)> = vec![
        // (0, 0) holds 1
        (2, 1),
        // (0, 2) holds 2
        (1, 6),
        // (1, 1) holds 3
        (4, 3),
        (3, 4),
        // (1, 3) holds 4
        (2, 7),
        // (2, 0) holds 5
        (6, 1),
        (4, 1),
        // (2, 2) holds 6
        (5, 6),
        (4, 5),
        // (3, 1) holds 7
        (8, 3),
        (7, 4),
        (6, 3),
        // (3, 3) holds 8
        (7, 6),
    ]
    .into_iter()
    .map(|(x, z)| (x * half, z * half))
    .collect();
    assert_eq!(walls, expected);
}

#[test]
fn transforms_are_composed_with_the_origin() {
    let origin = Origin::new(-100, 7, 50, 30);
    let plain = generate(&decode("0xf", 2), &LayoutParams::default(), &Origin::default());
    let moved = generate(&decode("0xf", 2), &LayoutParams::default(), &origin);
    assert_eq!(plain.len(), moved.len());
    for (p, m) in plain.iter().zip(moved.iter()) {
        assert_eq!(m.transform.x, -100 + 3 * p.transform.x);
        assert_eq!(m.transform.y, 7);
        assert_eq!(m.transform.z, 50 + 3 * p.transform.z);
        assert_eq!(m.transform.quarter_turns, p.transform.quarter_turns);
        assert_eq!(m.transform.scale_tenths, 30);
        assert_eq!(p.transform.scale_tenths, 10);
        assert_eq!(m.shape, p.shape);
        assert_eq!(m.collider, p.collider);
        assert_eq!(m.material_tag, p.material_tag);
        assert_eq!(m.has_collider, p.has_collider);
    }
}

#[test]
fn scenes_of_degenerate_sides() {
    let elements = generate(&Grid::blank(0), &LayoutParams::default(), &Origin::default());
    assert_eq!(elements.len(), 5);
    assert_eq!(count(&elements, MaterialTag::OuterWall), 4);
    assert!(elements[1..].iter().all(|e| e.shape == cuboid(0, 550, 132)));
    assert!(elements[1..].iter().all(|e| e.transform.x == 0 && e.transform.z == 0));
    assert!(elements.iter().all(|e| e.transform.scale_tenths == 10));
    let elements = generate(&decode("0xf", 1), &LayoutParams::default(), &Origin::default());
    assert_eq!(elements.len(), 1 + 4 + 4);
    assert_eq!(count(&elements, MaterialTag::Vertex), 0);
    assert_eq!(count(&elements, MaterialTag::InnerWall), 4);
}

#[test]
fn the_largest_measures_do_not_overflow() {
    let params = LayoutParams {
        cell_space: u32::MAX,
        wall_height: u32::MAX,
        wall_width: u32::MAX,
        vertex_side: u32::MAX,
    };
    let origin = Origin::new(i64::MAX, i64::MIN, i64::MIN, u32::MAX);
    let elements = generate(&decode("0xf", 2), &params, &origin);
    let max = u32::MAX as i128;
    let half = 5 * max;
    assert_eq!(elements[0].shape, cuboid(20 * max as u128, 20 * max as u128, 20 * max as u128));
    assert_eq!(elements[2].transform.x, i64::MAX as i128 + max * (4 * half));
    assert_eq!(elements[2].transform.y, i64::MIN as i128);
    assert_eq!(elements[2].transform.z, i64::MIN as i128 + max * (2 * half));
    assert_eq!(elements[2].shape, cuboid(4 * half as u128, 11 * max as u128, 11 * max as u128));
    assert_eq!(elements[2].collider, cuboid(2 * half as u128, half as u128, half as u128));
}

#[test]
fn generate_is_deterministic() {
    let grid = decode("0x1a2b3c4d", 4);
    let origin = Origin::new(3, 4, 5, 20);
    let first = generate(&grid, &LayoutParams::default(), &origin);
    let second = generate(&grid, &LayoutParams::default(), &origin);
    assert_eq!(first, second);
}

#[test]
fn scale_is_in_tenths() {
    let halved = generate(&decode("0xf", 2), &LayoutParams::default(), &Origin::new(0, 0, 0, 5));
    let plain = generate(&decode("0xf", 2), &LayoutParams::default(), &Origin::default());
    for (h, p) in halved.iter().zip(plain.iter()) {
        assert_eq!(2 * h.transform.x, p.transform.x);
        assert_eq!(2 * h.transform.z, p.transform.z);
        assert_eq!(h.transform.scale_tenths, 5);
        assert_eq!(h.shape, p.shape);
    }
    // The wall of cell (0, 0) along: 16 units along and 8 across at scale
    // one, which is 8 and 4 units, in hundredths of a tenth, at one half.
    assert_eq!((halved[6].transform.x, halved[6].transform.z), (8000, 4000));
}

#[test]
fn centred_origin_is_back_by_half_the_scaled_side() {
    let params = LayoutParams::default();
    let origin = Origin::centred(&params, 16, 5, 1000);
    assert_eq!(origin.x(), -64000);
    assert_eq!(origin.y(), 1000);
    assert_eq!(origin.z(), -64000);
    assert_eq!(origin.scale_tenths(), 5);
    let origin = Origin::centred(&params, 0, 5, -3);
    assert_eq!((origin.x(), origin.y(), origin.z()), (0, -3, 0));
    let origin = Origin::centred(&params, 3, 10, 0);
    assert_eq!((origin.x(), origin.z()), (-24000, -24000));
}

#[test]
fn centred_maze_is_balanced_about_the_middle() {
    let params = LayoutParams::default();
    let origin = Origin::centred(&params, 2, 5, 1000);
    let elements = generate(&Grid::blank(2), &params, &origin);
    // start marker on the corner, the one post on the middle
    assert_eq!((elements[0].transform.x, elements[0].transform.z), (-8000, -8000));
    assert_eq!((elements[1].transform.x, elements[1].transform.z), (0, 0));
    // the four walls around
    assert_eq!((elements[2].transform.x, elements[2].transform.z), (8000, 0));
    assert_eq!((elements[3].transform.x, elements[3].transform.z), (0, 8000));
    assert_eq!((elements[4].transform.x, elements[4].transform.z), (-8000, 0));
    assert_eq!((elements[5].transform.x, elements[5].transform.z), (0, -8000));
    assert!(elements.iter().all(|e| e.transform.y == 1000 && e.transform.scale_tenths == 5));
}

#[test]
fn the_largest_centred_maze_does_not_overflow() {
    let params = LayoutParams {
        cell_space: u32::MAX,
        wall_height: u32::MAX,
        wall_width: u32::MAX,
        vertex_side: u32::MAX,
    };
    let max = u32::MAX as i128;
    let origin = Origin::centred(&params, u32::MAX, u32::MAX, i64::MIN);
    assert_eq!(origin.x(), -(max * (max * (5 * max))));
    assert_eq!(origin.z(), -(max * (max * (5 * max))));
    assert_eq!(origin.y(), i64::MIN as i128);
    let origin = Origin::centred(&params, 2, u32::MAX, i64::MAX);
    let elements = generate(&decode("0xf", 2), &params, &origin);
    assert_eq!(elements[1].transform.x, 0);
    assert_eq!(elements[2].transform.x, max * (2 * (5 * max)));
    assert_eq!(elements[4].transform.x, -(max * (2 * (5 * max))));
}
