//! Layout of a decoded maze as a list of scene elements.
//!
//! Lengths are whole numbers. The parameters are given in a unit of the
//! caller's choice; every length of a shape is in tenths of that unit, so
//! that the factors of the layout (nine tenths, eleven tenths, one half) stay
//! exact. A scale is in tenths too, so that a maze can be shown at half its
//! size, and a place in the scene, which is a scaled length, is in
//! hundredths of the unit. Inside the maze places are counted in half cells
//! from its corner, and a rotation is a number of quarter turns about the
//! vertical axis.

use vstd::prelude::*;
use vstd::arithmetic::mul::lemma_mul_upper_bound;
use vstd::arithmetic::div_mod::lemma_fundamental_div_mod_converse;
use crate::decoder::{spec_blank, Grid};

verus! {

/// Measures of the maze, in the caller's unit.
#[derive(Clone, Copy, Debug, PartialEq, Eq)]
pub struct LayoutParams {
    /// Side of one cell.
    pub cell_space: u32,
    /// Height of a wall.
    pub wall_height: u32,
    /// Thickness of a wall.
    pub wall_width: u32,
    /// Side of the post at a corner between cells.
    pub vertex_side: u32,
}

/// Where the maze stands: the place of its corner in the scene, in
/// hundredths of the unit, and a uniform scale, in tenths. The place is
/// never further from the middle of the scene than [`ORIGIN_MAX`].
#[derive(Clone, Copy, Debug, PartialEq, Eq)]
pub struct Origin {
    x: i128,
    y: i128,
    z: i128,
    scale_tenths: u32,
}

/// An origin as plain values.
pub struct OriginView {
    pub x: int,
    pub y: int,
    pub z: int,
    pub scale_tenths: nat,
}

impl View for Origin {
    type V = OriginView;

    closed spec fn view(&self) -> OriginView {
        OriginView {
            x: self.x as int,
            y: self.y as int,
            z: self.z as int,
            scale_tenths: self.scale_tenths as nat,
        }
    }
}

/// What an element is, which decides its look.
#[derive(Clone, Copy, Debug, PartialEq, Eq)]
pub enum MaterialTag {
    Vertex,
    OuterWall,
    InnerWall,
    StartMarker,
}

/// A box by its three dimensions.
#[derive(Clone, Copy, Debug, PartialEq, Eq)]
pub struct BoxShape {
    pub width: u128,
    pub height: u128,
    pub depth: u128,
}

/// Place, rotation and scale of an element in the scene.
#[derive(Clone, Copy, Debug, PartialEq, Eq)]
pub struct Transform {
    pub x: i128,
    pub y: i128,
    pub z: i128,
    /// Quarter turns about the vertical axis.
    pub quarter_turns: u8,
    /// Uniform scale, in tenths.
    pub scale_tenths: u32,
}

/// One box of the scene. `collider` holds the half extents of the body that
/// stands for the element in collisions, and is all zero where
/// `has_collider` is false.
#[derive(Clone, Copy, Debug, PartialEq, Eq)]
pub struct Element {
    pub shape: BoxShape,
    pub transform: Transform,
    pub material_tag: MaterialTag,
    pub has_collider: bool,
    pub collider: BoxShape,
}

/// The usual measures, in tenths of a unit of the scene: cells of sixteen
/// units, walls five units high and 1.2 thick, posts of side 1.2.
pub open spec fn spec_default_params() -> LayoutParams {
    LayoutParams { cell_space: 160, wall_height: 50, wall_width: 12, vertex_side: 12 }
}

/// The origin that leaves the maze where it is: its corner on the middle
/// of the scene, at scale one.
pub open spec fn spec_default_origin() -> OriginView {
    OriginView { x: 0, y: 0, z: 0, scale_tenths: 10 }
}

/// Whether the place of an origin is within reach: what every origin
/// holds of.
pub open spec fn spec_origin_in_range(origin: OriginView) -> bool {
    &&& -ORIGIN_MAX <= origin.x <= ORIGIN_MAX
    &&& -ORIGIN_MAX <= origin.y <= ORIGIN_MAX
    &&& -ORIGIN_MAX <= origin.z <= ORIGIN_MAX
    &&& origin.scale_tenths <= u32::MAX
}

/// The origin that puts the middle of a maze of side `size` on the middle
/// of the scene, `lift` above the floor: the corner is back by half the
/// scaled side, along and across.
pub open spec fn spec_centred(
    params: LayoutParams,
    size: u32,
    scale_tenths: u32,
    lift: i64,
) -> OriginView {
    OriginView {
        x: -(scale_tenths * (size * spec_half_cell(params))),
        y: lift as int,
        z: -(scale_tenths * (size * spec_half_cell(params))),
        scale_tenths: scale_tenths as nat,
    }
}

impl Default for LayoutParams {
    fn default() -> (params: LayoutParams)
        ensures
            params == spec_default_params(),
    {
        LayoutParams { cell_space: 160, wall_height: 50, wall_width: 12, vertex_side: 12 }
    }
}

impl Origin {
    #[verifier::type_invariant]
    spec fn in_range(self) -> bool {
        spec_origin_in_range(self@)
    }

    /// The origin with the maze's corner on the given place, at the given
    /// scale.
    pub fn new(x: i64, y: i64, z: i64, scale_tenths: u32) -> (origin: Origin)
        ensures
            origin@ == (OriginView {
                x: x as int,
                y: y as int,
                z: z as int,
                scale_tenths: scale_tenths as nat,
            }),
            spec_origin_in_range(origin@),
    {
        Origin { x: x as i128, y: y as i128, z: z as i128, scale_tenths }
    }

    /// The origin that puts the middle of a maze of side `size` on the
    /// middle of the scene, `lift` above the floor, at the given scale.
    pub fn centred(params: &LayoutParams, size: u32, scale_tenths: u32, lift: i64) -> (origin:
        Origin)
        ensures
            origin@ == spec_centred(*params, size, scale_tenths, lift),
            spec_origin_in_range(origin@),
    {
        let half: u128 = half_cell(params);
        proof {
            lemma_mul_upper_bound(size as int, u32::MAX as int, half as int, HALF_CELL_MAX as int);
        }
        let reach: u128 = (size as u128) * half;
        proof {
            lemma_mul_upper_bound(
                scale_tenths as int,
                u32::MAX as int,
                reach as int,
                u32::MAX * HALF_CELL_MAX,
            );
        }
        let back: u128 = (scale_tenths as u128) * reach;
        let corner: i128 = -(back as i128);
        Origin { x: corner, y: lift as i128, z: corner, scale_tenths }
    }

    /// Place of the maze's corner along.
    pub fn x(&self) -> (x: i128)
        ensures
            x == self@.x,
    {
        self.x
    }

    /// Height of the maze's corner.
    pub fn y(&self) -> (y: i128)
        ensures
            y == self@.y,
    {
        self.y
    }

    /// Place of the maze's corner across.
    pub fn z(&self) -> (z: i128)
        ensures
            z == self@.z,
    {
        self.z
    }

    /// Scale of the maze, in tenths.
    pub fn scale_tenths(&self) -> (scale_tenths: u32)
        ensures
            scale_tenths == self@.scale_tenths,
    {
        self.scale_tenths
    }
}

impl Default for Origin {
    fn default() -> (origin: Origin)
        ensures
            origin@ == spec_default_origin(),
    {
        Origin::new(0, 0, 0, 10)
    }
}

/// Number of wall directions of a cell.
pub const DIRECTIONS: u8 = 4;

/// Largest count of half cells that a place is given in: twice the largest
/// side, and two more.
pub const HALF_CELLS_MAX: u64 = 0x2_0000_0000;

/// Largest length of half a cell.
pub const HALF_CELL_MAX: u128 = 5 * 0xffff_ffff;

/// Largest distance of a place from the maze's corner.
pub const DISTANCE_MAX: u128 = 0x2_0000_0000 * (5 * 0xffff_ffff);

/// Largest distance of the maze's corner from the middle of the scene,
/// along, up or across: half the largest side at the largest scale.
pub const ORIGIN_MAX: i128 = 0xffff_ffff * (0xffff_ffff * (5 * 0xffff_ffff));

pub open spec fn spec_box(width: int, height: int, depth: int) -> BoxShape {
    BoxShape { width: width as u128, height: height as u128, depth: depth as u128 }
}

/// Length of half a cell, in tenths of the parameters' unit.
pub open spec fn spec_half_cell(params: LayoutParams) -> int {
    5 * params.cell_space
}

/// The maze's own transform of an element `hx` and `hz` half cells from its
/// corner, composed with the origin: the place is scaled and moved by the
/// origin, the rotation is kept, and the scale is the origin's. A length in
/// tenths times a scale in tenths is a place in hundredths.
pub open spec fn spec_place(
    params: LayoutParams,
    origin: OriginView,
    hx: int,
    hz: int,
    quarter_turns: u8,
) -> Transform {
    Transform {
        x: (origin.x + origin.scale_tenths * (hx * spec_half_cell(params))) as i128,
        y: origin.y as i128,
        z: (origin.z + origin.scale_tenths * (hz * spec_half_cell(params))) as i128,
        quarter_turns,
        scale_tenths: origin.scale_tenths as u32,
    }
}

/// The marker of the start: a post of twice the usual measures on the
/// maze's corner.
pub open spec fn spec_start_marker(params: LayoutParams, origin: OriginView) -> Element {
    Element {
        shape: spec_box(
            20 * params.vertex_side,
            20 * params.wall_height,
            20 * params.vertex_side,
        ),
        transform: spec_place(params, origin, 0, 0, 0),
        material_tag: MaterialTag::StartMarker,
        has_collider: false,
        collider: spec_box(0, 0, 0),
    }
}

/// The post on the crossing `i` cells along and `j` cells across.
pub open spec fn spec_vertex_post(params: LayoutParams, origin: OriginView, i: int, j: int) -> Element {
    Element {
        shape: spec_box(9 * params.vertex_side, 9 * params.wall_height, 9 * params.vertex_side),
        transform: spec_place(params, origin, 2 * i, 2 * j, 0),
        material_tag: MaterialTag::Vertex,
        has_collider: false,
        collider: spec_box(0, 0, 0),
    }
}

/// Middle of side `side` of a maze of side `n`, in half cells, and the
/// quarter turns of the wall along it. The sides come in the order far
/// along, far across, near along, near across.
pub open spec fn spec_side_place(n: int, side: int) -> (int, int, u8) {
    if side == 0 {
        (2 * n, n, 1u8)
    } else if side == 1 {
        (n, 2 * n, 0u8)
    } else if side == 2 {
        (0, n, 1u8)
    } else {
        (n, 0, 0u8)
    }
}

/// The wall along side `side` of a maze of side `n`. Its body in collisions
/// has the wall's plain measures, one tenth less than what is drawn.
pub open spec fn spec_outer_wall(params: LayoutParams, origin: OriginView, n: int, side: int) -> Element {
    let (hx, hz, quarter_turns) = spec_side_place(n, side);
    Element {
        shape: spec_box(
            2 * n * spec_half_cell(params),
            11 * params.wall_height,
            11 * params.wall_width,
        ),
        transform: spec_place(params, origin, hx, hz, quarter_turns),
        material_tag: MaterialTag::OuterWall,
        has_collider: true,
        collider: spec_box(
            n * spec_half_cell(params),
            5 * params.wall_height,
            5 * params.wall_width,
        ),
    }
}

/// Bit of a cell's mask that stands for the wall in direction `d`.
pub open spec fn spec_wall_bit(d: int) -> u8 {
    if d == 0 {
        1u8
    } else if d == 1 {
        2u8
    } else if d == 2 {
        4u8
    } else {
        8u8
    }
}

/// Whether a mask has the wall in direction `d`.
pub open spec fn spec_has_wall(mask: u8, d: int) -> bool {
    mask & spec_wall_bit(d) == spec_wall_bit(d)
}

/// Step from the middle of a cell to its wall in direction `d`, in half
/// cells along and across.
pub open spec fn spec_wall_step(d: int) -> (int, int) {
    if d == 0 {
        (1, 0)
    } else if d == 1 {
        (0, 1)
    } else if d == 2 {
        (-1, 0)
    } else {
        (0, -1)
    }
}

/// Quarter turns of the wall in direction `d`: none, one, none, one.
pub open spec fn spec_wall_turns(d: int) -> u8 {
    if d == 1 || d == 3 {
        1u8
    } else {
        0u8
    }
}

/// The wall of cell `(r, c)` in direction `d`, half a cell from the middle
/// of the cell.
pub open spec fn spec_inner_wall(
    params: LayoutParams,
    origin: OriginView,
    r: int,
    c: int,
    d: int,
) -> Element {
    let (dx, dz) = spec_wall_step(d);
    Element {
        shape: spec_box(
            10 * params.wall_width,
            10 * params.wall_height,
            2 * spec_half_cell(params),
        ),
        transform: spec_place(
            params,
            origin,
            2 * r + 1 + dx,
            2 * c + 1 + dz,
            spec_wall_turns(d),
        ),
        material_tag: MaterialTag::InnerWall,
        has_collider: true,
        collider: spec_box(5 * params.wall_width, 5 * params.wall_height, spec_half_cell(params)),
    }
}

/// The posts of a maze of side `n`, one on each crossing inside it, those
/// further along last and, among these, those further across last.
pub open spec fn spec_vertex_posts(params: LayoutParams, origin: OriginView, n: int) -> Seq<Element> {
    if n <= 1 {
        Seq::empty()
    } else {
        Seq::new(
            ((n - 1) * (n - 1)) as nat,
            |k: int| spec_vertex_post(params, origin, 1 + k / (n - 1), 1 + k % (n - 1)),
        )
    }
}

/// The four walls around a maze of side `n`.
pub open spec fn spec_outer_walls(params: LayoutParams, origin: OriginView, n: int) -> Seq<Element> {
    Seq::new(4, |side: int| spec_outer_wall(params, origin, n, side))
}

/// The wall of cell `(r, c)` in direction `d`, where its mask has one:
/// one element or none.
pub open spec fn spec_wall_if(
    params: LayoutParams,
    origin: OriginView,
    r: int,
    c: int,
    mask: u8,
    d: int,
) -> Seq<Element> {
    if spec_has_wall(mask, d) {
        seq![spec_inner_wall(params, origin, r, c, d)]
    } else {
        Seq::empty()
    }
}

/// The walls of cell `(r, c)` by direction.
pub open spec fn spec_cell_parts(
    params: LayoutParams,
    origin: OriginView,
    r: int,
    c: int,
    mask: u8,
) -> Seq<Seq<Element>> {
    Seq::new(DIRECTIONS as nat, |d: int| spec_wall_if(params, origin, r, c, mask, d))
}

/// The walls of cell `(r, c)`: one for each direction that its mask has, in
/// the order of the directions.
pub open spec fn spec_cell_walls(
    params: LayoutParams,
    origin: OriginView,
    r: int,
    c: int,
    mask: u8,
) -> Seq<Element> {
    spec_cell_parts(params, origin, r, c, mask).flatten()
}

/// The walls of row `r` by cell.
pub open spec fn spec_row_parts(
    grid: Seq<Seq<u8>>,
    params: LayoutParams,
    origin: OriginView,
    r: int,
) -> Seq<Seq<Element>> {
    Seq::new(grid.len(), |c: int| spec_cell_walls(params, origin, r, c, grid[r][c]))
}

/// The walls of row `r`: those of its cells, one cell after the other.
pub open spec fn spec_row_walls(
    grid: Seq<Seq<u8>>,
    params: LayoutParams,
    origin: OriginView,
    r: int,
) -> Seq<Element> {
    spec_row_parts(grid, params, origin, r).flatten()
}

/// The walls inside a maze by row.
pub open spec fn spec_grid_parts(grid: Seq<Seq<u8>>, params: LayoutParams, origin: OriginView) -> Seq<
    Seq<Element>,
> {
    Seq::new(grid.len(), |r: int| spec_row_walls(grid, params, origin, r))
}

/// The walls inside a maze: those of its rows, one row after the other.
pub open spec fn spec_inner_walls(grid: Seq<Seq<u8>>, params: LayoutParams, origin: OriginView) -> Seq<
    Element,
> {
    spec_grid_parts(grid, params, origin).flatten()
}

/// The scene of a grid: the start marker, the posts, the four walls around
/// the maze, and the walls inside.
pub open spec fn spec_generate(grid: Seq<Seq<u8>>, params: LayoutParams, origin: OriginView) -> Seq<
    Element,
> {
    seq![spec_start_marker(params, origin)] + spec_vertex_posts(params, origin, grid.len() as int)
        + spec_outer_walls(params, origin, grid.len() as int) + spec_inner_walls(
        grid,
        params,
        origin,
    )
}

/// Number of posts in a maze of side `n`: one for each crossing inside.
pub open spec fn spec_post_count(n: int) -> int {
    if n <= 1 {
        0
    } else {
        (n - 1) * (n - 1)
    }
}

/// Joining the first `k + 1` of some parts is joining the first `k` and
/// adding the next.
pub proof fn lemma_join_next<A>(parts: Seq<Seq<A>>, k: int)
    requires
        0 <= k < parts.len(),
    ensures
        parts.take(k + 1).flatten() == parts.take(k).flatten() + parts[k],
{
    assert(parts.take(k + 1) =~= parts.take(k).push(parts[k]));
    parts.take(k).lemma_flatten_push(parts[k]);
}

/// Joining none of some parts gives nothing, and the first parts up to
/// their number are all of them.
pub proof fn lemma_join_ends<A>(parts: Seq<Seq<A>>)
    ensures
        parts.take(0).flatten() == Seq::<A>::empty(),
        parts.take(parts.len() as int) == parts,
{
    assert(parts.take(0).flatten() =~= Seq::<A>::empty());
    assert(parts.take(parts.len() as int) =~= parts);
}

/// Parts that are all empty join to nothing.
pub proof fn lemma_join_of_nothing<A>(parts: Seq<Seq<A>>)
    requires
        forall|k: int| 0 <= k < parts.len() ==> (#[trigger] parts[k]).len() == 0,
    ensures
        parts.flatten() == Seq::<A>::empty(),
    decreases parts.len(),
{
    if parts.len() > 0 {
        lemma_join_of_nothing(parts.drop_first());
        assert(parts.first().len() == 0);
        assert(parts.flatten() =~= Seq::<A>::empty());
    }
}

/// No place of the layout is cut short: for the counts of half cells that
/// a maze can reach, the place is the origin's plus the scaled distance,
/// exactly.
pub proof fn lemma_place_is_exact(params: LayoutParams, origin: OriginView, hx: int, hz: int, turns: u8)
    requires
        spec_origin_in_range(origin),
        0 <= hx <= HALF_CELLS_MAX,
        0 <= hz <= HALF_CELLS_MAX,
    ensures
        spec_place(params, origin, hx, hz, turns).x == origin.x + origin.scale_tenths * (hx
            * spec_half_cell(params)),
        spec_place(params, origin, hx, hz, turns).y == origin.y,
        spec_place(params, origin, hx, hz, turns).z == origin.z + origin.scale_tenths * (hz
            * spec_half_cell(params)),
        spec_place(params, origin, hx, hz, turns).scale_tenths == origin.scale_tenths,
{
    let half = spec_half_cell(params);
    lemma_mul_upper_bound(hx, HALF_CELLS_MAX as int, half, HALF_CELL_MAX as int);
    lemma_mul_upper_bound(hz, HALF_CELLS_MAX as int, half, HALF_CELL_MAX as int);
    lemma_mul_upper_bound(
        origin.scale_tenths as int,
        u32::MAX as int,
        hx * half,
        DISTANCE_MAX as int,
    );
    lemma_mul_upper_bound(
        origin.scale_tenths as int,
        u32::MAX as int,
        hz * half,
        DISTANCE_MAX as int,
    );
    assert(0 <= hx * half && 0 <= hz * half) by (nonlinear_arith)
        requires
            0 <= hx,
            0 <= hz,
            0 <= half,
    ;
    let scale = origin.scale_tenths as int;
    assert(0 <= scale * (hx * half) && 0 <= scale * (hz * half)) by (nonlinear_arith)
        requires
            0 <= hx * half,
            0 <= hz * half,
            0 <= scale,
    ;
}

/// A centred origin is within reach, and it puts the middle of the maze on
/// the middle of the scene, at its height: the place `size` half cells
/// along and across from the corner is the place zero.
pub proof fn lemma_centred_puts_the_middle_on_the_middle(
    params: LayoutParams,
    size: u32,
    scale_tenths: u32,
    lift: i64,
    turns: u8,
)
    ensures
        spec_origin_in_range(spec_centred(params, size, scale_tenths, lift)),
        spec_place(
            params,
            spec_centred(params, size, scale_tenths, lift),
            size as int,
            size as int,
            turns,
        ) == (Transform { x: 0, y: lift as i128, z: 0, quarter_turns: turns, scale_tenths }),
{
    let half = spec_half_cell(params);
    lemma_mul_upper_bound(size as int, u32::MAX as int, half, HALF_CELL_MAX as int);
    lemma_mul_upper_bound(
        scale_tenths as int,
        u32::MAX as int,
        size * half,
        u32::MAX * HALF_CELL_MAX,
    );
    assert(0 <= size * half) by (nonlinear_arith)
        requires
            0 <= size,
            0 <= half,
    ;
    let reach = size * half;
    assert(0 <= scale_tenths * reach) by (nonlinear_arith)
        requires
            0 <= scale_tenths,
            0 <= reach,
    ;
}

/// The parts of a scene and where they stand in it: the start marker
/// first, then the posts, then the four walls around the maze, then the
/// walls inside.
pub proof fn lemma_generate_sections(grid: Seq<Seq<u8>>, params: LayoutParams, origin: OriginView)
    ensures
        spec_generate(grid, params, origin).len() == 1 + spec_post_count(grid.len() as int) + 4
            + spec_inner_walls(grid, params, origin).len(),
        spec_generate(grid, params, origin)[0] == spec_start_marker(params, origin),
        forall|k: int|
            0 <= k < spec_post_count(grid.len() as int) ==> #[trigger] spec_generate(
                grid,
                params,
                origin,
            )[1 + k] == spec_vertex_post(
                params,
                origin,
                1 + k / (grid.len() - 1),
                1 + k % (grid.len() - 1),
            ),
        forall|side: int|
            0 <= side < 4 ==> #[trigger] spec_generate(grid, params, origin)[1 + spec_post_count(
                grid.len() as int,
            ) + side] == spec_outer_wall(params, origin, grid.len() as int, side),
        forall|k: int|
            0 <= k < spec_inner_walls(grid, params, origin).len() ==> #[trigger] spec_generate(
                grid,
                params,
                origin,
            )[5 + spec_post_count(grid.len() as int) + k] == spec_inner_walls(
                grid,
                params,
                origin,
            )[k],
{
    let n = grid.len() as int;
    if n > 1 {
        assert((n - 1) * (n - 1) >= 0) by (nonlinear_arith)
            requires
                n > 1,
        ;
    }
}

/// Whether a mask has none of the four walls.
pub open spec fn spec_is_open(mask: u8) -> bool {
    !spec_has_wall(mask, 0) && !spec_has_wall(mask, 1) && !spec_has_wall(mask, 2)
        && !spec_has_wall(mask, 3)
}

/// Number of walls that a mask has, of the four.
pub open spec fn spec_wall_count(mask: u8) -> nat {
    let along: nat = if spec_has_wall(mask, 0) {
        1
    } else {
        0
    };
    let across: nat = if spec_has_wall(mask, 1) {
        1
    } else {
        0
    };
    let back_along: nat = if spec_has_wall(mask, 2) {
        1
    } else {
        0
    };
    let back_across: nat = if spec_has_wall(mask, 3) {
        1
    } else {
        0
    };
    along + across + back_along + back_across
}

/// The walls of a cell are those of its four directions, one direction
/// after the other.
pub proof fn lemma_cell_walls_by_direction(
    params: LayoutParams,
    origin: OriginView,
    r: int,
    c: int,
    mask: u8,
)
    ensures
        spec_cell_walls(params, origin, r, c, mask) == spec_wall_if(params, origin, r, c, mask, 0)
            + spec_wall_if(params, origin, r, c, mask, 1) + spec_wall_if(
            params,
            origin,
            r,
            c,
            mask,
            2,
        ) + spec_wall_if(params, origin, r, c, mask, 3),
{
    let parts = spec_cell_parts(params, origin, r, c, mask);
    lemma_join_ends(parts);
    lemma_join_next(parts, 0);
    lemma_join_next(parts, 1);
    lemma_join_next(parts, 2);
    lemma_join_next(parts, 3);
    assert(spec_cell_walls(params, origin, r, c, mask) =~= spec_wall_if(
        params,
        origin,
        r,
        c,
        mask,
        0,
    ) + spec_wall_if(params, origin, r, c, mask, 1) + spec_wall_if(params, origin, r, c, mask, 2)
        + spec_wall_if(params, origin, r, c, mask, 3));
}

/// A cell gets one element for each wall of its mask, each of them an inner
/// wall with a body for collisions.
pub proof fn lemma_cell_walls(params: LayoutParams, origin: OriginView, r: int, c: int, mask: u8)
    ensures
        spec_cell_walls(params, origin, r, c, mask).len() == spec_wall_count(mask),
        forall|k: int|
            0 <= k < spec_cell_walls(params, origin, r, c, mask).len() ==> {
                let wall = #[trigger] spec_cell_walls(params, origin, r, c, mask)[k];
                wall.material_tag == MaterialTag::InnerWall && wall.has_collider
            },
{
    lemma_cell_walls_by_direction(params, origin, r, c, mask);
}

/// A cell without any of the four bits has no wall.
pub proof fn lemma_cell_without_walls(
    params: LayoutParams,
    origin: OriginView,
    r: int,
    c: int,
    mask: u8,
)
    requires
        spec_is_open(mask),
    ensures
        spec_cell_walls(params, origin, r, c, mask) == Seq::<Element>::empty(),
{
    lemma_cell_walls_by_direction(params, origin, r, c, mask);
    assert(spec_cell_walls(params, origin, r, c, mask) =~= Seq::<Element>::empty());
}

/// A cell with all four bits has its four walls, in the order of the
/// directions.
pub proof fn lemma_cell_with_all_walls(
    params: LayoutParams,
    origin: OriginView,
    r: int,
    c: int,
    mask: u8,
)
    requires
        mask & 15 == 15,
    ensures
        spec_cell_walls(params, origin, r, c, mask) == seq![
            spec_inner_wall(params, origin, r, c, 0),
            spec_inner_wall(params, origin, r, c, 1),
            spec_inner_wall(params, origin, r, c, 2),
            spec_inner_wall(params, origin, r, c, 3),
        ],
{
    assert(mask & 1 == 1 && mask & 2 == 2 && mask & 4 == 4 && mask & 8 == 8) by (bit_vector)
        requires
            mask & 15 == 15,
    ;
    lemma_cell_walls_by_direction(params, origin, r, c, mask);
    assert(spec_cell_walls(params, origin, r, c, mask) =~= seq![
        spec_inner_wall(params, origin, r, c, 0),
        spec_inner_wall(params, origin, r, c, 1),
        spec_inner_wall(params, origin, r, c, 2),
        spec_inner_wall(params, origin, r, c, 3),
    ]);
}

/// A grid in which no cell has any of the four bits has no walls inside:
/// its scene is the start marker, the posts and the four walls around.
pub proof fn lemma_grid_without_walls(grid: Seq<Seq<u8>>, params: LayoutParams, origin: OriginView)
    requires
        forall|i: int, j: int|
            0 <= i < grid.len() && 0 <= j < grid.len() ==> spec_is_open(#[trigger] grid[i][j]),
    ensures
        spec_inner_walls(grid, params, origin) == Seq::<Element>::empty(),
        spec_generate(grid, params, origin).len() == 5 + spec_post_count(grid.len() as int),
{
    let rows = spec_grid_parts(grid, params, origin);
    assert forall|r: int| 0 <= r < rows.len() implies (#[trigger] rows[r]).len() == 0 by {
        let cells = spec_row_parts(grid, params, origin, r);
        assert forall|c: int| 0 <= c < cells.len() implies (#[trigger] cells[c]).len() == 0 by {
            assert(spec_is_open(grid[r][c]));
            lemma_cell_without_walls(params, origin, r, c, grid[r][c]);
        }
        lemma_join_of_nothing(cells);
    }
    lemma_join_of_nothing(rows);
    lemma_generate_sections(grid, params, origin);
}

/// The scene of the grid without any wall is the start marker, the posts
/// and the four walls around the maze, and nothing else.
pub proof fn lemma_blank_scene(n: nat, params: LayoutParams, origin: OriginView)
    ensures
        spec_generate(spec_blank(n), params, origin) == seq![spec_start_marker(params, origin)]
            + spec_vertex_posts(params, origin, n as int) + spec_outer_walls(
            params,
            origin,
            n as int,
        ),
        spec_generate(spec_blank(n), params, origin).len() == 5 + spec_post_count(n as int),
{
    assert(0u8 & 1 != 1 && 0u8 & 2 != 2 && 0u8 & 4 != 4 && 0u8 & 8 != 8) by (bit_vector);
    assert(spec_is_open(0u8));
    lemma_grid_without_walls(spec_blank(n), params, origin);
    assert(spec_generate(spec_blank(n), params, origin) =~= seq![
        spec_start_marker(params, origin),
    ] + spec_vertex_posts(params, origin, n as int) + spec_outer_walls(
        params,
        origin,
        n as int,
    ));
}

/// The layout is a function of the grid, the measures and the origin: two
/// scenes laid out from the same three are equal, element by element.
pub proof fn lemma_generate_deterministic(
    first: Vec<Element>,
    second: Vec<Element>,
    grid: Seq<Seq<u8>>,
    params: LayoutParams,
    origin: OriginView,
)
    requires
        first@ == spec_generate(grid, params, origin),
        second@ == spec_generate(grid, params, origin),
    ensures
        first@ == second@,
{
}

fn box_shape(width: u128, height: u128, depth: u128) -> (shape: BoxShape)
    ensures
        shape == spec_box(width as int, height as int, depth as int),
{
    BoxShape { width, height, depth }
}

fn half_cell(params: &LayoutParams) -> (half: u128)
    ensures
        half == spec_half_cell(*params),
        half <= HALF_CELL_MAX,
{
    5 * (params.cell_space as u128)
}

fn place(params: &LayoutParams, origin: &Origin, hx: u64, hz: u64, quarter_turns: u8) -> (t:
    Transform)
    requires
        hx <= HALF_CELLS_MAX,
        hz <= HALF_CELLS_MAX,
    ensures
        t == spec_place(*params, origin@, hx as int, hz as int, quarter_turns),
{
    let half: u128 = half_cell(params);
    let scale: i128 = origin.scale_tenths as i128;
    proof {
        use_type_invariant(origin);
        lemma_mul_upper_bound(hx as int, HALF_CELLS_MAX as int, half as int, HALF_CELL_MAX as int);
        lemma_mul_upper_bound(hz as int, HALF_CELLS_MAX as int, half as int, HALF_CELL_MAX as int);
    }
    let along: u128 = (hx as u128) * half;
    let across: u128 = (hz as u128) * half;
    proof {
        lemma_mul_upper_bound(scale as int, u32::MAX as int, along as int, DISTANCE_MAX as int);
        lemma_mul_upper_bound(scale as int, u32::MAX as int, across as int, DISTANCE_MAX as int);
    }
    Transform {
        x: origin.x + scale * (along as i128),
        y: origin.y,
        z: origin.z + scale * (across as i128),
        quarter_turns,
        scale_tenths: origin.scale_tenths,
    }
}

fn start_marker(params: &LayoutParams, origin: &Origin) -> (element: Element)
    ensures
        element == spec_start_marker(*params, origin@),
{
    Element {
        shape: box_shape(
            20 * (params.vertex_side as u128),
            20 * (params.wall_height as u128),
            20 * (params.vertex_side as u128),
        ),
        transform: place(params, origin, 0, 0, 0),
        material_tag: MaterialTag::StartMarker,
        has_collider: false,
        collider: box_shape(0, 0, 0),
    }
}

fn vertex_post(params: &LayoutParams, origin: &Origin, i: u32, j: u32) -> (element: Element)
    ensures
        element == spec_vertex_post(*params, origin@, i as int, j as int),
{
    Element {
        shape: box_shape(
            9 * (params.vertex_side as u128),
            9 * (params.wall_height as u128),
            9 * (params.vertex_side as u128),
        ),
        transform: place(params, origin, 2 * (i as u64), 2 * (j as u64), 0),
        material_tag: MaterialTag::Vertex,
        has_collider: false,
        collider: box_shape(0, 0, 0),
    }
}

fn outer_wall(params: &LayoutParams, origin: &Origin, size: u32, side: u8) -> (element: Element)
    requires
        side < 4,
    ensures
        element == spec_outer_wall(*params, origin@, size as int, side as int),
{
    let n: u64 = size as u64;
    let half: u128 = half_cell(params);
    proof {
        lemma_mul_upper_bound(2 * n, HALF_CELLS_MAX as int, half as int, HALF_CELL_MAX as int);
        lemma_mul_upper_bound(n as int, HALF_CELLS_MAX as int, half as int, HALF_CELL_MAX as int);
    }
    let transform = if side == 0 {
        place(params, origin, 2 * n, n, 1)
    } else if side == 1 {
        place(params, origin, n, 2 * n, 0)
    } else if side == 2 {
        place(params, origin, 0, n, 1)
    } else {
        place(params, origin, n, 0, 0)
    };
    Element {
        shape: box_shape(
            (2 * n) as u128 * half,
            11 * (params.wall_height as u128),
            11 * (params.wall_width as u128),
        ),
        transform,
        material_tag: MaterialTag::OuterWall,
        has_collider: true,
        collider: box_shape(
            (n as u128) * half,
            5 * (params.wall_height as u128),
            5 * (params.wall_width as u128),
        ),
    }
}

fn inner_wall(params: &LayoutParams, origin: &Origin, r: u32, c: u32, d: u8) -> (element: Element)
    requires
        d < 4,
    ensures
        element == spec_inner_wall(*params, origin@, r as int, c as int, d as int),
{
    let along: u64 = 2 * (r as u64) + 1;
    let across: u64 = 2 * (c as u64) + 1;
    let transform = if d == 0 {
        place(params, origin, along + 1, across, 0)
    } else if d == 1 {
        place(params, origin, along, across + 1, 1)
    } else if d == 2 {
        place(params, origin, along - 1, across, 0)
    } else {
        place(params, origin, along, across - 1, 1)
    };
    let half: u128 = half_cell(params);
    Element {
        shape: box_shape(
            10 * (params.wall_width as u128),
            10 * (params.wall_height as u128),
            2 * half,
        ),
        transform,
        material_tag: MaterialTag::InnerWall,
        has_collider: true,
        collider: box_shape(
            5 * (params.wall_width as u128),
            5 * (params.wall_height as u128),
            half,
        ),
    }
}

fn wall_bit(d: u8) -> (bit: u8)
    requires
        d < 4,
    ensures
        bit == spec_wall_bit(d as int),
{
    if d == 0 {
        1
    } else if d == 1 {
        2
    } else if d == 2 {
        4
    } else {
        8
    }
}

fn push_vertex_posts(elements: &mut Vec<Element>, params: &LayoutParams, origin: &Origin, size: u32)
    ensures
        final(elements)@ == old(elements)@ + spec_vertex_posts(*params, origin@, size as int),
{
    if size <= 1 {
        assert(elements@ =~= old(elements)@ + spec_vertex_posts(*params, origin@, size as int));
        return ;
    }
    let ghost side: int = size - 1;
    let ghost posts = spec_vertex_posts(*params, origin@, size as int);
    let mut i: u32 = 1;
    assert(elements@ =~= old(elements)@ + posts.take(0));
    while i < size
        invariant
            1 <= i <= size,
            side == size - 1,
            side >= 1,
            posts == spec_vertex_posts(*params, origin@, size as int),
            posts.len() == side * side,
            0 <= (i - 1) * side <= side * side,
            elements@ == old(elements)@ + posts.take((i - 1) * side),
        decreases size - i,
    {
        let mut j: u32 = 1;
        assert(i * side == (i - 1) * side + side && (i - 1) * side + side <= side * side)
            by (nonlinear_arith)
            requires
                1 <= i <= side,
        ;
        while j < size
            invariant
                1 <= j <= size,
                1 <= i < size,
                side == size - 1,
                side >= 1,
                posts == spec_vertex_posts(*params, origin@, size as int),
                posts.len() == side * side,
                0 <= (i - 1) * side,
                (i - 1) * side + side <= side * side,
                elements@ == old(elements)@ + posts.take((i - 1) * side + (j - 1)),
            decreases size - j,
        {
            let post = vertex_post(params, origin, i, j);
            let ghost k: int = (i - 1) * side + (j - 1);
            proof {
                lemma_fundamental_div_mod_converse(k, side, i - 1, j - 1);
                assert(posts[k] == post);
            }
            elements.push(post);
            j = j + 1;
            assert(elements@ =~= old(elements)@ + posts.take(k + 1));
        }
        i = i + 1;
    }
    assert(posts.take(side * side) =~= posts);
}

fn push_outer_walls(elements: &mut Vec<Element>, params: &LayoutParams, origin: &Origin, size: u32)
    ensures
        final(elements)@ == old(elements)@ + spec_outer_walls(*params, origin@, size as int),
{
    let ghost walls = spec_outer_walls(*params, origin@, size as int);
    let mut side: u8 = 0;
    assert(elements@ =~= old(elements)@ + walls.take(0));
    while side < 4
        invariant
            side <= 4,
            walls == spec_outer_walls(*params, origin@, size as int),
            elements@ == old(elements)@ + walls.take(side as int),
        decreases 4 - side,
    {
        let wall = outer_wall(params, origin, size, side);
        elements.push(wall);
        side = side + 1;
        assert(elements@ =~= old(elements)@ + walls.take(side as int));
    }
    assert(walls.take(4) =~= walls);
}

fn push_cell_walls(
    elements: &mut Vec<Element>,
    params: &LayoutParams,
    origin: &Origin,
    r: u32,
    c: u32,
    mask: u8,
)
    ensures
        final(elements)@ == old(elements)@ + spec_cell_walls(
            *params,
            origin@,
            r as int,
            c as int,
            mask,
        ),
{
    let ghost parts = spec_cell_parts(*params, origin@, r as int, c as int, mask);
    let mut d: u8 = 0;
    proof {
        lemma_join_ends(parts);
        assert(elements@ =~= old(elements)@ + parts.take(0).flatten());
    }
    while d < DIRECTIONS
        invariant
            d <= DIRECTIONS,
            parts == spec_cell_parts(*params, origin@, r as int, c as int, mask),
            elements@ == old(elements)@ + parts.take(d as int).flatten(),
        decreases DIRECTIONS - d,
    {
        let bit: u8 = wall_bit(d);
        if mask & bit == bit {
            let wall = inner_wall(params, origin, r, c, d);
            elements.push(wall);
        }
        proof {
            lemma_join_next(parts, d as int);
            assert(elements@ =~= old(elements)@ + parts.take(d as int).flatten() + parts[d as int]);
        }
        d = d + 1;
    }
    proof {
        lemma_join_ends(parts);
    }
}

fn push_inner_walls(elements: &mut Vec<Element>, grid: &Grid, params: &LayoutParams, origin: &Origin)
    requires
        grid.wf(),
    ensures
        final(elements)@ == old(elements)@ + spec_inner_walls(grid@, *params, origin@),
{
    let size: u32 = grid.size();
    let ghost rows = spec_grid_parts(grid@, *params, origin@);
    let mut r: u32 = 0;
    proof {
        lemma_join_ends(rows);
        assert(elements@ =~= old(elements)@ + rows.take(0).flatten());
    }
    while r < size
        invariant
            r <= size,
            size == grid@.len(),
            grid.wf(),
            rows == spec_grid_parts(grid@, *params, origin@),
            elements@ == old(elements)@ + rows.take(r as int).flatten(),
        decreases size - r,
    {
        let ghost before = elements@;
        let ghost cells = spec_row_parts(grid@, *params, origin@, r as int);
        let mut c: u32 = 0;
        proof {
            lemma_join_ends(cells);
            assert(elements@ =~= before + cells.take(0).flatten());
        }
        while c < size
            invariant
                c <= size,
                r < size,
                size == grid@.len(),
                grid.wf(),
                cells == spec_row_parts(grid@, *params, origin@, r as int),
                elements@ == before + cells.take(c as int).flatten(),
            decreases size - c,
        {
            let mask: u8 = match grid.mask(r, c) {
                Some(mask) => mask,
                None => 0,
            };
            push_cell_walls(elements, params, origin, r, c, mask);
            proof {
                lemma_join_next(cells, c as int);
                assert(elements@ =~= before + cells.take(c as int).flatten() + cells[c as int]);
            }
            c = c + 1;
        }
        proof {
            lemma_join_ends(cells);
            lemma_join_next(rows, r as int);
            assert(elements@ =~= old(elements)@ + rows.take(r as int).flatten() + rows[r as int]);
        }
        r = r + 1;
    }
    proof {
        lemma_join_ends(rows);
    }
}

/// Lays out the scene of a grid, for the given measures and origin.
///
/// The elements come in this order: the start marker on the maze's corner;
/// one post for every crossing inside the maze; the four walls around it,
/// each on the middle of its side, those along the other axis turned by a
/// quarter, each with a body for collisions that is measured apart from what
/// is drawn; then, cell by cell and row by row, one wall for each direction
/// that the cell's mask has, half a cell from the middle of the cell, with a
/// body of the same size. Every transform is the maze's own, composed with
/// the origin.
pub fn generate(grid: &Grid, params: &LayoutParams, origin: &Origin) -> (elements: Vec<Element>)
    requires
        grid.wf(),
    ensures
        elements@ == spec_generate(grid@, *params, origin@),
{
    let size: u32 = grid.size();
    let mut elements: Vec<Element> = Vec::new();
    elements.push(start_marker(params, origin));
    assert(elements@ =~= seq![spec_start_marker(*params, origin@)]);
    push_vertex_posts(&mut elements, params, origin, size);
    push_outer_walls(&mut elements, params, origin, size);
    push_inner_walls(&mut elements, grid, params, origin);
    elements
}

} // verus!
