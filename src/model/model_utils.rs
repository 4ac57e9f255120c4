use vstd::prelude::*;

verus! {

/// Position ticks in one normalized world unit: the visible world spans
/// `[-UNIT, UNIT]` on both axes, with `y` growing upwards.
pub const UNIT: i64 = 1_000_000_000;

/// Microseconds in one second. Every duration of the library is a whole number
/// of microseconds.
pub const MICROS_PER_SECOND: u64 = 1_000_000;

/// A point or an extent in world space, in ticks (`UNIT` ticks to a unit).
#[derive(Clone, Copy, Debug, PartialEq, Eq, Structural)]
pub struct Vector2 {
    pub x: i64,
    pub y: i64,
}

/// A tile of a level grid: column 0 is the leftmost, row 0 the topmost.
#[derive(Clone, Copy, Debug, PartialEq, Eq, Structural)]
pub struct GridPosition {
    pub column: i32,
    pub row: i32,
}

/// Division that rounds toward zero, as integer division does in Rust.
pub open spec fn trunc_div(n: int, d: int) -> int {
    if n >= 0 {
        n / d
    } else {
        -((-n) / d)
    }
}

/// Offset of the centre of tile `index` from the middle of a line of `count`
/// tiles that spans two units: `-1 + (2 * index + 1) / count` units, in ticks.
pub open spec fn tile_centre(index: int, count: int) -> int {
    trunc_div(UNIT * (2 * index + 1 - count), count)
}

/// World position of the centre of a tile of a `width` x `height` grid.
pub open spec fn grid_point(g: GridPosition, width: int, height: int) -> Vector2 {
    Vector2 { x: tile_centre(g.column as int, width) as i64, y: (-tile_centre(g.row as int, height)) as i64 }
}

pub open spec fn square(v: int) -> int {
    v * v
}

/// `a` and `b` are less than `radius` ticks apart (Euclidean distance).
pub open spec fn within(a: Vector2, b: Vector2, radius: int) -> bool {
    square(a.x - b.x) + square(a.y - b.y) < square(radius)
}

proof fn lemma_tile_centre_fits(index: int, count: int)
    requires
        i32::MIN <= index <= i32::MAX,
        0 < count <= i32::MAX,
    ensures
        -7_000_000_000_000_000_000 <= UNIT * (2 * index + 1 - count) <= 7_000_000_000_000_000_000,
        i64::MIN < tile_centre(index, count) <= i64::MAX,
{
    let n = 2 * index + 1 - count;
    assert(-7_000_000_000 <= n <= 7_000_000_000);
    assert(-7_000_000_000_000_000_000 <= UNIT * n <= 7_000_000_000_000_000_000) by (nonlinear_arith)
        requires
            -7_000_000_000 <= n <= 7_000_000_000,
    ;
    let p = UNIT * n;
    if p >= 0 {
        assert(p / count <= p) by (nonlinear_arith)
            requires
                p >= 0,
                count > 0,
        ;
        assert(p / count >= 0) by (nonlinear_arith)
            requires
                p >= 0,
                count > 0,
        ;
    } else {
        assert((-p) / count <= -p) by (nonlinear_arith)
            requires
                -p > 0,
                count > 0,
        ;
        assert((-p) / count >= 0) by (nonlinear_arith)
            requires
                -p > 0,
                count > 0,
        ;
    }
}

fn tile_centre_of(index: i32, count: i32) -> (r: i64)
    requires
        count > 0,
    ensures
        r == tile_centre(index as int, count as int),
        r > i64::MIN,
{
    proof {
        lemma_tile_centre_fits(index as int, count as int);
    }
    let n: i64 = 2 * (index as i64) + 1 - (count as i64);
    let p: i64 = n * UNIT;
    let d: i64 = count as i64;
    if p >= 0 {
        p / d
    } else {
        -((-p) / d)
    }
}

/// World position of the centre of `grid_pos` in a `width` x `height` grid:
/// `x = -1 + w/2 + column * w` and `y = 1 - h/2 - row * h` with `w = 2 / width`
/// and `h = 2 / height`, rounded toward zero to whole ticks.
pub fn grid_to_position(grid_pos: &GridPosition, width: i32, height: i32) -> (r: Vector2)
    requires
        width > 0,
        height > 0,
    ensures
        r == grid_point(*grid_pos, width as int, height as int),
{
    let x = tile_centre_of(grid_pos.column, width);
    let y = tile_centre_of(grid_pos.row, height);
    Vector2 { x, y: -y }
}

/// The mapping depends on its arguments alone: equal tiles of equal grids
/// map to the same world position, whatever the grid's size.
pub proof fn lemma_grid_deterministic(
    g1: GridPosition,
    g2: GridPosition,
    width1: int,
    height1: int,
    width2: int,
    height2: int,
)
    requires
        g1 == g2,
        width1 == width2,
        height1 == height2,
    ensures
        grid_point(g1, width1, height1) == grid_point(g2, width2, height2),
{
}

/// Mapping the top-left tile of a `width` x `height` grid gives
/// `(-1 + 1/width, 1 - 1/height)`, and the bottom-right tile gives its mirror
/// image `(1 - 1/width, -1 + 1/height)`; where `width` divides `UNIT` the first
/// is exact.
pub proof fn lemma_grid_corners(width: int, height: int)
    requires
        0 < width <= i32::MAX,
        0 < height <= i32::MAX,
    ensures
        ({
            let top_left = grid_point(GridPosition { column: 0, row: 0 }, width, height);
            let bottom_right = grid_point(
                GridPosition { column: (width - 1) as i32, row: (height - 1) as i32 },
                width,
                height,
            );
            &&& top_left.x == -((UNIT * (width - 1)) / width)
            &&& top_left.y == (UNIT * (height - 1)) / height
            &&& bottom_right.x == -top_left.x
            &&& bottom_right.y == -top_left.y
            &&& (UNIT as int) % width == 0 ==> top_left.x == -UNIT + (UNIT as int) / width
            &&& (UNIT as int) % height == 0 ==> top_left.y == UNIT - (UNIT as int) / height
        }),
{
    lemma_tile_centre_fits(0, width);
    lemma_tile_centre_fits(0, height);
    lemma_tile_centre_fits(width - 1, width);
    lemma_tile_centre_fits(height - 1, height);
    assert(UNIT * (2 * 0 + 1 - width) == -(UNIT * (width - 1))) by (nonlinear_arith);
    assert(UNIT * (2 * 0 + 1 - height) == -(UNIT * (height - 1))) by (nonlinear_arith);
    assert(UNIT * (2 * (width - 1) + 1 - width) == UNIT * (width - 1)) by (nonlinear_arith);
    assert(UNIT * (2 * (height - 1) + 1 - height) == UNIT * (height - 1)) by (nonlinear_arith);
    assert(UNIT * (width - 1) >= 0) by (nonlinear_arith)
        requires
            width >= 1,
    ;
    assert(UNIT * (height - 1) >= 0) by (nonlinear_arith)
        requires
            height >= 1,
    ;
    if (UNIT as int) % width == 0 {
        lemma_exact_centre(width);
    }
    if (UNIT as int) % height == 0 {
        lemma_exact_centre(height);
    }
}

proof fn lemma_exact_centre(count: int)
    requires
        count > 0,
        (UNIT as int) % count == 0,
    ensures
        (UNIT * (count - 1)) / count == UNIT - (UNIT as int) / count,
{
    let q = (UNIT as int) / count;
    assert(UNIT == q * count) by {
        vstd::arithmetic::div_mod::lemma_fundamental_div_mod(UNIT as int, count);
    }
    assert(UNIT * (count - 1) == (q * (count - 1)) * count) by (nonlinear_arith)
        requires
            UNIT == q * count,
    ;
    vstd::arithmetic::div_mod::lemma_div_multiples_vanish(q * (count - 1), count);
    assert(q * (count - 1) == UNIT - q) by (nonlinear_arith)
        requires
            UNIT == q * count,
    ;
}

/// Whether `a` and `b` are less than `radius` ticks apart.
pub fn is_within(a: &Vector2, b: &Vector2, radius: i64) -> (r: bool)
    requires
        radius > 0,
    ensures
        r == within(*a, *b, radius as int),
{
    let dx: i128 = a.x as i128 - b.x as i128;
    let dy: i128 = a.y as i128 - b.y as i128;
    let rad: i128 = radius as i128;
    if dx <= -rad || dx >= rad || dy <= -rad || dy >= rad {
        proof {
            lemma_square_at_least(dx as int, rad as int);
            lemma_square_at_least(dy as int, rad as int);
            assert(square(dx as int) >= 0 && square(dy as int) >= 0) by (nonlinear_arith);
        }
        false
    } else {
        proof {
            let bound: int = 0x4000_0000_0000_0000_0000_0000_0000_0000;
            assert(dx * dx < bound && dy * dy < bound && rad * rad < bound) by (nonlinear_arith)
                requires
                    -rad < dx < rad,
                    -rad < dy < rad,
                    0 < rad <= i64::MAX,
                    bound == 0x4000_0000_0000_0000_0000_0000_0000_0000,
            ;
            assert(dx * dx >= 0 && dy * dy >= 0) by (nonlinear_arith);
        }
        dx * dx + dy * dy < rad * rad
    }
}

proof fn lemma_square_at_least(d: int, r: int)
    requires
        r > 0,
    ensures
        (d <= -r || d >= r) ==> square(d) >= square(r),
{
    if d >= r {
        assert(d * d >= r * r) by (nonlinear_arith)
            requires
                d >= r,
                r > 0,
        ;
    } else if d <= -r {
        assert(d * d >= r * r) by (nonlinear_arith)
            requires
                d <= -r,
                r > 0,
        ;
    }
}

} // verus!
