use vstd::prelude::*;

use crate::block::{BlockID, Coord, UNSET_BLOCK};
use crate::config::{BlockConfig, Config};
use crate::grid::{filled_grid, shaped, ChunkData, NoiseField};
use crate::level::Level;

verus! {

/// The sampling rectangle of a chunk in grid units, before scaling: the
/// first and the last grid index that the chunk covers on each axis.
#[derive(Clone, Copy, Debug, PartialEq, Eq, Structural)]
pub struct SamplingBounds {
    pub x_lo: i128,
    pub x_hi: i128,
    pub y_lo: i128,
    pub y_hi: i128,
}

/// First grid index of the chunk at position `p` on an axis of `n` cells.
pub open spec fn axis_lo(p: int, n: int) -> int {
    p * n
}

/// Last grid index of that chunk: indices start at zero, so the chunk ends
/// one short of the next chunk's first index.
pub open spec fn axis_hi(p: int, n: int) -> int {
    (p + 1) * n - 1
}

/// A product of a value within 2^63 of zero and a `usize` fits an `i128`.
proof fn lemma_product_fits(a: int, b: int)
    requires
        -0x8000_0000_0000_0000 <= a <= 0x8000_0000_0000_0000,
        0 <= b <= 0xFFFF_FFFF_FFFF_FFFF,
    ensures
        -0x8000_0000_0000_0000 * 0xFFFF_FFFF_FFFF_FFFF <= a * b <= 0x8000_0000_0000_0000 * 0xFFFF_FFFF_FFFF_FFFF,
{
    assert(-0x8000_0000_0000_0000 * b <= a * b <= 0x8000_0000_0000_0000 * b) by (nonlinear_arith)
        requires
            -0x8000_0000_0000_0000 <= a <= 0x8000_0000_0000_0000,
            0 <= b,
    ;
    assert(0x8000_0000_0000_0000 * b <= 0x8000_0000_0000_0000 * 0xFFFF_FFFF_FFFF_FFFF) by (nonlinear_arith)
        requires
            b <= 0xFFFF_FFFF_FFFF_FFFF,
    ;
}

fn axis_bounds(p: i64, n: usize) -> (r: (i128, i128))
    ensures
        r.0 == axis_lo(p as int, n as int),
        r.1 == axis_hi(p as int, n as int),
{
    let pi = p as i128;
    let ni = n as i128;
    proof {
        lemma_product_fits(pi as int, ni as int);
        lemma_product_fits(pi as int + 1, ni as int);
    }
    (pi * ni, (pi + 1) * ni - 1)
}

/// The grid-unit sampling rectangle of the chunk at `pos` of `width` by
/// `height` cells. Multiplied by the scale, it is the world-space rectangle
/// over which the noise field is sampled, one sample per grid index.
pub fn sampling_bounds(pos: Coord, width: usize, height: usize) -> (r: SamplingBounds)
    ensures
        r.x_lo == axis_lo(pos.0 as int, width as int),
        r.x_hi == axis_hi(pos.0 as int, width as int),
        r.y_lo == axis_lo(pos.1 as int, height as int),
        r.y_hi == axis_hi(pos.1 as int, height as int),
{
    let (x_lo, x_hi) = axis_bounds(pos.0, width);
    let (y_lo, y_hi) = axis_bounds(pos.1, height);
    SamplingBounds { x_lo, x_hi, y_lo, y_hi }
}

/// Whether a rule's half-open range `[start_level, end_level)` holds `v`.
pub open spec fn in_range(rule: BlockConfig, v: Level) -> bool {
    rule.start_level.spec_le(v) && v.spec_lt(rule.end_level)
}

/// What a rule makes of one cell that holds `cell` where the field reads
/// `v`: it paints when `v` is in range and the cell is unset or the rule may
/// overwrite.
pub open spec fn paint_cell(rule: BlockConfig, cell: BlockID, v: Level) -> BlockID {
    if (rule.overwrite || cell == UNSET_BLOCK) && in_range(rule, v) {
        rule.block
    } else {
        cell
    }
}

/// Whether a cell lies before the last column and the last row: only such
/// cells are visited by the painter.
pub open spec fn interior(x: int, y: int, width: nat, height: nat) -> bool {
    x + 1 < width && y + 1 < height
}

/// The grid after one rule has painted it.
pub open spec fn paint(
    grid: Seq<Seq<BlockID>>,
    field: Seq<Seq<Level>>,
    rule: BlockConfig,
    width: nat,
    height: nat,
) -> Seq<Seq<BlockID>> {
    Seq::new(
        width,
        |x: int|
            Seq::new(
                height,
                |y: int|
                    if interior(x, y, width, height) {
                        paint_cell(rule, grid[x][y], field[x][y])
                    } else {
                        grid[x][y]
                    },
            ),
    )
}

/// The grid after each of `rules` has painted it, first rule first.
pub open spec fn paint_all(
    grid: Seq<Seq<BlockID>>,
    field: Seq<Seq<Level>>,
    rules: Seq<BlockConfig>,
    width: nat,
    height: nat,
) -> Seq<Seq<BlockID>>
    decreases rules.len(),
{
    if rules.len() == 0 {
        grid
    } else {
        paint(paint_all(grid, field, rules.drop_last(), width, height), field, rules.last(), width, height)
    }
}

/// The chunk that a fill block and a rule list make of a sampled field.
pub open spec fn chunk_of(
    default_block: BlockID,
    rules: Seq<BlockConfig>,
    field: Seq<Seq<Level>>,
    width: nat,
    height: nat,
) -> Seq<Seq<BlockID>> {
    paint_all(filled_grid(width, height, default_block), field, rules, width, height)
}

/// Paints one rule onto `chunk`, reading the sampled `field`. The last column
/// and the last row are not visited.
pub fn add_terrain(rule: &BlockConfig, field: &NoiseField, chunk: &mut ChunkData)
    requires
        old(chunk).wf(),
        field.wf(),
        field.spec_width() == old(chunk).spec_width(),
        field.spec_height() == old(chunk).spec_height(),
        old(chunk).spec_width() > 0,
        old(chunk).spec_height() > 0,
    ensures
        final(chunk).wf(),
        final(chunk).spec_width() == old(chunk).spec_width(),
        final(chunk).spec_height() == old(chunk).spec_height(),
        final(chunk)@ == paint(old(chunk)@, field@, *rule, old(chunk).spec_width(), old(chunk).spec_height()),
{
    let width = chunk.width();
    let height = chunk.height();
    let ghost w = width as nat;
    let ghost h = height as nat;
    let ghost start = chunk@;
    let mut x: usize = 0;
    while x < width - 1
        invariant
            width > 0,
            height > 0,
            x <= width - 1,
            w == width,
            h == height,
            shaped(start, w, h),
            chunk.wf(),
            field.wf(),
            chunk.spec_width() == w,
            chunk.spec_height() == h,
            field.spec_width() == w,
            field.spec_height() == h,
            forall|i: int, j: int|
                0 <= i < w && 0 <= j < h ==> #[trigger] chunk@[i][j] == if i < x && interior(i, j, w, h) {
                    paint_cell(*rule, start[i][j], field@[i][j])
                } else {
                    start[i][j]
                },
        decreases width - x,
    {
        let mut y: usize = 0;
        while y < height - 1
            invariant
                width > 0,
                height > 0,
                x < width - 1,
                y <= height - 1,
                w == width,
                h == height,
                shaped(start, w, h),
                chunk.wf(),
                field.wf(),
                chunk.spec_width() == w,
                chunk.spec_height() == h,
                field.spec_width() == w,
                field.spec_height() == h,
                forall|i: int, j: int|
                    0 <= i < w && 0 <= j < h ==> #[trigger] chunk@[i][j] == if (i < x || (i == x && j < y))
                        && interior(i, j, w, h) {
                        paint_cell(*rule, start[i][j], field@[i][j])
                    } else {
                        start[i][j]
                    },
            decreases height - y,
        {
            let cell = chunk.get(x, y);
            let v = field.get(x, y);
            if (rule.overwrite || cell == UNSET_BLOCK) && rule.start_level.le(v) && v.lt(rule.end_level) {
                chunk.set(x, y, rule.block);
            }
            y = y + 1;
        }
        x = x + 1;
    }
    assert(chunk@ =~= paint(start, field@, *rule, w, h)) by {
        assert forall|i: int| 0 <= i < w implies #[trigger] chunk@[i] =~= paint(start, field@, *rule, w, h)[i] by {
            assert forall|j: int| 0 <= j < h implies #[trigger] chunk@[i][j] == paint(start, field@, *rule, w, h)[i][j] by {}
        }
    }
}

/// Generates a chunk: a grid of the field's dimensions filled with the
/// config's default block, painted by each rule in list order.
pub fn generate_chunk(config: &Config, field: &NoiseField) -> (r: ChunkData)
    requires
        field.wf(),
        field.spec_width() > 0,
        field.spec_height() > 0,
    ensures
        r.wf(),
        r.spec_width() == field.spec_width(),
        r.spec_height() == field.spec_height(),
        r@ == chunk_of(config.default_block, config.blocks@, field@, field.spec_width(), field.spec_height()),
{
    let ghost w = field.spec_width();
    let ghost h = field.spec_height();
    let ghost rules = config.blocks@;
    let mut chunk = ChunkData::new(field.width(), field.height(), config.default_block);
    let mut i: usize = 0;
    while i < config.blocks.len()
        invariant
            i <= rules.len(),
            rules == config.blocks@,
            field.wf(),
            w == field.spec_width(),
            h == field.spec_height(),
            w > 0,
            h > 0,
            chunk.wf(),
            chunk.spec_width() == w,
            chunk.spec_height() == h,
            chunk@ == paint_all(filled_grid(w, h, config.default_block), field@, rules.take(i as int), w, h),
        decreases rules.len() - i,
    {
        add_terrain(&config.blocks[i], field, &mut chunk);
        assert(rules.take(i as int + 1).drop_last() =~= rules.take(i as int));
        i = i + 1;
    }
    assert(rules.take(i as int) =~= rules);
    chunk
}

} // verus!
