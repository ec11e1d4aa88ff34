use vstd::prelude::*;

use crate::block::{BlockID, UNSET_BLOCK};
use crate::config::{BlockConfig, Config};
use crate::generate::{chunk_of, in_range, interior, paint, paint_all};
use crate::grid::{filled_grid, shaped, NoiseField};
use crate::level::Level;

verus! {

/// Generation is deterministic: two configs with the same fill and the same
/// rules, over fields with the same values, give the same chunk.
pub proof fn lemma_generation_deterministic(c1: &Config, c2: &Config, f1: &NoiseField, f2: &NoiseField)
    requires
        c1.default_block == c2.default_block,
        c1.blocks@ == c2.blocks@,
        f1@ == f2@,
        f1.spec_width() == f2.spec_width(),
        f1.spec_height() == f2.spec_height(),
    ensures
        chunk_of(c1.default_block, c1.blocks@, f1@, f1.spec_width(), f1.spec_height())
            == chunk_of(c2.default_block, c2.blocks@, f2@, f2.spec_width(), f2.spec_height()),
{
}

/// With no rules, every cell of the chunk holds the default block.
pub proof fn lemma_empty_rules_fill(default_block: BlockID, field: Seq<Seq<Level>>, width: nat, height: nat)
    ensures
        chunk_of(default_block, Seq::empty(), field, width, height) == filled_grid(width, height, default_block),
        forall|x: int, y: int|
            0 <= x < width && 0 <= y < height ==> #[trigger] chunk_of(default_block, Seq::empty(), field, width, height)[x][y]
                == default_block,
{
}

/// Painting keeps the grid's shape and leaves the last column and the last
/// row as they were.
proof fn lemma_paint_all_keeps_border(
    grid: Seq<Seq<BlockID>>,
    field: Seq<Seq<Level>>,
    rules: Seq<BlockConfig>,
    width: nat,
    height: nat,
)
    requires
        shaped(grid, width, height),
    ensures
        shaped(paint_all(grid, field, rules, width, height), width, height),
        forall|x: int, y: int|
            0 <= x < width && 0 <= y < height && !interior(x, y, width, height) ==> #[trigger] paint_all(
                grid,
                field,
                rules,
                width,
                height,
            )[x][y] == grid[x][y],
    decreases rules.len(),
{
    if rules.len() > 0 {
        lemma_paint_all_keeps_border(grid, field, rules.drop_last(), width, height);
    }
}

/// Whatever the rules and the field, the cells of the last column and of the
/// last row keep the default block.
pub proof fn lemma_border_keeps_default(
    default_block: BlockID,
    rules: Seq<BlockConfig>,
    field: Seq<Seq<Level>>,
    width: nat,
    height: nat,
    x: int,
    y: int,
)
    requires
        0 <= x < width,
        0 <= y < height,
        x == width - 1 || y == height - 1,
    ensures
        chunk_of(default_block, rules, field, width, height)[x][y] == default_block,
{
    lemma_paint_all_keeps_border(filled_grid(width, height, default_block), field, rules, width, height);
}

/// Of two rules that both hold a cell's value, the first without overwrite:
/// the second one's block ends in the cell when it may overwrite; when it
/// may not, the first one's block stays, provided the first one painted the
/// fresh cell (the fill is the unset block and the first block is not).
pub proof fn lemma_overwrite_policy(
    default_block: BlockID,
    r1: BlockConfig,
    r2: BlockConfig,
    field: Seq<Seq<Level>>,
    width: nat,
    height: nat,
    x: int,
    y: int,
)
    requires
        0 <= x && 0 <= y && interior(x, y, width, height),
        !r1.overwrite,
        in_range(r1, field[x][y]),
        in_range(r2, field[x][y]),
    ensures
        r2.overwrite ==> chunk_of(default_block, seq![r1, r2], field, width, height)[x][y] == r2.block,
        !r2.overwrite && default_block == UNSET_BLOCK && r1.block != UNSET_BLOCK ==> chunk_of(
            default_block,
            seq![r1, r2],
            field,
            width,
            height,
        )[x][y] == r1.block,
{
    let rules = seq![r1, r2];
    let g0 = filled_grid(width, height, default_block);
    assert(rules.drop_last() == seq![r1]);
    assert(seq![r1].drop_last() == Seq::<BlockConfig>::empty());
    assert(paint_all(g0, field, Seq::empty(), width, height) == g0);
    let g1 = paint(g0, field, r1, width, height);
    assert(paint_all(g0, field, seq![r1], width, height) == g1);
    assert(paint_all(g0, field, rules, width, height) == paint(g1, field, r2, width, height));
}

/// Thresholds are half-open: a value bitwise equal to the end level is out
/// of range, and one equal to the start level is in range whenever it is a
/// number below the end level.
pub proof fn lemma_half_open_range(rule: BlockConfig, v: Level)
    ensures
        v == rule.end_level ==> !in_range(rule, v),
        v == rule.start_level && !v.is_nan() && v.spec_lt(rule.end_level) ==> in_range(rule, v),
{
}

/// For a single rule over a cell before the last column and row: a value
/// equal to the end level leaves the fill, and a value equal to the start
/// level, below the end level, is painted when the rule may paint the cell.
pub proof fn lemma_single_rule_threshold_edges(
    default_block: BlockID,
    rule: BlockConfig,
    field: Seq<Seq<Level>>,
    width: nat,
    height: nat,
    x: int,
    y: int,
)
    requires
        0 <= x && 0 <= y && interior(x, y, width, height),
    ensures
        field[x][y] == rule.end_level ==> chunk_of(default_block, seq![rule], field, width, height)[x][y]
            == default_block,
        field[x][y] == rule.start_level && !field[x][y].is_nan() && field[x][y].spec_lt(rule.end_level) && (
        rule.overwrite || default_block == UNSET_BLOCK) ==> chunk_of(default_block, seq![rule], field, width, height)[x][y]
            == rule.block,
{
    let g0 = filled_grid(width, height, default_block);
    assert(seq![rule].drop_last() == Seq::<BlockConfig>::empty());
    assert(paint_all(g0, field, Seq::empty(), width, height) == g0);
    assert(chunk_of(default_block, seq![rule], field, width, height) == paint(g0, field, rule, width, height));
}

} // verus!
