use vstd::prelude::*;

use crate::block::BlockID;
use crate::level::Level;

verus! {

/// Whether `g` is a `width` by `height` grid, addressed `g[x][y]`.
pub open spec fn shaped<T>(g: Seq<Seq<T>>, width: nat, height: nat) -> bool {
    &&& g.len() == width
    &&& forall|x: int| 0 <= x < width ==> (#[trigger] g[x]).len() == height
}

/// The `width` by `height` grid with every cell equal to `v`.
pub open spec fn filled_grid<T>(width: nat, height: nat, v: T) -> Seq<Seq<T>> {
    Seq::new(width, |x: int| Seq::new(height, |y: int| v))
}

/// A grid of block identifiers with its dimensions carried alongside.
pub struct ChunkData {
    width: usize,
    height: usize,
    cells: Vec<Vec<BlockID>>,
}

impl View for ChunkData {
    type V = Seq<Seq<BlockID>>;

    closed spec fn view(&self) -> Seq<Seq<BlockID>> {
        self.cells@.map_values(|c: Vec<BlockID>| c@)
    }
}

/// Builds a column of `height` copies of `v`.
fn column_of<T: Copy>(height: usize, v: T) -> (r: Vec<T>)
    ensures
        r@ == Seq::new(height as nat, |y: int| v),
{
    let mut col: Vec<T> = Vec::new();
    let mut y: usize = 0;
    while y < height
        invariant
            y <= height,
            col@ == Seq::new(y as nat, |i: int| v),
        decreases height - y,
    {
        col.push(v);
        y = y + 1;
        assert(col@ =~= Seq::new(y as nat, |i: int| v));
    }
    col
}

impl ChunkData {
    pub closed spec fn spec_width(&self) -> nat {
        self.width as nat
    }

    pub closed spec fn spec_height(&self) -> nat {
        self.height as nat
    }

    /// The grid's cells match its dimensions.
    pub open spec fn wf(&self) -> bool {
        shaped(self@, self.spec_width(), self.spec_height())
    }

    /// A `width` by `height` grid with every cell set to `fill`.
    pub fn new(width: usize, height: usize, fill: BlockID) -> (r: ChunkData)
        ensures
            r.wf(),
            r.spec_width() == width,
            r.spec_height() == height,
            r@ == filled_grid(width as nat, height as nat, fill),
    {
        let mut cells: Vec<Vec<BlockID>> = Vec::new();
        let mut x: usize = 0;
        while x < width
            invariant
                x <= width,
                cells@.len() == x,
                forall|i: int| 0 <= i < x ==> (#[trigger] cells@[i])@ == Seq::new(height as nat, |y: int| fill),
            decreases width - x,
        {
            let col = column_of(height, fill);
            cells.push(col);
            x = x + 1;
        }
        let r = ChunkData { width, height, cells };
        assert(r@ =~= filled_grid(width as nat, height as nat, fill));
        r
    }

    pub fn width(&self) -> (r: usize)
        ensures
            r == self.spec_width(),
    {
        self.width
    }

    pub fn height(&self) -> (r: usize)
        ensures
            r == self.spec_height(),
    {
        self.height
    }

    /// The block at column `x`, row `y`.
    pub fn get(&self, x: usize, y: usize) -> (r: BlockID)
        requires
            self.wf(),
            x < self.spec_width(),
            y < self.spec_height(),
        ensures
            r == self@[x as int][y as int],
    {
        assert(self@[x as int] == self.cells@[x as int]@);
        self.cells[x][y]
    }

    /// Sets the block at column `x`, row `y`, leaving every other cell.
    pub fn set(&mut self, x: usize, y: usize, b: BlockID)
        requires
            old(self).wf(),
            x < old(self).spec_width(),
            y < old(self).spec_height(),
        ensures
            final(self).wf(),
            final(self).spec_width() == old(self).spec_width(),
            final(self).spec_height() == old(self).spec_height(),
            final(self)@ == old(self)@.update(x as int, old(self)@[x as int].update(y as int, b)),
    {
        let ghost before = self@;
        assert(self@[x as int] == self.cells@[x as int]@);
        self.cells[x][y] = b;
        assert(self@ =~= before.update(x as int, before[x as int].update(y as int, b)));
    }
}

/// A sampled noise field: one level per grid cell, addressed `field[x][y]`.
pub struct NoiseField {
    width: usize,
    height: usize,
    values: Vec<Vec<Level>>,
}

impl View for NoiseField {
    type V = Seq<Seq<Level>>;

    closed spec fn view(&self) -> Seq<Seq<Level>> {
        self.values@.map_values(|c: Vec<Level>| c@)
    }
}

impl NoiseField {
    pub closed spec fn spec_width(&self) -> nat {
        self.width as nat
    }

    pub closed spec fn spec_height(&self) -> nat {
        self.height as nat
    }

    /// The field's values match its dimensions.
    pub open spec fn wf(&self) -> bool {
        shaped(self@, self.spec_width(), self.spec_height())
    }

    /// A `width` by `height` field with every value equal to `v`.
    pub fn filled(width: usize, height: usize, v: Level) -> (r: NoiseField)
        ensures
            r.wf(),
            r.spec_width() == width,
            r.spec_height() == height,
            r@ == filled_grid(width as nat, height as nat, v),
    {
        let mut values: Vec<Vec<Level>> = Vec::new();
        let mut x: usize = 0;
        while x < width
            invariant
                x <= width,
                values@.len() == x,
                forall|i: int| 0 <= i < x ==> (#[trigger] values@[i])@ == Seq::new(height as nat, |y: int| v),
            decreases width - x,
        {
            let col = column_of(height, v);
            values.push(col);
            x = x + 1;
        }
        let r = NoiseField { width, height, values };
        assert(r@ =~= filled_grid(width as nat, height as nat, v));
        r
    }

    /// A field from its columns, each of which must hold `height` values;
    /// `None` when one does not.
    pub fn from_columns(height: usize, columns: Vec<Vec<Level>>) -> (r: Option<NoiseField>)
        ensures
            r is Some <==> forall|x: int| 0 <= x < columns@.len() ==> (#[trigger] columns@[x])@.len() == height,
            r matches Some(f) ==> {
                &&& f.wf()
                &&& f.spec_width() == columns@.len()
                &&& f.spec_height() == height
                &&& f@ == columns@.map_values(|c: Vec<Level>| c@)
            },
    {
        let mut x: usize = 0;
        while x < columns.len()
            invariant
                x <= columns@.len(),
                forall|i: int| 0 <= i < x ==> (#[trigger] columns@[i])@.len() == height,
            decreases columns@.len() - x,
        {
            if columns[x].len() != height {
                return None;
            }
            x = x + 1;
        }
        let width = columns.len();
        Some(NoiseField { width, height, values: columns })
    }

    pub fn width(&self) -> (r: usize)
        ensures
            r == self.spec_width(),
    {
        self.width
    }

    pub fn height(&self) -> (r: usize)
        ensures
            r == self.spec_height(),
    {
        self.height
    }

    /// The value at column `x`, row `y`.
    pub fn get(&self, x: usize, y: usize) -> (r: Level)
        requires
            self.wf(),
            x < self.spec_width(),
            y < self.spec_height(),
        ensures
            r == self@[x as int][y as int],
    {
        assert(self@[x as int] == self.values@[x as int]@);
        self.values[x][y]
    }
}

} // verus!
