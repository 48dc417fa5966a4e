//! The bounded voxel grid.
//!
//! A grid has three axis sizes, each one byte wide, and a dense buffer of
//! `x_size * y_size * z_size` cells. The cell at `(x, y, z)` lives at offset
//! `(y * z_size + z) * x_size + x`. Sizes never change after construction.

use crate::voxel::Voxel;
use vstd::prelude::*;

verus! {

/// One of the three grid axes.
#[derive(Clone, Copy, Debug, PartialEq, Eq, Structural)]
pub enum Axis {
    X,
    Y,
    Z,
}

/// A coordinate that lies at or beyond the size of its axis.
#[derive(Clone, Copy, Debug, PartialEq, Eq, Structural)]
pub struct OutOfBounds {
    pub axis: Axis,
    pub value: u8,
}

/// An axis-aligned box with inclusive corners.
pub struct Cuboid {
    pub x1: int,
    pub y1: int,
    pub z1: int,
    pub x2: int,
    pub y2: int,
    pub z2: int,
}

/// The mathematical content of a grid.
#[verifier::ext_equal]
pub struct GridView<C> {
    pub x_size: int,
    pub y_size: int,
    pub z_size: int,
    pub cells: Seq<C>,
}

/// `(a, b, c)` comes before `(x, y, z)` when x varies slowest and z fastest.
pub open spec fn precedes(a: int, b: int, c: int, x: int, y: int, z: int) -> bool {
    a < x || (a == x && (b < y || (b == y && c < z)))
}

impl Cuboid {
    pub open spec fn contains(self, x: int, y: int, z: int) -> bool {
        self.x1 <= x <= self.x2 && self.y1 <= y <= self.y2 && self.z1 <= z <= self.z2
    }

    pub open spec fn is_empty(self) -> bool {
        self.x1 > self.x2 || self.y1 > self.y2 || self.z1 > self.z2
    }
}

impl<C> GridView<C> {
    /// Sizes fit a byte and the buffer holds one cell per position.
    pub open spec fn wf(self) -> bool {
        &&& 0 <= self.x_size <= 255
        &&& 0 <= self.y_size <= 255
        &&& 0 <= self.z_size <= 255
        &&& self.cells.len() == self.x_size * self.y_size * self.z_size
    }

    pub open spec fn in_bounds(self, x: int, y: int, z: int) -> bool {
        0 <= x < self.x_size && 0 <= y < self.y_size && 0 <= z < self.z_size
    }

    /// The buffer offset of a position.
    pub open spec fn index(self, x: int, y: int, z: int) -> int {
        (y * self.z_size + z) * self.x_size + x
    }

    /// The content of the cell at a position within bounds.
    pub open spec fn cell(self, x: int, y: int, z: int) -> C {
        self.cells[self.index(x, y, z)]
    }

    /// The same grid with one cell replaced.
    pub open spec fn with_cell(self, x: int, y: int, z: int, value: C) -> Self {
        GridView { cells: self.cells.update(self.index(x, y, z), value), ..self }
    }

    /// Why a position is rejected: its first coordinate, in the order x, y, z,
    /// that reaches the size of its axis. `None` for a position within bounds.
    pub open spec fn rejection(self, x: u8, y: u8, z: u8) -> Option<OutOfBounds> {
        if x >= self.x_size {
            Some(OutOfBounds { axis: Axis::X, value: x })
        } else if y >= self.y_size {
            Some(OutOfBounds { axis: Axis::Y, value: y })
        } else if z >= self.z_size {
            Some(OutOfBounds { axis: Axis::Z, value: z })
        } else {
            None
        }
    }

    /// The first position of `region`, walking x slowest and z fastest, that
    /// lies outside the grid; `None` when the walk meets no such position.
    pub open spec fn first_outside(self, region: Cuboid) -> Option<(int, int, int)> {
        if region.is_empty() {
            None
        } else if !self.in_bounds(region.x1, region.y1, region.z1) {
            Some((region.x1, region.y1, region.z1))
        } else if region.z2 >= self.z_size {
            Some((region.x1, region.y1, self.z_size))
        } else if region.y2 >= self.y_size {
            Some((region.x1, self.y_size, region.z1))
        } else if region.x2 >= self.x_size {
            Some((self.x_size, region.y1, region.z1))
        } else {
            None
        }
    }

    /// Whether a fill of `region` writes the cell at `(x, y, z)`: the cell lies
    /// in the region, and the walk reaches it before it leaves the grid.
    pub open spec fn fill_reaches(self, region: Cuboid, x: int, y: int, z: int) -> bool {
        region.contains(x, y, z) && match self.first_outside(region) {
            Some((fx, fy, fz)) => precedes(x, y, z, fx, fy, fz),
            None => true,
        }
    }

    /// What a fill of `region` with `value` makes of this grid: the sizes stay,
    /// the cells the walk reaches hold `value`, and the others are untouched.
    pub open spec fn filled_as(self, region: Cuboid, value: C, after: Self) -> bool {
        &&& after.wf()
        &&& after.x_size == self.x_size
        &&& after.y_size == self.y_size
        &&& after.z_size == self.z_size
        &&& forall|x: int, y: int, z: int|
            self.in_bounds(x, y, z) ==> #[trigger] after.cell(x, y, z) == (if self.fill_reaches(
                region,
                x,
                y,
                z,
            ) {
                value
            } else {
                self.cell(x, y, z)
            })
    }

    /// Every cell holds `value`.
    pub open spec fn uniform(self, value: C) -> bool {
        forall|i: int| 0 <= i < self.cells.len() ==> #[trigger] self.cells[i] == value
    }
}

/// A position within bounds has an offset within the buffer.
pub proof fn lemma_index_in_range<C>(g: GridView<C>, x: int, y: int, z: int)
    requires
        g.wf(),
        g.in_bounds(x, y, z),
    ensures
        0 <= g.index(x, y, z) < g.cells.len(),
{
    let (xs, ys, zs) = (g.x_size, g.y_size, g.z_size);
    assert(0 <= y * zs + z <= ys * zs - 1) by (nonlinear_arith)
        requires
            0 <= y < ys,
            0 <= z < zs,
    ;
    let row = y * zs + z;
    assert(0 <= row * xs + x <= xs * ys * zs - 1) by (nonlinear_arith)
        requires
            0 <= row <= ys * zs - 1,
            0 <= x < xs,
    ;
}

/// Two positions within bounds share an offset only if they are the same position.
pub proof fn lemma_index_injective<C>(
    g: GridView<C>,
    x: int,
    y: int,
    z: int,
    a: int,
    b: int,
    c: int,
)
    requires
        g.in_bounds(x, y, z),
        g.in_bounds(a, b, c),
        g.index(x, y, z) == g.index(a, b, c),
    ensures
        x == a && y == b && z == c,
{
    let (xs, zs) = (g.x_size, g.z_size);
    let r1 = y * zs + z;
    let r2 = b * zs + c;
    assert(r1 == r2 && x == a) by (nonlinear_arith)
        requires
            r1 * xs + x == r2 * xs + a,
            0 <= x < xs,
            0 <= a < xs,
    ;
    assert(y == b && z == c) by (nonlinear_arith)
        requires
            y * zs + z == b * zs + c,
            0 <= z < zs,
            0 <= c < zs,
    ;
}

/// Every buffer offset belongs to a position within bounds.
pub proof fn lemma_index_surjective<C>(g: GridView<C>, i: int) -> (p: (int, int, int))
    requires
        g.wf(),
        0 <= i < g.cells.len(),
    ensures
        g.in_bounds(p.0, p.1, p.2),
        g.index(p.0, p.1, p.2) == i,
{
    let (xs, ys, zs) = (g.x_size, g.y_size, g.z_size);
    assert(xs > 0 && ys > 0 && zs > 0) by (nonlinear_arith)
        requires
            0 <= xs,
            0 <= ys,
            0 <= zs,
            0 < xs * ys * zs,
    ;
    let x = i % xs;
    let row = i / xs;
    let z = row % zs;
    let y = row / zs;
    assert(i == row * xs + x && 0 <= x < xs && 0 <= row) by (nonlinear_arith)
        requires
            x == i % xs,
            row == i / xs,
            xs > 0,
            i >= 0,
    ;
    assert(row == y * zs + z && 0 <= z < zs && 0 <= y) by (nonlinear_arith)
        requires
            z == row % zs,
            y == row / zs,
            zs > 0,
            row >= 0,
    ;
    assert(y < ys) by (nonlinear_arith)
        requires
            (y * zs + z) * xs + x < xs * ys * zs,
            0 <= x,
            0 <= z,
            0 <= y,
            xs > 0,
            zs > 0,
            ys > 0,
    ;
    (x, y, z)
}

/// A cell that was written reads back as written, and every other cell reads
/// as it did before.
pub proof fn lemma_set_then_get<C>(g: GridView<C>, x: int, y: int, z: int, value: C)
    requires
        g.wf(),
        g.in_bounds(x, y, z),
    ensures
        g.with_cell(x, y, z, value).wf(),
        g.with_cell(x, y, z, value).cell(x, y, z) == value,
        forall|a: int, b: int, c: int|
            g.in_bounds(a, b, c) && !(a == x && b == y && c == z) ==> #[trigger] g.with_cell(
                x,
                y,
                z,
                value,
            ).cell(a, b, c) == g.cell(a, b, c),
{
    lemma_index_in_range(g, x, y, z);
    assert forall|a: int, b: int, c: int|
        g.in_bounds(a, b, c) && !(a == x && b == y && c == z) implies #[trigger] g.with_cell(
        x,
        y,
        z,
        value,
    ).cell(a, b, c) == g.cell(a, b, c) by {
        lemma_index_in_range(g, a, b, c);
        if g.index(a, b, c) == g.index(x, y, z) {
            lemma_index_injective(g, x, y, z, a, b, c);
        }
    }
}

/// Two well-formed grids of equal sizes that agree at every position within
/// bounds are the same grid.
pub proof fn lemma_grid_extensional<C>(g: GridView<C>, h: GridView<C>)
    requires
        g.wf(),
        h.wf(),
        g.x_size == h.x_size,
        g.y_size == h.y_size,
        g.z_size == h.z_size,
        forall|x: int, y: int, z: int|
            g.in_bounds(x, y, z) ==> #[trigger] g.cell(x, y, z) == h.cell(x, y, z),
    ensures
        g == h,
{
    assert forall|i: int| 0 <= i < g.cells.len() implies g.cells[i] == h.cells[i] by {
        let p = lemma_index_surjective(g, i);
        assert(g.cell(p.0, p.1, p.2) == h.cell(p.0, p.1, p.2));
    }
    assert(g.cells =~= h.cells);
}

/// `first_outside` names the first position of the walk that lies outside the
/// grid: whoever finds a position of the region outside the grid, with every
/// earlier position of the region inside, has found that one.
pub proof fn lemma_first_outside_is_least<C>(
    g: GridView<C>,
    region: Cuboid,
    x: int,
    y: int,
    z: int,
)
    requires
        g.wf(),
        region.contains(x, y, z),
        !g.in_bounds(x, y, z),
        0 <= region.x1 && 0 <= region.y1 && 0 <= region.z1,
        forall|a: int, b: int, c: int|
            region.contains(a, b, c) && precedes(a, b, c, x, y, z) ==> #[trigger] g.in_bounds(
                a,
                b,
                c,
            ),
    ensures
        g.first_outside(region) == Some((x, y, z)),
{
    let (x1, y1, z1) = (region.x1, region.y1, region.z1);
    if !g.in_bounds(x1, y1, z1) {
        if precedes(x1, y1, z1, x, y, z) {
            assert(g.in_bounds(x1, y1, z1));
        }
    } else if region.z2 >= g.z_size {
        let zs = g.z_size;
        assert(region.contains(x1, y1, zs));
        if precedes(x1, y1, zs, x, y, z) {
            assert(g.in_bounds(x1, y1, zs));
        }
        if precedes(x, y, z, x1, y1, zs) {
            assert(x == x1 && y == y1 && z1 <= z < zs);
        }
    } else if region.y2 >= g.y_size {
        let ys = g.y_size;
        assert(region.contains(x1, ys, z1));
        if precedes(x1, ys, z1, x, y, z) {
            assert(g.in_bounds(x1, ys, z1));
        }
        if precedes(x, y, z, x1, ys, z1) {
            assert(x == x1 && y1 <= y < ys);
        }
    } else if region.x2 >= g.x_size {
        let xs = g.x_size;
        assert(region.contains(xs, y1, z1));
        if precedes(xs, y1, z1, x, y, z) {
            assert(g.in_bounds(xs, y1, z1));
        }
    } else {
    }
}

/// A region all of whose positions lie inside the grid is walked to the end.
pub proof fn lemma_first_outside_none<C>(g: GridView<C>, region: Cuboid)
    requires
        forall|a: int, b: int, c: int|
            region.contains(a, b, c) ==> #[trigger] g.in_bounds(a, b, c),
    ensures
        g.first_outside(region) is None,
{
    if !region.is_empty() {
        assert(region.contains(region.x1, region.y1, region.z1));
        assert(g.in_bounds(region.x1, region.y1, region.z1));
        assert(region.contains(region.x1, region.y1, region.z2));
        assert(g.in_bounds(region.x1, region.y1, region.z2));
        assert(region.contains(region.x1, region.y2, region.z1));
        assert(g.in_bounds(region.x1, region.y2, region.z1));
        assert(region.contains(region.x2, region.y1, region.z1));
        assert(g.in_bounds(region.x2, region.y1, region.z1));
    }
}

/// A position is rejected exactly when it lies outside the grid, and each axis
/// alone suffices: a coordinate at or beyond the size of its axis rejects the
/// position whatever the other two are.
pub proof fn lemma_rejected_iff_outside<C>(g: GridView<C>, x: u8, y: u8, z: u8)
    ensures
        g.rejection(x, y, z) is Some <==> !g.in_bounds(x as int, y as int, z as int),
        x >= g.x_size ==> g.rejection(x, y, z) is Some,
        y >= g.y_size ==> g.rejection(x, y, z) is Some,
        z >= g.z_size ==> g.rejection(x, y, z) is Some,
{
}

/// A fill of a box that holds at least one position fails as soon as one
/// coordinate of either corner lies at or beyond the size of its axis.
pub proof fn lemma_fill_rejects_outside<C>(g: GridView<C>, region: Cuboid)
    requires
        !region.is_empty(),
        region.x1 >= g.x_size || region.x2 >= g.x_size || region.y1 >= g.y_size || region.y2
            >= g.y_size || region.z1 >= g.z_size || region.z2 >= g.z_size,
    ensures
        g.first_outside(region) is Some,
{
}

/// A fill of a box that lies within a grid whose cells all hold `vacant`
/// leaves `value` in exactly the cells of the box and `vacant` in all others.
pub proof fn lemma_fill_fresh<C>(
    fresh: GridView<C>,
    region: Cuboid,
    value: C,
    vacant: C,
    after: GridView<C>,
)
    requires
        fresh.wf(),
        fresh.uniform(vacant),
        fresh.first_outside(region) is None,
        fresh.filled_as(region, value, after),
    ensures
        forall|x: int, y: int, z: int|
            fresh.in_bounds(x, y, z) ==> #[trigger] after.cell(x, y, z) == (if region.contains(
                x,
                y,
                z,
            ) {
                value
            } else {
                vacant
            }),
{
    assert forall|x: int, y: int, z: int| fresh.in_bounds(x, y, z) implies #[trigger] after.cell(
        x,
        y,
        z,
    ) == (if region.contains(x, y, z) {
        value
    } else {
        vacant
    }) by {
        lemma_index_in_range(fresh, x, y, z);
        assert(fresh.cell(x, y, z) == vacant);
    }
}

/// A dense, bounds-checked grid of voxels.
pub struct Schematic<C: Voxel> {
    x_size: u8,
    y_size: u8,
    z_size: u8,
    blocks: Vec<C>,
}

impl<C: Voxel> View for Schematic<C> {
    type V = GridView<C>;

    closed spec fn view(&self) -> GridView<C> {
        GridView {
            x_size: self.x_size as int,
            y_size: self.y_size as int,
            z_size: self.z_size as int,
            cells: self.blocks@,
        }
    }
}

/// The region a fill call names.
pub open spec fn region_of(x1: u8, y1: u8, z1: u8, x2: u8, y2: u8, z2: u8) -> Cuboid {
    Cuboid {
        x1: x1 as int,
        y1: y1 as int,
        z1: z1 as int,
        x2: x2 as int,
        y2: y2 as int,
        z2: z2 as int,
    }
}

impl<C: Voxel> Clone for Schematic<C> {
    fn clone(&self) -> (copy: Self)
        ensures
            copy@ == self@,
    {
        proof {
            use_type_invariant(self);
        }
        let mut blocks: Vec<C> = Vec::with_capacity(self.blocks.len());
        let mut i: usize = 0;
        while i < self.blocks.len()
            invariant
                i <= self.blocks@.len(),
                blocks@ == self.blocks@.take(i as int),
            decreases self.blocks@.len() - i,
        {
            blocks.push(self.blocks[i]);
            i += 1;
        }
        Schematic { x_size: self.x_size, y_size: self.y_size, z_size: self.z_size, blocks }
    }
}

impl<C: Voxel> Schematic<C> {
    #[verifier::type_invariant]
    spec fn buffer_matches_sizes(self) -> bool {
        self.blocks@.len() == self.x_size * self.y_size * self.z_size
    }

    /// A grid of the given sizes with every cell vacant.
    pub fn new(x_size: u8, y_size: u8, z_size: u8) -> (grid: Self)
        ensures
            grid@.wf(),
            grid@.x_size == x_size,
            grid@.y_size == y_size,
            grid@.z_size == z_size,
            grid@.uniform(C::empty_value()),
    {
        assert(x_size * y_size * z_size <= 255 * 255 * 255) by (nonlinear_arith)
            requires
                0 <= x_size <= 255,
                0 <= y_size <= 255,
                0 <= z_size <= 255,
        ;
        assert(x_size * y_size <= 255 * 255) by (nonlinear_arith)
            requires
                0 <= x_size <= 255,
                0 <= y_size <= 255,
        ;
        let capacity: usize = x_size as usize * y_size as usize * z_size as usize;
        let mut blocks: Vec<C> = Vec::with_capacity(capacity);
        let mut filled: usize = 0;
        while filled < capacity
            invariant
                filled <= capacity,
                blocks@.len() == filled,
                forall|i: int| 0 <= i < filled ==> #[trigger] blocks@[i] == C::empty_value(),
            decreases capacity - filled,
        {
            blocks.push(C::empty());
            filled += 1;
        }
        Schematic { x_size, y_size, z_size, blocks }
    }

    /// Well-formedness of the view, for callers that reason about offsets.
    pub fn sizes(&self) -> (sizes: (u8, u8, u8))
        ensures
            self@.wf(),
            sizes.0 == self@.x_size,
            sizes.1 == self@.y_size,
            sizes.2 == self@.z_size,
    {
        proof {
            use_type_invariant(self);
        }
        (self.x_size, self.y_size, self.z_size)
    }

    pub fn x_size(&self) -> (size: u8)
        ensures
            size == self@.x_size,
    {
        self.x_size
    }

    pub fn y_size(&self) -> (size: u8)
        ensures
            size == self@.y_size,
    {
        self.y_size
    }

    pub fn z_size(&self) -> (size: u8)
        ensures
            size == self@.z_size,
    {
        self.z_size
    }

    /// The cells in buffer order.
    pub fn cells(&self) -> (cells: &[C])
        ensures
            self@.wf(),
            cells@ == self@.cells,
    {
        proof {
            use_type_invariant(self);
        }
        self.blocks.as_slice()
    }

    /// The buffer offset of a position, or the reason the position is rejected.
    pub fn get_index(&self, x: u8, y: u8, z: u8) -> (offset: Result<usize, OutOfBounds>)
        ensures
            self@.wf(),
            match offset {
                Ok(i) => self@.in_bounds(x as int, y as int, z as int) && i == self@.index(
                    x as int,
                    y as int,
                    z as int,
                ) && i < self@.cells.len(),
                Err(e) => !self@.in_bounds(x as int, y as int, z as int) && self@.rejection(
                    x,
                    y,
                    z,
                ) == Some(e),
            },
    {
        proof {
            use_type_invariant(self);
        }
        if x >= self.x_size {
            return Err(OutOfBounds { axis: Axis::X, value: x });
        }
        if y >= self.y_size {
            return Err(OutOfBounds { axis: Axis::Y, value: y });
        }
        if z >= self.z_size {
            return Err(OutOfBounds { axis: Axis::Z, value: z });
        }
        proof {
            lemma_index_in_range(self@, x as int, y as int, z as int);
            let (xs, zs) = (self.x_size as int, self.z_size as int);
            assert(0 <= y * zs + z <= 255 * 255 + 255) by (nonlinear_arith)
                requires
                    0 <= y <= 255,
                    0 <= z <= 255,
                    0 <= zs <= 255,
            ;
            let row = y * zs + z;
            assert(0 <= row * xs <= (255 * 255 + 255) * 255) by (nonlinear_arith)
                requires
                    0 <= row <= 255 * 255 + 255,
                    0 <= xs <= 255,
            ;
        }
        Ok((y as usize * self.z_size as usize + z as usize) * self.x_size as usize + x as usize)
    }

    /// Reads one cell.
    pub fn get(&self, x: u8, y: u8, z: u8) -> (cell: Result<C, OutOfBounds>)
        ensures
            self@.wf(),
            match cell {
                Ok(c) => self@.in_bounds(x as int, y as int, z as int) && c == self@.cell(
                    x as int,
                    y as int,
                    z as int,
                ),
                Err(e) => !self@.in_bounds(x as int, y as int, z as int) && self@.rejection(
                    x,
                    y,
                    z,
                ) == Some(e),
            },
    {
        match self.get_index(x, y, z) {
            Ok(index) => Ok(self.blocks[index]),
            Err(e) => Err(e),
        }
    }

    /// Writes one cell. A rejected position leaves the grid as it was.
    pub fn set(&mut self, x: u8, y: u8, z: u8, value: C) -> (done: Result<(), OutOfBounds>)
        ensures
            old(self)@.wf(),
            final(self)@.wf(),
            match done {
                Ok(()) => old(self)@.in_bounds(x as int, y as int, z as int) && final(self)@
                    == old(self)@.with_cell(x as int, y as int, z as int, value),
                Err(e) => !old(self)@.in_bounds(x as int, y as int, z as int) && old(
                    self,
                )@.rejection(x, y, z) == Some(e) && final(self)@ == old(self)@,
            },
    {
        match self.get_index(x, y, z) {
            Ok(index) => {
                self.blocks[index] = value;
                Ok(())
            },
            Err(e) => Err(e),
        }
    }

    /// Writes `value` to every cell of the inclusive box from `(x1, y1, z1)` to
    /// `(x2, y2, z2)`, walking x slowest and z fastest. The walk stops at the
    /// first position outside the grid; what it wrote before stays written.
    pub fn fill(&mut self, x1: u8, y1: u8, z1: u8, x2: u8, y2: u8, z2: u8, value: C) -> (done:
        Result<(), OutOfBounds>)
        ensures
            old(self)@.wf(),
            old(self)@.filled_as(region_of(x1, y1, z1, x2, y2, z2), value, final(self)@),
            match old(self)@.first_outside(region_of(x1, y1, z1, x2, y2, z2)) {
                Some((fx, fy, fz)) => 0 <= fx <= 255 && 0 <= fy <= 255 && 0 <= fz <= 255
                    && done is Err && Some(done->Err_0) == old(self)@.rejection(
                    fx as u8,
                    fy as u8,
                    fz as u8,
                ),
                None => done is Ok,
            },
    {
        let ghost region = region_of(x1, y1, z1, x2, y2, z2);
        let ghost start = self@;
        proof {
            use_type_invariant(&*self);
        }
        let mut x: u16 = x1 as u16;
        while x <= x2 as u16
            invariant
                start.wf(),
                self@.wf(),
                start == old(self)@,
                region == region_of(x1, y1, z1, x2, y2, z2),
                self@.x_size == start.x_size,
                self@.y_size == start.y_size,
                self@.z_size == start.z_size,
                x1 <= x <= 256,
                forall|a: int, b: int, c: int|
                    region.contains(a, b, c) && a < x ==> #[trigger] start.in_bounds(a, b, c),
                forall|a: int, b: int, c: int|
                    start.in_bounds(a, b, c) ==> #[trigger] self@.cell(a, b, c) == (if region.contains(
                        a,
                        b,
                        c,
                    ) && a < x {
                        value
                    } else {
                        start.cell(a, b, c)
                    }),
            decreases x2 + 1 - x,
        {
            let mut y: u16 = y1 as u16;
            while y <= y2 as u16
                invariant
                    start.wf(),
                    self@.wf(),
                    start == old(self)@,
                    region == region_of(x1, y1, z1, x2, y2, z2),
                    self@.x_size == start.x_size,
                    self@.y_size == start.y_size,
                    self@.z_size == start.z_size,
                    x1 <= x <= x2,
                    y1 <= y <= 256,
                    forall|a: int, b: int, c: int|
                        region.contains(a, b, c) && precedes(a, b, c, x as int, y as int, z1 as int)
                            ==> #[trigger] start.in_bounds(a, b, c),
                    forall|a: int, b: int, c: int|
                        start.in_bounds(a, b, c) ==> #[trigger] self@.cell(a, b, c) == (
                        if region.contains(a, b, c) && precedes(
                            a,
                            b,
                            c,
                            x as int,
                            y as int,
                            z1 as int,
                        ) {
                            value
                        } else {
                            start.cell(a, b, c)
                        }),
                decreases y2 + 1 - y,
            {
                let mut z: u16 = z1 as u16;
                while z <= z2 as u16
                    invariant
                        start.wf(),
                        self@.wf(),
                        start == old(self)@,
                        region == region_of(x1, y1, z1, x2, y2, z2),
                        self@.x_size == start.x_size,
                        self@.y_size == start.y_size,
                        self@.z_size == start.z_size,
                        x1 <= x <= x2,
                        y1 <= y <= y2,
                        z1 <= z <= 256,
                        forall|a: int, b: int, c: int|
                            region.contains(a, b, c) && precedes(
                                a,
                                b,
                                c,
                                x as int,
                                y as int,
                                z as int,
                            ) ==> #[trigger] start.in_bounds(a, b, c),
                        forall|a: int, b: int, c: int|
                            start.in_bounds(a, b, c) ==> #[trigger] self@.cell(a, b, c) == (
                            if region.contains(a, b, c) && precedes(
                                a,
                                b,
                                c,
                                x as int,
                                y as int,
                                z as int,
                            ) {
                                value
                            } else {
                                start.cell(a, b, c)
                            }),
                    decreases z2 + 1 - z,
                {
                    let ghost before = self@;
                    match self.set(x as u8, y as u8, z as u8, value) {
                        Ok(()) => {
                            proof {
                                lemma_set_then_get(before, x as int, y as int, z as int, value);
                            }
                        },
                        Err(e) => {
                            proof {
                                lemma_first_outside_is_least(
                                    start,
                                    region,
                                    x as int,
                                    y as int,
                                    z as int,
                                );
                            }
                            return Err(e);
                        },
                    }
                    z += 1;
                }
                y += 1;
            }
            x += 1;
        }
        proof {
            lemma_first_outside_none(start, region);
        }
        Ok(())
    }
}

} // verus!
