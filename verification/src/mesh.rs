//! Surface mesh extraction and vertex deduplication.
//!
//! Every occupied cell is a unit cube. A side of the cube becomes two
//! triangles only where it borders vacant space or the edge of the grid; sides
//! between two occupied cells are left out. A cube that shows at least one
//! side contributes its eight corners, numbered `4 * dx + 2 * dy + dz`.

use crate::schematic::{GridView, Schematic};
use crate::voxel::Voxel;
use std::collections::HashMap;
use vstd::prelude::*;

verus! {

broadcast use vstd::std_specs::hash::group_hash_axioms;

/// One side of a unit cube, named by the direction it faces.
#[derive(Clone, Copy, Debug, PartialEq, Eq, Structural)]
pub enum Face {
    NegX,
    PosX,
    NegY,
    PosY,
    NegZ,
    PosZ,
}

/// A corner of a unit cube: its grid position and the color of its voxel.
#[derive(Copy, Debug, PartialEq)]
pub struct Vertex<C> {
    pub x: u16,
    pub y: u16,
    pub z: u16,
    pub color: C,
}

impl<C: Copy> Clone for Vertex<C> {
    fn clone(&self) -> (copy: Self)
        ensures
            copy == *self,
    {
        *self
    }
}

/// An indexed triangle list: every three indices make one triangle.
pub struct Mesh<C> {
    pub vertices: Vec<Vertex<C>>,
    pub indices: Vec<u32>,
}

/// The mathematical content of a mesh.
#[verifier::ext_equal]
pub struct MeshView<C> {
    pub vertices: Seq<Vertex<C>>,
    pub indices: Seq<u32>,
}

impl<C> View for Mesh<C> {
    type V = MeshView<C>;

    open spec fn view(&self) -> MeshView<C> {
        MeshView { vertices: self.vertices@, indices: self.indices@ }
    }
}

impl<C> MeshView<C> {
    pub open spec fn empty() -> Self {
        MeshView { vertices: Seq::empty(), indices: Seq::empty() }
    }

    /// This mesh with more vertices and more indices at the end.
    pub open spec fn extended(self, vertices: Seq<Vertex<C>>, indices: Seq<u32>) -> Self {
        MeshView { vertices: self.vertices + vertices, indices: self.indices + indices }
    }

    /// Whole triangles only, and every index names a vertex of the mesh.
    pub open spec fn wf(self) -> bool {
        &&& self.indices.len() % 3 == 0
        &&& forall|i: int|
            0 <= i < self.indices.len() ==> (#[trigger] self.indices[i]) < self.vertices.len()
    }
}

impl Face {
    /// The step from a cell to its neighbor across this side.
    pub open spec fn step(self) -> (int, int, int) {
        match self {
            Face::NegX => (-1, 0, 0),
            Face::PosX => (1, 0, 0),
            Face::NegY => (0, -1, 0),
            Face::PosY => (0, 1, 0),
            Face::NegZ => (0, 0, -1),
            Face::PosZ => (0, 0, 1),
        }
    }

    /// The corners of the two triangles of this side, in drawing order.
    pub open spec fn winding(self) -> Seq<int> {
        match self {
            Face::NegX => seq![3, 2, 1, 0, 1, 2],
            Face::PosX => seq![6, 7, 5, 6, 5, 4],
            Face::NegY => seq![0, 4, 5, 0, 5, 1],
            Face::PosY => seq![7, 6, 2, 7, 2, 3],
            Face::NegZ => seq![2, 6, 0, 6, 4, 0],
            Face::PosZ => seq![7, 3, 1, 7, 1, 5],
        }
    }

    /// The six indices of this side for a cube whose corners start at `base`.
    pub open spec fn indices(self, base: int) -> Seq<u32> {
        Seq::new(6, |k: int| (base + self.winding()[k]) as u32)
    }
}

/// Whether the side `face` of the cell at `(x, y, z)` is visible: the neighbor
/// across it lies outside the grid or is vacant.
pub open spec fn exposed<C: Voxel>(g: GridView<C>, x: int, y: int, z: int, face: Face) -> bool {
    let (dx, dy, dz) = face.step();
    !g.in_bounds(x + dx, y + dy, z + dz) || g.cell(x + dx, y + dy, z + dz).vacant()
}

/// Whether any side of the cell at `(x, y, z)` is visible.
pub open spec fn any_exposed<C: Voxel>(g: GridView<C>, x: int, y: int, z: int) -> bool {
    ||| exposed(g, x, y, z, Face::NegX)
    ||| exposed(g, x, y, z, Face::PosX)
    ||| exposed(g, x, y, z, Face::NegY)
    ||| exposed(g, x, y, z, Face::PosY)
    ||| exposed(g, x, y, z, Face::NegZ)
    ||| exposed(g, x, y, z, Face::PosZ)
}

/// Whether the cell at `(x, y, z)` shows up in the mesh: it is occupied and at
/// least one of its sides is visible.
pub open spec fn visible<C: Voxel>(g: GridView<C>, x: int, y: int, z: int) -> bool {
    !g.cell(x, y, z).vacant() && any_exposed(g, x, y, z)
}

/// The indices one side of a cell contributes: six if it is visible, none if not.
pub open spec fn side_indices<C: Voxel>(
    g: GridView<C>,
    x: int,
    y: int,
    z: int,
    base: int,
    face: Face,
) -> Seq<u32> {
    if exposed(g, x, y, z, face) {
        face.indices(base)
    } else {
        Seq::empty()
    }
}

/// The indices an occupied cell contributes, side by side in the order
/// -X, +X, -Y, +Y, -Z, +Z.
pub open spec fn cell_indices<C: Voxel>(g: GridView<C>, x: int, y: int, z: int, base: int) -> Seq<
    u32,
> {
    side_indices(g, x, y, z, base, Face::NegX) + side_indices(g, x, y, z, base, Face::PosX)
        + side_indices(g, x, y, z, base, Face::NegY) + side_indices(g, x, y, z, base, Face::PosY)
        + side_indices(g, x, y, z, base, Face::NegZ) + side_indices(g, x, y, z, base, Face::PosZ)
}

/// Corner `k` of the cube at `(x, y, z)`.
pub open spec fn corner<C>(x: int, y: int, z: int, color: C, k: int) -> Vertex<C> {
    Vertex { x: (x + k / 4) as u16, y: (y + (k / 2) % 2) as u16, z: (z + k % 2) as u16, color }
}

/// The eight corners of the cube at `(x, y, z)`.
pub open spec fn cell_vertices<C>(x: int, y: int, z: int, color: C) -> Seq<Vertex<C>> {
    Seq::new(8, |k: int| corner(x, y, z, color, k))
}

/// The mesh `m` extended by what the cell at `(x, y, z)` contributes.
pub open spec fn append_cell<C: Voxel>(
    m: MeshView<C>,
    g: GridView<C>,
    x: int,
    y: int,
    z: int,
) -> MeshView<C> {
    if visible(g, x, y, z) {
        m.extended(
            cell_vertices(x, y, z, g.cell(x, y, z)),
            cell_indices(g, x, y, z, m.vertices.len() as int),
        )
    } else {
        m
    }
}

/// `m` extended by the cells `(x, y, 0)` up to `(x, y, n - 1)`.
pub open spec fn mesh_z<C: Voxel>(
    g: GridView<C>,
    m: MeshView<C>,
    x: int,
    y: int,
    n: nat,
) -> MeshView<C>
    decreases n,
{
    if n == 0 {
        m
    } else {
        append_cell(mesh_z(g, m, x, y, (n - 1) as nat), g, x, y, n - 1)
    }
}

/// `m` extended by the first `n` columns of the plane at `x`.
pub open spec fn mesh_y<C: Voxel>(g: GridView<C>, m: MeshView<C>, x: int, n: nat) -> MeshView<C>
    decreases n,
{
    if n == 0 {
        m
    } else {
        mesh_z(g, mesh_y(g, m, x, (n - 1) as nat), x, n - 1, g.z_size as nat)
    }
}

/// `m` extended by the first `n` planes of the grid.
pub open spec fn mesh_x<C: Voxel>(g: GridView<C>, m: MeshView<C>, n: nat) -> MeshView<C>
    decreases n,
{
    if n == 0 {
        m
    } else {
        mesh_y(g, mesh_x(g, m, (n - 1) as nat), n - 1, g.y_size as nat)
    }
}

/// The surface mesh of a grid: the contributions of all cells, x slowest and
/// z fastest.
pub open spec fn surface_mesh<C: Voxel>(g: GridView<C>) -> MeshView<C> {
    mesh_x(g, MeshView::empty(), g.x_size as nat)
}

/// No side is drawn between two occupied cells.
pub proof fn lemma_no_face_between_occupied<C: Voxel>(
    g: GridView<C>,
    x: int,
    y: int,
    z: int,
    base: int,
    face: Face,
)
    requires
        g.in_bounds(x + face.step().0, y + face.step().1, z + face.step().2),
        !g.cell(x + face.step().0, y + face.step().1, z + face.step().2).vacant(),
    ensures
        !exposed(g, x, y, z, face),
        side_indices(g, x, y, z, base, face).len() == 0,
{
}

/// A visible side is drawn as two triangles over the corners of its own cube.
pub proof fn lemma_exposed_face_drawn<C: Voxel>(
    g: GridView<C>,
    x: int,
    y: int,
    z: int,
    base: int,
    face: Face,
)
    requires
        exposed(g, x, y, z, face),
        0 <= base,
        base + 7 <= u32::MAX,
    ensures
        side_indices(g, x, y, z, base, face).len() == 6,
        forall|k: int|
            0 <= k < 6 ==> base <= (#[trigger] side_indices(g, x, y, z, base, face)[k]) < base + 8,
{
    let w = face.winding();
    assert(w.len() == 6);
    assert forall|k: int| 0 <= k < 6 implies 0 <= #[trigger] w[k] < 8 by {
        match face {
            Face::NegX => {},
            Face::PosX => {},
            Face::NegY => {},
            Face::PosY => {},
            Face::NegZ => {},
            Face::PosZ => {},
        }
    }
    assert forall|k: int| 0 <= k < 6 implies base <= (#[trigger] side_indices(
        g,
        x,
        y,
        z,
        base,
        face,
    )[k]) < base + 8 by {
        assert(0 <= w[k] < 8);
    }
}

/// What a cell contributes is whole triangles over the corners of its own
/// cube, and nothing at all unless the cell shows a side.
pub proof fn lemma_cell_indices_in_cube<C: Voxel>(g: GridView<C>, x: int, y: int, z: int, base: int)
    requires
        0 <= base,
        base + 7 <= u32::MAX,
    ensures
        cell_indices(g, x, y, z, base).len() % 6 == 0,
        cell_indices(g, x, y, z, base).len() <= 36,
        forall|k: int|
            0 <= k < cell_indices(g, x, y, z, base).len() ==> base <= (#[trigger] cell_indices(
                g,
                x,
                y,
                z,
                base,
            )[k]) < base + 8,
        cell_indices(g, x, y, z, base).len() > 0 ==> any_exposed(g, x, y, z),
{
    let s1 = side_indices(g, x, y, z, base, Face::NegX);
    let s2 = side_indices(g, x, y, z, base, Face::PosX);
    let s3 = side_indices(g, x, y, z, base, Face::NegY);
    let s4 = side_indices(g, x, y, z, base, Face::PosY);
    let s5 = side_indices(g, x, y, z, base, Face::NegZ);
    let s6 = side_indices(g, x, y, z, base, Face::PosZ);
    if exposed(g, x, y, z, Face::NegX) {
        lemma_exposed_face_drawn(g, x, y, z, base, Face::NegX);
    }
    if exposed(g, x, y, z, Face::PosX) {
        lemma_exposed_face_drawn(g, x, y, z, base, Face::PosX);
    }
    if exposed(g, x, y, z, Face::NegY) {
        lemma_exposed_face_drawn(g, x, y, z, base, Face::NegY);
    }
    if exposed(g, x, y, z, Face::PosY) {
        lemma_exposed_face_drawn(g, x, y, z, base, Face::PosY);
    }
    if exposed(g, x, y, z, Face::NegZ) {
        lemma_exposed_face_drawn(g, x, y, z, base, Face::NegZ);
    }
    if exposed(g, x, y, z, Face::PosZ) {
        lemma_exposed_face_drawn(g, x, y, z, base, Face::PosZ);
    }
    let all = cell_indices(g, x, y, z, base);
    assert(all == s1 + s2 + s3 + s4 + s5 + s6);
    assert forall|k: int| 0 <= k < all.len() implies base <= (#[trigger] all[k]) < base + 8 by {
        let n1 = s1.len() as int;
        let n2 = n1 + s2.len();
        let n3 = n2 + s3.len();
        let n4 = n3 + s4.len();
        let n5 = n4 + s5.len();
        if k < n1 {
            assert(all[k] == s1[k]);
        } else if k < n2 {
            assert(all[k] == s2[k - n1]);
        } else if k < n3 {
            assert(all[k] == s3[k - n2]);
        } else if k < n4 {
            assert(all[k] == s4[k - n3]);
        } else if k < n5 {
            assert(all[k] == s5[k - n4]);
        } else {
            assert(all[k] == s6[k - n5]);
        }
    }
}

/// One if the side is visible, zero if not.
pub open spec fn side_count<C: Voxel>(g: GridView<C>, x: int, y: int, z: int, face: Face) -> nat {
    if exposed(g, x, y, z, face) {
        1
    } else {
        0
    }
}

/// The number of sides that the cell at `(x, y, z)` shows: none if it is
/// vacant, else one for each neighbor that is vacant or missing.
pub open spec fn cell_sides<C: Voxel>(g: GridView<C>, x: int, y: int, z: int) -> nat {
    if g.cell(x, y, z).vacant() {
        0
    } else {
        side_count(g, x, y, z, Face::NegX) + side_count(g, x, y, z, Face::PosX)
            + side_count(g, x, y, z, Face::NegY) + side_count(g, x, y, z, Face::PosY)
            + side_count(g, x, y, z, Face::NegZ) + side_count(g, x, y, z, Face::PosZ)
    }
}

/// The sides shown by the cells `(x, y, 0)` up to `(x, y, n - 1)`.
pub open spec fn sides_z<C: Voxel>(g: GridView<C>, x: int, y: int, n: nat) -> nat
    decreases n,
{
    if n == 0 {
        0
    } else {
        sides_z(g, x, y, (n - 1) as nat) + cell_sides(g, x, y, n - 1)
    }
}

/// The sides shown by the first `n` columns of the plane at `x`.
pub open spec fn sides_y<C: Voxel>(g: GridView<C>, x: int, n: nat) -> nat
    decreases n,
{
    if n == 0 {
        0
    } else {
        sides_y(g, x, (n - 1) as nat) + sides_z(g, x, n - 1, g.z_size as nat)
    }
}

/// The sides shown by the first `n` planes of the grid.
pub open spec fn sides_x<C: Voxel>(g: GridView<C>, n: nat) -> nat
    decreases n,
{
    if n == 0 {
        0
    } else {
        sides_x(g, (n - 1) as nat) + sides_y(g, n - 1, g.y_size as nat)
    }
}

/// A cell contributes six indices for each side it shows.
pub proof fn lemma_cell_draws_its_sides<C: Voxel>(
    m: MeshView<C>,
    g: GridView<C>,
    x: int,
    y: int,
    z: int,
)
    ensures
        append_cell(m, g, x, y, z).indices.len() == m.indices.len() + 6 * cell_sides(g, x, y, z),
{
    let base = m.vertices.len() as int;
    assert(Face::NegX.indices(base).len() == 6);
    assert(Face::PosX.indices(base).len() == 6);
    assert(Face::NegY.indices(base).len() == 6);
    assert(Face::PosY.indices(base).len() == 6);
    assert(Face::NegZ.indices(base).len() == 6);
    assert(Face::PosZ.indices(base).len() == 6);
}

proof fn lemma_column_draws_its_sides<C: Voxel>(
    m: MeshView<C>,
    g: GridView<C>,
    x: int,
    y: int,
    n: nat,
)
    ensures
        mesh_z(g, m, x, y, n).indices.len() == m.indices.len() + 6 * sides_z(g, x, y, n),
    decreases n,
{
    if n > 0 {
        lemma_column_draws_its_sides(m, g, x, y, (n - 1) as nat);
        lemma_cell_draws_its_sides(mesh_z(g, m, x, y, (n - 1) as nat), g, x, y, n - 1);
    }
}

proof fn lemma_plane_draws_its_sides<C: Voxel>(m: MeshView<C>, g: GridView<C>, x: int, n: nat)
    ensures
        mesh_y(g, m, x, n).indices.len() == m.indices.len() + 6 * sides_y(g, x, n),
    decreases n,
{
    if n > 0 {
        lemma_plane_draws_its_sides(m, g, x, (n - 1) as nat);
        lemma_column_draws_its_sides(
            mesh_y(g, m, x, (n - 1) as nat),
            g,
            x,
            n - 1,
            g.z_size as nat,
        );
    }
}

proof fn lemma_planes_draw_their_sides<C: Voxel>(m: MeshView<C>, g: GridView<C>, n: nat)
    ensures
        mesh_x(g, m, n).indices.len() == m.indices.len() + 6 * sides_x(g, n),
    decreases n,
{
    if n > 0 {
        lemma_planes_draw_their_sides(m, g, (n - 1) as nat);
        lemma_plane_draws_its_sides(mesh_x(g, m, (n - 1) as nat), g, n - 1, g.y_size as nat);
    }
}

/// The surface mesh holds two triangles for every side that an occupied cell
/// shows to vacant space or to the edge of the grid, and nothing else.
pub proof fn lemma_mesh_draws_visible_sides_only<C: Voxel>(g: GridView<C>)
    ensures
        surface_mesh(g).indices.len() == 6 * sides_x(g, g.x_size as nat),
{
    lemma_planes_draw_their_sides(MeshView::<C>::empty(), g, g.x_size as nat);
}

/// A 1 x 1 x 1 grid whose only cell is occupied yields all six sides of one
/// cube: eight vertices and twelve triangles.
pub proof fn lemma_single_voxel<C: Voxel>(g: GridView<C>)
    requires
        g.wf(),
        g.x_size == 1 && g.y_size == 1 && g.z_size == 1,
        !g.cell(0, 0, 0).vacant(),
    ensures
        surface_mesh(g).vertices.len() == 8,
        surface_mesh(g).indices.len() == 36,
{
    reveal_with_fuel(mesh_x, 2);
    reveal_with_fuel(mesh_y, 2);
    reveal_with_fuel(mesh_z, 2);
    let e = MeshView::<C>::empty();
    assert(mesh_z(g, e, 0, 0, 1) == append_cell(e, g, 0, 0, 0));
    assert(exposed(g, 0, 0, 0, Face::NegX));
    assert(exposed(g, 0, 0, 0, Face::PosX));
    assert(exposed(g, 0, 0, 0, Face::NegY));
    assert(exposed(g, 0, 0, 0, Face::PosY));
    assert(exposed(g, 0, 0, 0, Face::NegZ));
    assert(exposed(g, 0, 0, 0, Face::PosZ));
    assert(visible(g, 0, 0, 0));
}

/// The indices of `indices` without repetition, each where it first appears.
pub open spec fn first_appearances(indices: Seq<u32>) -> Seq<u32>
    decreases indices.len(),
{
    if indices.len() == 0 {
        Seq::empty()
    } else {
        let before = first_appearances(indices.drop_last());
        if before.contains(indices.last()) {
            before
        } else {
            before.push(indices.last())
        }
    }
}

/// `first_appearances` keeps every index that occurs, and each only once.
pub proof fn lemma_first_appearances(indices: Seq<u32>)
    ensures
        first_appearances(indices).no_duplicates(),
        forall|v: u32|
            #![trigger first_appearances(indices).contains(v)]
            #![trigger indices.contains(v)]
            first_appearances(indices).contains(v) <==> indices.contains(v),
        first_appearances(indices).len() <= indices.len(),
    decreases indices.len(),
{
    if indices.len() > 0 {
        let front = indices.drop_last();
        let last = indices.last();
        lemma_first_appearances(front);
        let before = first_appearances(front);
        let kept = first_appearances(indices);
        assert forall|v: u32|
            #![trigger kept.contains(v)]
            #![trigger indices.contains(v)]
            kept.contains(v) <==> indices.contains(v) by {
            if indices.contains(v) {
                let i = choose|i: int| 0 <= i < indices.len() && indices[i] == v;
                if i < front.len() {
                    assert(front[i] == v);
                    assert(front.contains(v));
                    let j = choose|j: int| 0 <= j < before.len() && before[j] == v;
                    assert(kept[j] == v);
                } else {
                    assert(v == last);
                    if before.contains(last) {
                    } else {
                        assert(kept[before.len() as int] == v);
                    }
                }
            }
            if kept.contains(v) {
                let j = choose|j: int| 0 <= j < kept.len() && kept[j] == v;
                if j < before.len() {
                    assert(before[j] == v);
                    assert(before.contains(v));
                    let i = choose|i: int| 0 <= i < front.len() && front[i] == v;
                    assert(indices[i] == v);
                } else {
                    assert(v == last);
                    assert(indices[indices.len() - 1] == v);
                }
            }
        }
    }
}

/// Deduplication keeps one vertex for each distinct index that occurs.
pub proof fn lemma_one_vertex_per_distinct_index(indices: Seq<u32>)
    ensures
        first_appearances(indices).len() == indices.to_set().len(),
{
    lemma_first_appearances(indices);
    let kept = first_appearances(indices);
    kept.unique_seq_to_set();
    assert(kept.to_set() =~= indices.to_set());
}

/// A sequence of distinct 32-bit values has at most 2^32 members.
proof fn lemma_distinct_u32_count(s: Seq<u32>)
    requires
        s.no_duplicates(),
    ensures
        s.len() <= 0x1_0000_0000,
{
    let as_int = s.map_values(|v: u32| v as int);
    assert(as_int.no_duplicates()) by {
        assert forall|i: int, j: int|
            0 <= i < as_int.len() && 0 <= j < as_int.len() && i != j implies as_int[i]
            != as_int[j] by {
            assert(s[i] != s[j]);
        }
    }
    as_int.unique_seq_to_set();
    let all = vstd::set_lib::set_int_range(0, 0x1_0000_0000);
    vstd::set_lib::lemma_int_range(0, 0x1_0000_0000);
    assert(as_int.to_set().subset_of(all)) by {
        assert forall|v: int| as_int.to_set().contains(v) implies all.contains(v) by {
            let i = choose|i: int| 0 <= i < as_int.len() && as_int[i] == v;
            assert(as_int[i] == s[i] as int);
        }
    }
    vstd::set_lib::lemma_len_subset(as_int.to_set(), all);
}

/// The position of `v` in `kept`, for a `v` that `kept` holds.
pub open spec fn position_in(kept: Seq<u32>, v: u32) -> int {
    kept.index_of(v)
}

/// What deduplication makes of an index list: the kept source offsets, in
/// order of first appearance, and each index replaced by the position of its
/// source offset among the kept ones.
pub open spec fn remapped(indices: Seq<u32>) -> Seq<u32> {
    Seq::new(
        indices.len(),
        |j: int| position_in(first_appearances(indices), indices[j]) as u32,
    )
}

/// The vertices that deduplication keeps: those at the kept source offsets.
pub open spec fn kept_vertices<V>(vertices: Seq<V>, indices: Seq<u32>) -> Seq<V> {
    Seq::new(
        first_appearances(indices).len(),
        |j: int| vertices[first_appearances(indices)[j] as int],
    )
}

/// Every renumbered index names the vertex that the index it replaces named,
/// so each triangle keeps its corners and their order.
pub proof fn lemma_remap_preserves_triangles<V>(vertices: Seq<V>, indices: Seq<u32>, j: int)
    requires
        0 <= j < indices.len(),
    ensures
        0 <= remapped(indices)[j] < kept_vertices(vertices, indices).len(),
        kept_vertices(vertices, indices)[remapped(indices)[j] as int]
            == vertices[indices[j] as int],
{
    lemma_first_appearances(indices);
    let kept = first_appearances(indices);
    assert(indices.contains(indices[j]));
    assert(kept.contains(indices[j]));
    kept.index_of_first_ensures(indices[j]);
    let at = kept.index_of(indices[j]);
    assert(0 <= at < kept.len() && kept[at] == indices[j]);
    lemma_distinct_u32_count(kept);
}

/// Drops the vertices that no index names and renumbers the indices to match.
/// The kept vertices stand in the order in which the indices first name them.
pub fn remove_unused_vertices<V: Copy>(vertices: &[V], indices: &[u32]) -> (out: (
    Vec<V>,
    Vec<u32>,
))
    requires
        forall|i: int| 0 <= i < indices@.len() ==> (#[trigger] indices@[i]) < vertices@.len(),
    ensures
        out.0@ == kept_vertices(vertices@, indices@),
        out.1@ == remapped(indices@),
{
    let mut index_convert: HashMap<u32, u32> = HashMap::with_capacity(vertices.len());
    let mut new_vertices: Vec<V> = Vec::with_capacity(vertices.len());
    let mut new_indices: Vec<u32> = Vec::with_capacity(indices.len());
    let mut i: usize = 0;
    while i < indices.len()
        invariant
            i <= indices@.len(),
            forall|k: int| 0 <= k < indices@.len() ==> (#[trigger] indices@[k]) < vertices@.len(),
            new_vertices@ == kept_vertices(vertices@, indices@.take(i as int)),
            new_indices@.len() == i,
            forall|k: int|
                0 <= k < i ==> (#[trigger] new_indices@[k]) as int == position_in(
                    first_appearances(indices@.take(i as int)),
                    indices@[k],
                ),
            forall|v: u32|
                index_convert@.contains_key(v) <==> first_appearances(
                    indices@.take(i as int),
                ).contains(v),
            forall|v: u32|
                index_convert@.contains_key(v) ==> (#[trigger] index_convert@[v]) as int
                    == position_in(first_appearances(indices@.take(i as int)), v),
        decreases indices@.len() - i,
    {
        let old_index = indices[i];
        let ghost seen = indices@.take(i as int);
        let ghost next = indices@.take(i + 1);
        let ghost kept = first_appearances(seen);
        proof {
            assert(next.drop_last() =~= seen);
            assert(next.last() == old_index);
            lemma_first_appearances(seen);
            lemma_first_appearances(next);
        }
        match index_convert.get(&old_index) {
            Some(new_index) => {
                let new_index: u32 = *new_index;
                proof {
                    assert(first_appearances(next) == kept);
                }
                new_indices.push(new_index);
            },
            None => {
                proof {
                    assert(!kept.contains(old_index));
                    assert(first_appearances(next) == kept.push(old_index));
                    lemma_distinct_u32_count(kept.push(old_index));
                    assert(new_vertices@.len() == kept.len());
                }
                let new_index: u32 = new_vertices.len() as u32;
                index_convert.insert(old_index, new_index);
                new_vertices.push(vertices[old_index as usize]);
                new_indices.push(new_index);
                proof {
                    let grown = kept.push(old_index);
                    assert(new_vertices@ =~= kept_vertices(vertices@, next));
                    assert forall|v: u32| grown.contains(v) implies position_in(grown, v) == (
                    if v == old_index {
                        kept.len() as int
                    } else {
                        position_in(kept, v)
                    }) by {
                        grown.index_of_first_ensures(v);
                        let at = grown.index_of(v);
                        if v == old_index {
                            assert(grown[kept.len() as int] == v);
                        } else {
                            assert(kept.contains(v)) by {
                                let j = choose|j: int| 0 <= j < grown.len() && grown[j] == v;
                                assert(kept[j] == v);
                            }
                            kept.index_of_first_ensures(v);
                            let before = kept.index_of(v);
                            assert(grown[before] == v);
                            assert(kept[at] == v);
                        }
                    }
                    assert forall|v: u32|
                        index_convert@.contains_key(v) <==> grown.contains(v) by {
                        if grown.contains(v) {
                            let j = choose|j: int| 0 <= j < grown.len() && grown[j] == v;
                            if j < kept.len() {
                                assert(kept[j] == v);
                            }
                        }
                        if kept.contains(v) {
                            let j = choose|j: int| 0 <= j < kept.len() && kept[j] == v;
                            assert(grown[j] == v);
                        }
                        if v == old_index {
                            assert(grown[kept.len() as int] == v);
                        }
                    }
                    assert forall|k: int| 0 <= k < i + 1 implies (#[trigger] new_indices@[k]) as int
                        == position_in(grown, indices@[k]) by {
                        if k < i {
                            assert(seen[k] == indices@[k]);
                            assert(seen.contains(indices@[k]));
                            assert(kept.contains(indices@[k]));
                            assert(grown.contains(indices@[k])) by {
                                let j = choose|j: int|
                                    0 <= j < kept.len() && kept[j] == indices@[k];
                                assert(grown[j] == indices@[k]);
                            }
                        } else {
                            assert(grown[kept.len() as int] == old_index);
                            assert(grown.contains(old_index));
                        }
                    }
                }
            },
        }
        i += 1;
    }
    proof {
        assert(indices@.take(i as int) =~= indices@);
        assert(new_indices@ =~= remapped(indices@));
    }
    (new_vertices, new_indices)
}

/// Bounds on how much of the walk over a grid lies behind the cell at `(x, y, z)`.
proof fn lemma_cells_behind(xs: int, ys: int, zs: int, x: int, y: int, z: int)
    requires
        0 <= xs <= 255,
        0 <= ys <= 255,
        0 <= zs <= 255,
        0 <= x < xs,
        0 <= y <= ys,
        0 <= z <= zs,
        y < ys || z == 0,
    ensures
        0 <= x * (ys * zs) + y * zs + z <= xs * (ys * zs),
        y < ys && z < zs ==> x * (ys * zs) + y * zs + z < xs * (ys * zs),
        xs * (ys * zs) <= 255 * 255 * 255,
        (x + 1) * (ys * zs) == x * (ys * zs) + ys * zs,
        (y + 1) * zs == y * zs + zs,
{
    let plane = ys * zs;
    assert(0 <= plane <= 255 * 255) by (nonlinear_arith)
        requires
            plane == ys * zs,
            0 <= ys <= 255,
            0 <= zs <= 255,
    ;
    assert(0 <= y * zs + z <= plane && (y < ys && z < zs ==> y * zs + z < plane))
        by (nonlinear_arith)
        requires
            plane == ys * zs,
            0 <= y <= ys,
            0 <= z <= zs,
            y < ys || z == 0,
    ;
    assert(0 <= x * plane && x * plane + plane <= xs * plane && (x + 1) * plane == x * plane
        + plane) by (nonlinear_arith)
        requires
            0 <= x < xs,
            0 <= plane,
    ;
    assert(xs * plane <= 255 * 255 * 255) by (nonlinear_arith)
        requires
            0 <= xs <= 255,
            0 <= plane <= 255 * 255,
    ;
    assert((y + 1) * zs == y * zs + zs) by (nonlinear_arith);
}

/// Appends the six indices of one side of the cube whose corners start at `base`.
fn push_side(indices: &mut Vec<u32>, base: u32, face: Face)
    requires
        base + 7 <= u32::MAX,
    ensures
        final(indices)@ == old(indices)@ + face.indices(base as int),
{
    let ghost before = indices@;
    let corners: [u32; 6] = match face {
        Face::NegX => [3, 2, 1, 0, 1, 2],
        Face::PosX => [6, 7, 5, 6, 5, 4],
        Face::NegY => [0, 4, 5, 0, 5, 1],
        Face::PosY => [7, 6, 2, 7, 2, 3],
        Face::NegZ => [2, 6, 0, 6, 4, 0],
        Face::PosZ => [7, 3, 1, 7, 1, 5],
    };
    let mut k: usize = 0;
    while k < 6
        invariant
            k <= 6,
            base + 7 <= u32::MAX,
            forall|j: int| 0 <= j < 6 ==> (#[trigger] corners[j]) as int == face.winding()[j],
            forall|j: int| 0 <= j < 6 ==> (#[trigger] corners[j]) < 8,
            indices@ == before + face.indices(base as int).take(k as int),
        decreases 6 - k,
    {
        indices.push(base + corners[k]);
        k += 1;
        assert(indices@ =~= before + face.indices(base as int).take(k as int));
    }
    assert(face.indices(base as int).take(6) =~= face.indices(base as int));
}

/// Appends the eight corners of the cube at `(x, y, z)`.
fn push_corners<C: Copy>(vertices: &mut Vec<Vertex<C>>, x: u8, y: u8, z: u8, color: C)
    ensures
        final(vertices)@ == old(vertices)@ + cell_vertices(x as int, y as int, z as int, color),
{
    let ghost before = vertices@;
    let ghost corners = cell_vertices(x as int, y as int, z as int, color);
    let mut k: u16 = 0;
    while k < 8
        invariant
            k <= 8,
            corners == cell_vertices(x as int, y as int, z as int, color),
            vertices@ == before + corners.take(k as int),
        decreases 8 - k,
    {
        vertices.push(
            Vertex { x: x as u16 + k / 4, y: y as u16 + (k / 2) % 2, z: z as u16 + k % 2, color },
        );
        k += 1;
        assert(vertices@ =~= before + corners.take(k as int));
    }
    assert(corners.take(8) =~= corners);
}

/// A mesh stays well formed when a cube is appended whose indices name only
/// corners of that cube, or when nothing is appended at all.
proof fn lemma_append_keeps_wf<C>(m: MeshView<C>, corners: Seq<Vertex<C>>, added: Seq<u32>)
    requires
        m.wf(),
        corners.len() == 8,
        added.len() % 6 == 0,
        forall|k: int|
            0 <= k < added.len() ==> m.vertices.len() <= (#[trigger] added[k]) < m.vertices.len()
                + 8,
    ensures
        m.extended(corners, added).wf(),
        added.len() == 0 ==> m.extended(Seq::empty(), added) == m,
{
    let grown = m.extended(corners, added);
    assert forall|i: int| 0 <= i < grown.indices.len() implies (#[trigger] grown.indices[i])
        < grown.vertices.len() by {
        if i >= m.indices.len() {
            assert(grown.indices[i] == added[i - m.indices.len()]);
        } else {
            assert(grown.indices[i] == m.indices[i]);
        }
    }
    if added.len() == 0 {
        assert(m.indices + added =~= m.indices);
        assert(m.vertices + Seq::<Vertex<C>>::empty() =~= m.vertices);
    }
}

impl<C: Voxel> Schematic<C> {
    /// Whether the neighbor across `face` lies outside the grid or is vacant.
    fn is_exposed(&self, x: u8, y: u8, z: u8, face: Face) -> (open: bool)
        requires
            self@.in_bounds(x as int, y as int, z as int),
        ensures
            open == exposed(self@, x as int, y as int, z as int, face),
    {
        let (xs, ys, zs) = self.sizes();
        let neighbor: Option<(u8, u8, u8)> = match face {
            Face::NegX => if x == 0 {
                None
            } else {
                Some((x - 1, y, z))
            },
            Face::PosX => if x == xs - 1 {
                None
            } else {
                Some((x + 1, y, z))
            },
            Face::NegY => if y == 0 {
                None
            } else {
                Some((x, y - 1, z))
            },
            Face::PosY => if y == ys - 1 {
                None
            } else {
                Some((x, y + 1, z))
            },
            Face::NegZ => if z == 0 {
                None
            } else {
                Some((x, y, z - 1))
            },
            Face::PosZ => if z == zs - 1 {
                None
            } else {
                Some((x, y, z + 1))
            },
        };
        match neighbor {
            None => true,
            Some((nx, ny, nz)) => match self.get(nx, ny, nz) {
                Ok(cell) => cell.is_empty(),
                Err(_) => true,
            },
        }
    }

    /// Appends the side `face` of the cell at `(x, y, z)` if it is visible.
    fn push_if_exposed(
        &self,
        indices: &mut Vec<u32>,
        base: u32,
        x: u8,
        y: u8,
        z: u8,
        face: Face,
    ) -> (open: bool)
        requires
            self@.in_bounds(x as int, y as int, z as int),
            base + 7 <= u32::MAX,
        ensures
            open == exposed(self@, x as int, y as int, z as int, face),
            final(indices)@ == old(indices)@ + side_indices(
                self@,
                x as int,
                y as int,
                z as int,
                base as int,
                face,
            ),
    {
        if self.is_exposed(x, y, z, face) {
            push_side(indices, base, face);
            true
        } else {
            assert(indices@ =~= old(indices)@ + Seq::<u32>::empty());
            false
        }
    }

    /// Appends the visible sides of the cell at `(x, y, z)` and tells whether
    /// there was any.
    fn push_sides(&self, indices: &mut Vec<u32>, base: u32, x: u8, y: u8, z: u8) -> (any: bool)
        requires
            self@.in_bounds(x as int, y as int, z as int),
            base + 7 <= u32::MAX,
        ensures
            final(indices)@ == old(indices)@ + cell_indices(
                self@,
                x as int,
                y as int,
                z as int,
                base as int,
            ),
            any == (cell_indices(self@, x as int, y as int, z as int, base as int).len() > 0),
            !self@.cell(x as int, y as int, z as int).vacant() ==> any == visible(
                self@,
                x as int,
                y as int,
                z as int,
            ),
    {
        let ghost before = indices@;
        let neg_x = self.push_if_exposed(indices, base, x, y, z, Face::NegX);
        let pos_x = self.push_if_exposed(indices, base, x, y, z, Face::PosX);
        let neg_y = self.push_if_exposed(indices, base, x, y, z, Face::NegY);
        let pos_y = self.push_if_exposed(indices, base, x, y, z, Face::PosY);
        let neg_z = self.push_if_exposed(indices, base, x, y, z, Face::NegZ);
        let pos_z = self.push_if_exposed(indices, base, x, y, z, Face::PosZ);
        proof {
            lemma_cell_indices_in_cube(self@, x as int, y as int, z as int, base as int);
            assert(indices@ =~= before + cell_indices(
                self@,
                x as int,
                y as int,
                z as int,
                base as int,
            ));
        }
        neg_x || pos_x || neg_y || pos_y || neg_z || pos_z
    }

    /// Extends `mesh` by what the cell at `(x, y, z)` contributes.
    fn append_cell(&self, mesh: &mut Mesh<C>, x: u8, y: u8, z: u8)
        requires
            self@.in_bounds(x as int, y as int, z as int),
            old(mesh)@.wf(),
            old(mesh)@.vertices.len() + 8 <= u32::MAX,
        ensures
            final(mesh)@ == append_cell(old(mesh)@, self@, x as int, y as int, z as int),
            final(mesh)@.wf(),
            final(mesh)@.vertices.len() <= old(mesh)@.vertices.len() + 8,
            final(mesh)@.indices.len() <= old(mesh)@.indices.len() + 36,
    {
        let ghost before = mesh@;
        let cell = match self.get(x, y, z) {
            Ok(cell) => cell,
            Err(_) => {
                return ;
            },
        };
        if cell.is_empty() {
            return ;
        }
        let base: u32 = mesh.vertices.len() as u32;
        if self.push_sides(&mut mesh.indices, base, x, y, z) {
            push_corners(&mut mesh.vertices, x, y, z, cell);
        } else {
            assert(mesh.indices@ =~= before.indices);
        }
        proof {
            lemma_append_keeps_wf(
                before,
                cell_vertices(x as int, y as int, z as int, cell),
                cell_indices(self@, x as int, y as int, z as int, base as int),
            );
            lemma_cell_indices_in_cube(self@, x as int, y as int, z as int, base as int);
        }
    }

    /// Extracts the surface mesh: for every occupied cell, the sides that border
    /// vacant space or the edge of the grid, and the corners of every cube that
    /// shows a side.
    pub fn mesh(&self) -> (mesh: Mesh<C>)
        ensures
            mesh@ == surface_mesh(self@),
            mesh@.wf(),
            mesh@.vertices.len() <= 8 * (self@.x_size * (self@.y_size * self@.z_size)),
            mesh@.indices.len() <= 36 * (self@.x_size * (self@.y_size * self@.z_size)),
            mesh@.vertices.len() <= 8 * (255 * 255 * 255),
            mesh@.indices.len() <= 36 * (255 * 255 * 255),
            mesh@.indices.len() == 6 * sides_x(self@, self@.x_size as nat),
    {
        let (xs, ys, zs) = self.sizes();
        let ghost g = self@;
        let ghost plane = ys as int * zs as int;
        let mut mesh: Mesh<C> = Mesh { vertices: Vec::new(), indices: Vec::new() };
        let mut x: u8 = 0;
        proof {
            assert(0 * plane == 0) by (nonlinear_arith);
            assert(0 <= xs * plane <= 255 * 255 * 255) by (nonlinear_arith)
                requires
                    0 <= xs <= 255,
                    plane == ys * zs,
                    0 <= ys <= 255,
                    0 <= zs <= 255,
            ;
        }
        while x < xs
            invariant
                g == self@,
                g.wf(),
                xs == g.x_size && ys == g.y_size && zs == g.z_size,
                plane == ys * zs,
                x <= xs,
                mesh@ == mesh_x(g, MeshView::empty(), x as nat),
                mesh@.wf(),
                mesh@.vertices.len() <= 8 * (x * plane),
                mesh@.indices.len() <= 36 * (x * plane),
                0 <= x * plane <= xs * plane <= 255 * 255 * 255,
            decreases xs - x,
        {
            let ghost at_x = mesh@;
            let mut y: u8 = 0;
            proof {
                lemma_cells_behind(xs as int, ys as int, zs as int, x as int, 0, 0);
            }
            while y < ys
                invariant
                    g == self@,
                    g.wf(),
                    xs == g.x_size && ys == g.y_size && zs == g.z_size,
                    plane == ys * zs,
                    x < xs,
                    y <= ys,
                    mesh@ == mesh_y(g, at_x, x as int, y as nat),
                    mesh@.wf(),
                    mesh@.vertices.len() <= 8 * (x * plane + y * zs),
                    mesh@.indices.len() <= 36 * (x * plane + y * zs),
                decreases ys - y,
            {
                let ghost at_y = mesh@;
                let mut z: u8 = 0;
                while z < zs
                    invariant
                        g == self@,
                        g.wf(),
                        xs == g.x_size && ys == g.y_size && zs == g.z_size,
                        plane == ys * zs,
                        x < xs,
                        y < ys,
                        z <= zs,
                        mesh@ == mesh_z(g, at_y, x as int, y as int, z as nat),
                        mesh@.wf(),
                        mesh@.vertices.len() <= 8 * (x * plane + y * zs + z),
                        mesh@.indices.len() <= 36 * (x * plane + y * zs + z),
                    decreases zs - z,
                {
                    proof {
                        lemma_cells_behind(
                            xs as int,
                            ys as int,
                            zs as int,
                            x as int,
                            y as int,
                            z as int,
                        );
                    }
                    self.append_cell(&mut mesh, x, y, z);
                    z += 1;
                }
                proof {
                    lemma_cells_behind(xs as int, ys as int, zs as int, x as int, y as int, 0);
                }
                y += 1;
            }
            proof {
                lemma_cells_behind(xs as int, ys as int, zs as int, x as int, 0, 0);
                assert(x * plane + ys * zs == (x + 1) * plane);
                assert((x + 1) * plane <= xs * plane) by (nonlinear_arith)
                    requires
                        x + 1 <= xs,
                        0 <= plane,
                ;
            }
            x += 1;
        }
        proof {
            assert(x * plane == self@.x_size * (self@.y_size * self@.z_size));
            lemma_mesh_draws_visible_sides_only(self@);
        }
        mesh
    }

    /// The surface mesh without the corners that no triangle uses: the mesh
    /// that is handed to the encoder.
    pub fn compact_mesh(&self) -> (mesh: Mesh<C>)
        ensures
            mesh@.vertices == kept_vertices(
                surface_mesh(self@).vertices,
                surface_mesh(self@).indices,
            ),
            mesh@.indices == remapped(surface_mesh(self@).indices),
            mesh@.wf(),
            mesh@.indices.len() == 6 * sides_x(self@, self@.x_size as nat),
            forall|j: int|
                0 <= j < mesh@.indices.len() ==> mesh@.vertices[(#[trigger] mesh@.indices[j])
                    as int] == surface_mesh(self@).vertices[surface_mesh(self@).indices[j] as int],
    {
        let full = self.mesh();
        let (vertices, indices) = remove_unused_vertices(
            full.vertices.as_slice(),
            full.indices.as_slice(),
        );
        proof {
            assert forall|j: int| 0 <= j < indices@.len() implies (#[trigger] indices@[j])
                < vertices@.len() && vertices@[indices@[j] as int]
                == full@.vertices[full@.indices[j] as int] by {
                lemma_remap_preserves_triangles(full@.vertices, full@.indices, j);
            }
        }
        Mesh { vertices, indices }
    }
}

} // verus!
