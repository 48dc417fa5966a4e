use voxel_build::color::Color;
use voxel_build::mesh::{remove_unused_vertices, Mesh};
use voxel_build::schematic::Schematic;

#[derive(Clone, Copy, Debug, PartialEq)]
struct Vertex {
    pos: [f32; 3],
    color: [f32; 3],
}

fn vert(n: f32) -> Vertex {
    Vertex { pos: [n; 3], color: [n; 3] }
}

#[test]
fn test_remove_unused_vertices() {
    let vertices = vec![vert(0.), vert(1.), vert(2.), vert(3.), vert(4.), vert(5.), vert(6.), vert(7.)];
    let indices = vec![0, 1, 2, 2, 4, 0, 0, 7, 1];
    let (optimized_verts, optimized_inds) = remove_unused_vertices(&vertices, &indices);

    assert_eq!(optimized_verts, vec![vert(0.), vert(1.), vert(2.), vert(4.), vert(7.)]);
    assert_eq!(optimized_inds, vec![0, 1, 2, 2, 3, 0, 0, 4, 1]);
}

#[test]
fn dedup_keeps_order_of_first_use() {
    let vertices = vec!['a', 'b', 'c', 'd'];
    let indices = vec![3, 3, 1, 3, 0, 1];
    let (verts, inds) = remove_unused_vertices(&vertices, &indices);
    assert_eq!(verts, vec!['d', 'b', 'a']);
    assert_eq!(inds, vec![0, 0, 1, 0, 2, 1]);
    for (new, old) in inds.iter().zip(indices.iter()) {
        assert_eq!(verts[*new as usize], vertices[*old as usize]);
    }
}

#[test]
fn dedup_does_not_merge_equal_vertices_at_different_offsets() {
    let vertices = vec![7u8, 7, 7];
    let (verts, inds) = remove_unused_vertices(&vertices, &[0, 1, 2]);
    assert_eq!(verts, vec![7, 7, 7]);
    assert_eq!(inds, vec![0, 1, 2]);
}

#[test]
fn dedup_of_nothing_is_nothing() {
    let vertices = vec![1u8, 2, 3];
    let (verts, inds) = remove_unused_vertices(&vertices, &[]);
    assert!(verts.is_empty());
    assert!(inds.is_empty());
}

fn corners(mesh: &Mesh<Color>, triangle_start: usize) -> Vec<(u16, u16, u16)> {
    (0..6)
        .map(|k| {
            let v = mesh.vertices[mesh.indices[triangle_start + k] as usize];
            (v.x, v.y, v.z)
        })
        .collect()
}

#[test]
fn single_voxel_emits_six_faces() {
    let red = Color(255, 0, 0);
    let mut schem = Schematic::new(1, 1, 1);
    schem.set(0, 0, 0, red).unwrap();
    let mesh = schem.mesh();
    assert_eq!(mesh.vertices.len(), 8);
    assert_eq!(mesh.indices.len(), 36);
    assert_eq!(mesh.indices.len() / 3, 12);
    for (k, v) in mesh.vertices.iter().enumerate() {
        assert_eq!((v.x, v.y, v.z), ((k / 4) as u16, ((k / 2) % 2) as u16, (k % 2) as u16));
        assert_eq!(v.color, red);
    }
    assert_eq!(
        mesh.indices,
        vec![
            3, 2, 1, 0, 1, 2, // -X
            6, 7, 5, 6, 5, 4, // +X
            0, 4, 5, 0, 5, 1, // -Y
            7, 6, 2, 7, 2, 3, // +Y
            2, 6, 0, 6, 4, 0, // -Z
            7, 3, 1, 7, 1, 5, // +Z
        ]
    );
    // Each side lies in its own plane.
    assert!(corners(&mesh, 0).iter().all(|c| c.0 == 0));
    assert!(corners(&mesh, 6).iter().all(|c| c.0 == 1));
    assert!(corners(&mesh, 12).iter().all(|c| c.1 == 0));
    assert!(corners(&mesh, 18).iter().all(|c| c.1 == 1));
    assert!(corners(&mesh, 24).iter().all(|c| c.2 == 0));
    assert!(corners(&mesh, 30).iter().all(|c| c.2 == 1));
}

#[test]
fn vacant_grid_has_no_mesh() {
    let schem: Schematic<Color> = Schematic::new(5, 5, 5);
    let mesh = schem.mesh();
    assert!(mesh.vertices.is_empty());
    assert!(mesh.indices.is_empty());
    let none: Schematic<Color> = Schematic::new(0, 0, 0);
    assert!(none.mesh().indices.is_empty());
}

#[test]
fn no_face_between_two_occupied_voxels() {
    let c = Color(1, 2, 3);
    let mut schem = Schematic::new(2, 1, 1);
    schem.fill(0, 0, 0, 1, 0, 0, c).unwrap();
    let mesh = schem.mesh();
    // Two cubes, five sides each: the shared side is left out on both.
    assert_eq!(mesh.vertices.len(), 16);
    assert_eq!(mesh.indices.len(), 2 * 5 * 6);
    assert_eq!(
        mesh.indices,
        vec![
            3, 2, 1, 0, 1, 2, 0, 4, 5, 0, 5, 1, 7, 6, 2, 7, 2, 3, 2, 6, 0, 6, 4, 0, 7, 3, 1, 7,
            1, 5, // first cube: all but +X
            14, 15, 13, 14, 13, 12, 8, 12, 13, 8, 13, 9, 15, 14, 10, 15, 10, 11, 10, 14, 8, 14,
            12, 8, 15, 11, 9, 15, 9, 13, // second cube: all but -X
        ]
    );
    assert_eq!((mesh.vertices[8].x, mesh.vertices[8].y, mesh.vertices[8].z), (1, 0, 0));
    assert_eq!((mesh.vertices[15].x, mesh.vertices[15].y, mesh.vertices[15].z), (2, 1, 1));
}

#[test]
fn solid_block_shows_its_surface_only() {
    let c = Color(9, 9, 9);
    let mut schem = Schematic::new(3, 3, 3);
    schem.fill(0, 0, 0, 2, 2, 2, c).unwrap();
    let mesh = schem.mesh();
    // 6 sides of 3 x 3 faces; the cube in the middle shows nothing.
    assert_eq!(mesh.indices.len(), 6 * 9 * 6);
    assert_eq!(mesh.vertices.len(), 26 * 8);
    assert!(mesh.indices.iter().all(|i| (*i as usize) < mesh.vertices.len()));
}

#[test]
fn cells_are_walked_x_slowest_z_fastest() {
    let mut schem = Schematic::new(2, 2, 2);
    schem.set(1, 0, 0, Color(0, 0, 3)).unwrap();
    schem.set(0, 1, 0, Color(0, 0, 2)).unwrap();
    schem.set(0, 0, 1, Color(0, 0, 1)).unwrap();
    let mesh = schem.mesh();
    assert_eq!(mesh.vertices.len(), 24);
    assert_eq!(mesh.vertices[0].color, Color(0, 0, 1));
    assert_eq!(mesh.vertices[8].color, Color(0, 0, 2));
    assert_eq!(mesh.vertices[16].color, Color(0, 0, 3));
    assert_eq!(mesh.indices.len(), 3 * 36);
}

#[test]
fn extraction_then_dedup_keeps_every_triangle() {
    let c = Color(10, 20, 30);
    let mut schem = Schematic::new(3, 1, 1);
    schem.fill(0, 0, 0, 2, 0, 0, c).unwrap();
    let mesh = schem.mesh();
    let (verts, inds) = remove_unused_vertices(&mesh.vertices, &mesh.indices);
    assert_eq!(inds.len(), mesh.indices.len());
    for (new, old) in inds.iter().zip(mesh.indices.iter()) {
        assert_eq!(verts[*new as usize], mesh.vertices[*old as usize]);
    }
    // Every corner of every cube is used by one of its visible sides here.
    assert_eq!(verts.len(), 24);
}

#[test]
fn extraction_is_repeatable() {
    let mut schem = Schematic::new(4, 4, 4);
    schem.fill(1, 1, 1, 2, 3, 2, Color(1, 1, 1)).unwrap();
    schem.set(0, 0, 0, Color(2, 2, 2)).unwrap();
    let a = schem.mesh();
    let b = schem.mesh();
    assert_eq!(a.vertices, b.vertices);
    assert_eq!(a.indices, b.indices);
}

#[test]
fn compact_mesh_is_extraction_then_dedup() {
    let mut schem = Schematic::new(3, 3, 3);
    schem.fill(0, 0, 0, 2, 2, 2, Color(5, 6, 7)).unwrap();
    schem.set(1, 1, 1, Color(0, 0, 0)).unwrap();
    let full = schem.mesh();
    let (verts, inds) = remove_unused_vertices(&full.vertices, &full.indices);
    let compact = schem.compact_mesh();
    assert_eq!(compact.vertices, verts);
    assert_eq!(compact.indices, inds);
    assert_eq!(compact.indices.len() % 3, 0);
    assert!(compact.indices.iter().all(|i| (*i as usize) < compact.vertices.len()));
    // The hollow in the middle shows six more sides, one on each neighbor.
    assert_eq!(full.indices.len(), (6 * 9 + 6) * 6);
}
