use scene_presenter::mesh::{position, Bits2, Bits3, MeshData, Model, MyVertex, HALF_GREY};

fn vertex(tag: f32) -> MyVertex {
    MyVertex {
        position: Bits3 { x: tag.to_bits(), y: 0f32.to_bits(), z: 1f32.to_bits() },
        color: Bits3 { x: HALF_GREY, y: HALF_GREY, z: HALF_GREY },
        normal: Bits3 { x: 0f32.to_bits(), y: 1f32.to_bits(), z: 0f32.to_bits() },
        texcoord: Bits2 { u: 0.25f32.to_bits(), v: 0.75f32.to_bits() },
    }
}

#[test]
fn soup_a_b_a_c_is_indexed_in_order_of_first_appearance() {
    let (a, b, c) = (vertex(1.0), vertex(2.0), vertex(3.0));
    let model = Model::build(&vec![a, b, a, c]);
    assert_eq!(model.vertices, vec![a, b, c]);
    assert_eq!(model.indices, vec![0, 1, 0, 2]);
}

#[test]
fn replaying_the_indices_gives_the_soup_back() {
    let raw = vec![vertex(4.0), vertex(4.0), vertex(5.0), vertex(6.0), vertex(5.0), vertex(4.0)];
    let model = Model::build(&raw);
    assert!(model.indices_fit());
    assert_eq!(model.expand(), raw);
    assert_eq!(model.indices.len(), raw.len());
    assert_eq!(model.indices, vec![0, 0, 1, 2, 1, 0]);
}

#[test]
fn duplicates_make_the_vertex_buffer_strictly_shorter() {
    let raw = vec![vertex(1.0), vertex(2.0), vertex(1.0)];
    let model = Model::build(&raw);
    assert_eq!(model.vertices.len(), 2);
    assert!(model.vertices.len() < raw.len());
}

#[test]
fn distinct_vertices_are_all_kept() {
    let raw = vec![vertex(1.0), vertex(2.0), vertex(3.0)];
    let model = Model::build(&raw);
    assert_eq!(model.vertices, raw);
    assert_eq!(model.indices, vec![0, 1, 2]);
}

#[test]
fn empty_soup_gives_empty_buffers() {
    let model = Model::build(&Vec::new());
    assert!(model.vertices.is_empty());
    assert!(model.indices.is_empty());
    assert!(model.expand().is_empty());
}

#[test]
fn vertices_differing_in_one_component_are_distinct() {
    let a = vertex(1.0);
    let mut b = a;
    b.texcoord.v = 0.5f32.to_bits();
    let mut c = a;
    c.normal.z = 1f32.to_bits();
    let mut d = a;
    d.color.y = 0f32.to_bits();
    let model = Model::build(&vec![a, b, c, d, a]);
    assert_eq!(model.vertices, vec![a, b, c, d]);
    assert_eq!(model.indices, vec![0, 1, 2, 3, 0]);
}

#[test]
fn signed_zeros_are_different_bit_patterns() {
    let a = vertex(0.0);
    let b = vertex(-0.0);
    let model = Model::build(&vec![a, b]);
    assert_eq!(model.vertices.len(), 2);
}

#[test]
fn position_finds_the_first_equal_vertex() {
    let list = vec![vertex(1.0), vertex(2.0), vertex(1.0)];
    assert_eq!(position(&list, &vertex(1.0)), Some(0));
    assert_eq!(position(&list, &vertex(2.0)), Some(1));
    assert_eq!(position(&list, &vertex(9.0)), None);
}

#[test]
fn indices_fit_rejects_an_index_past_the_end() {
    let model = Model { vertices: vec![vertex(1.0)], indices: vec![0, 1] };
    assert!(!model.indices_fit());
    let fine = Model { vertices: vec![vertex(1.0)], indices: vec![0, 0] };
    assert!(fine.indices_fit());
}

#[test]
fn clone_copies_both_buffers() {
    let model = Model::build(&vec![vertex(1.0), vertex(2.0), vertex(1.0)]);
    let copy = model.clone();
    assert_eq!(copy.vertices, model.vertices);
    assert_eq!(copy.indices, model.indices);
}

fn bits(values: &[f32]) -> Vec<u32> {
    values.iter().map(|v| v.to_bits()).collect()
}

fn two_corner_mesh() -> MeshData {
    MeshData {
        indices: vec![1, 0, 1],
        positions: bits(&[0.0, 1.0, 2.0, 3.0, 4.0, 5.0]),
        normals: bits(&[0.0, 0.0, 1.0, 0.0, 1.0, 0.0]),
        texcoords: bits(&[0.1, 0.2, 0.3, 0.4]),
    }
}

#[test]
fn corner_gathers_components_and_colours_grey() {
    let mesh = two_corner_mesh();
    assert!(mesh.has_corner(1));
    let v = mesh.corner(1);
    assert_eq!(v.position, Bits3 { x: 3f32.to_bits(), y: 4f32.to_bits(), z: 5f32.to_bits() });
    assert_eq!(v.normal, Bits3 { x: 0f32.to_bits(), y: 1f32.to_bits(), z: 0f32.to_bits() });
    assert_eq!(v.texcoord, Bits2 { u: 0.3f32.to_bits(), v: 0.4f32.to_bits() });
    assert_eq!(v.color, Bits3 { x: 0.5f32.to_bits(), y: 0.5f32.to_bits(), z: 0.5f32.to_bits() });
}

#[test]
fn soup_follows_the_corner_indices() {
    let mesh = two_corner_mesh();
    assert!(mesh.is_consistent());
    let raw = mesh.soup();
    assert_eq!(raw, vec![mesh.corner(1), mesh.corner(0), mesh.corner(1)]);
}

#[test]
fn from_mesh_merges_repeated_corners() {
    let mesh = two_corner_mesh();
    let model = Model::from_mesh(&mesh);
    assert_eq!(model.vertices, vec![mesh.corner(1), mesh.corner(0)]);
    assert_eq!(model.indices, vec![0, 1, 0]);
}

#[test]
fn mesh_with_a_corner_past_its_lists_is_inconsistent() {
    let mut mesh = two_corner_mesh();
    mesh.indices.push(2);
    assert!(!mesh.has_corner(2));
    assert!(!mesh.is_consistent());
    let mut short = two_corner_mesh();
    short.texcoords.pop();
    assert!(short.has_corner(0));
    assert!(!short.has_corner(1));
    assert!(!short.is_consistent());
    assert!(!two_corner_mesh().has_corner(u32::MAX));
}
