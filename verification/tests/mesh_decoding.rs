use xac::model::XacError;
use xac::parser::xacparse;

fn put_i32(out: &mut Vec<u8>, v: i32) {
    out.extend_from_slice(&v.to_le_bytes());
}

fn put_u32(out: &mut Vec<u8>, v: u32) {
    out.extend_from_slice(&v.to_le_bytes());
}

fn put_f32(out: &mut Vec<u8>, v: f32) {
    out.extend_from_slice(&v.to_bits().to_le_bytes());
}

fn put_string(out: &mut Vec<u8>, s: &[u8]) {
    put_i32(out, s.len() as i32);
    out.extend_from_slice(s);
}

fn header() -> Vec<u8> {
    let mut out = Vec::new();
    out.extend_from_slice(b"XAC ");
    out.push(1);
    out.push(0);
    out.push(0);
    out.push(0);
    out
}

fn chunk(type_id: i32, version: i32, payload: &[u8]) -> Vec<u8> {
    let mut out = Vec::new();
    put_i32(&mut out, type_id);
    put_i32(&mut out, payload.len() as i32);
    put_i32(&mut out, version);
    out.extend_from_slice(payload);
    out
}

fn node_record(parent: i32, name: &[u8]) -> Vec<u8> {
    let mut out = Vec::new();
    for _ in 0..8 {
        put_f32(&mut out, 0.0); // two quaternions
    }
    for _ in 0..6 {
        put_f32(&mut out, 1.0); // position and scale
    }
    for _ in 0..5 {
        put_i32(&mut out, 0); // reserved words
    }
    put_i32(&mut out, parent);
    put_i32(&mut out, 0); // child count
    put_i32(&mut out, 0); // include-in-bounds flag
    for _ in 0..16 {
        put_f32(&mut out, 0.0); // transform
    }
    put_f32(&mut out, 1.0); // importance
    put_string(&mut out, name);
    out
}

fn one_node_hierarchy(name: &[u8]) -> Vec<u8> {
    let mut payload = Vec::new();
    put_i32(&mut payload, 1);
    put_i32(&mut payload, 1);
    payload.extend_from_slice(&node_record(-1, name));
    chunk(11, 1, &payload)
}

fn mesh_header(
    payload: &mut Vec<u8>,
    node_id: i32,
    num_influence_ranges: i32,
    num_vertices: i32,
    num_indices: i32,
    num_sub_meshes: i32,
    num_vertex_element: i32,
    collision: bool,
) {
    put_i32(payload, node_id);
    put_i32(payload, num_influence_ranges);
    put_i32(payload, num_vertices);
    put_i32(payload, num_indices);
    put_i32(payload, num_sub_meshes);
    put_i32(payload, num_vertex_element);
    payload.push(if collision { 1 } else { 0 });
    payload.extend_from_slice(&[0, 0, 0]);
}

fn vertex_element(payload: &mut Vec<u8>, usage: u32, element_size: i32) {
    put_u32(payload, usage);
    put_i32(payload, element_size);
    payload.push(0); // keep originals
    payload.push(0); // scale factor flag
    payload.extend_from_slice(&[0, 0]);
}

fn submesh_header(payload: &mut Vec<u8>, num_indices: i32, num_vertices: i32, material_id: i32, num_bones: i32) {
    put_i32(payload, num_indices);
    put_i32(payload, num_vertices);
    put_i32(payload, material_id);
    put_i32(payload, num_bones);
}

// Scenario: a mesh chunk with a 30-vertex position stream split into
// submeshes of 10 and 20 vertices: the first gets positions [0, 10),
// the second [10, 30).
#[test]
fn submeshes_slice_the_position_stream() {
    let mut data = header();
    data.extend_from_slice(&one_node_hierarchy(b"Body"));
    let mut payload = Vec::new();
    mesh_header(&mut payload, 0, 0, 30, 0, 2, 1, false);
    vertex_element(&mut payload, 0, 12); // positions
    for i in 0..30 {
        put_f32(&mut payload, i as f32);
        put_f32(&mut payload, 0.0);
        put_f32(&mut payload, 0.0);
    }
    submesh_header(&mut payload, 0, 10, 0, 0);
    submesh_header(&mut payload, 0, 20, 1, 0);
    data.extend_from_slice(&chunk(1, 1, &payload));
    let actor = xacparse(&data).unwrap();
    let mesh = actor.nodes[0].visual_mesh.as_ref().unwrap();
    assert_eq!(mesh.sub_meshes.len(), 2);
    let first = &mesh.sub_meshes[0];
    let second = &mesh.sub_meshes[1];
    assert_eq!(first.num_vertices, 10);
    assert_eq!(second.num_vertices, 20);
    assert_eq!(first.vertex_positions.len(), 10);
    assert_eq!(second.vertex_positions.len(), 20);
    assert_eq!(first.vertex_positions[0].x, 0.0f32.to_bits());
    assert_eq!(first.vertex_positions[9].x, 9.0f32.to_bits());
    assert_eq!(second.vertex_positions[0].x, 10.0f32.to_bits());
    assert_eq!(second.vertex_positions[19].x, 29.0f32.to_bits());
    assert_eq!(first.name, b"Body".to_vec());
    assert_eq!(first.material_id, 0);
    assert_eq!(second.material_id, 1);
    // absent attributes stay empty, never defaulted
    assert_eq!(first.vertex_normals.len(), 0);
    assert_eq!(first.vertex_uvs.len(), 0);
    assert_eq!(first.indices.len(), 0);
}

#[test]
fn submesh_vertex_counts_must_sum_to_the_declared_total() {
    let mut data = header();
    data.extend_from_slice(&one_node_hierarchy(b"Body"));
    let mut payload = Vec::new();
    mesh_header(&mut payload, 0, 0, 30, 0, 1, 1, false);
    vertex_element(&mut payload, 0, 12);
    for _ in 0..30 {
        put_f32(&mut payload, 0.0);
        put_f32(&mut payload, 0.0);
        put_f32(&mut payload, 0.0);
    }
    submesh_header(&mut payload, 0, 10, 0, 0); // only 10 of 30 vertices
    data.extend_from_slice(&chunk(1, 1, &payload));
    assert_eq!(
        xacparse(&data).unwrap_err(),
        XacError::VertexCountMismatch { declared: 30, offset: 10 }
    );
}

#[test]
fn submesh_cannot_claim_more_vertices_than_declared() {
    let mut data = header();
    data.extend_from_slice(&one_node_hierarchy(b"Body"));
    let mut payload = Vec::new();
    mesh_header(&mut payload, 0, 0, 30, 0, 1, 0, false);
    submesh_header(&mut payload, 0, 40, 0, 0);
    data.extend_from_slice(&chunk(1, 1, &payload));
    assert_eq!(
        xacparse(&data).unwrap_err(),
        XacError::VertexCountMismatch { declared: 30, offset: 0 }
    );
}

#[test]
fn mesh_for_an_unknown_node_is_fatal() {
    let mut data = header();
    let mut payload = Vec::new();
    mesh_header(&mut payload, 3, 0, 0, 0, 0, 0, false);
    data.extend_from_slice(&chunk(1, 1, &payload));
    assert_eq!(xacparse(&data).unwrap_err(), XacError::NodeNotFound { node_id: 3 });
}

#[test]
fn negative_mesh_count_is_fatal() {
    let mut data = header();
    data.extend_from_slice(&one_node_hierarchy(b"Body"));
    let mut payload = Vec::new();
    mesh_header(&mut payload, 0, 0, -1, 0, 0, 0, false);
    data.extend_from_slice(&chunk(1, 1, &payload));
    assert_eq!(xacparse(&data).unwrap_err(), XacError::NegativeCount { count: -1 });
}

#[test]
fn second_visual_mesh_for_one_node_is_fatal() {
    let mut data = header();
    data.extend_from_slice(&one_node_hierarchy(b"Body"));
    let mut payload = Vec::new();
    mesh_header(&mut payload, 0, 0, 0, 0, 0, 0, false);
    let mesh_chunk = chunk(1, 1, &payload);
    data.extend_from_slice(&mesh_chunk);
    data.extend_from_slice(&mesh_chunk);
    assert_eq!(
        xacparse(&data).unwrap_err(),
        XacError::DuplicateMesh { node_id: 0, collision: false }
    );
}

#[test]
fn visual_and_collision_meshes_use_separate_slots() {
    let mut data = header();
    data.extend_from_slice(&one_node_hierarchy(b"Body"));
    let mut visual = Vec::new();
    mesh_header(&mut visual, 0, 0, 0, 0, 0, 0, false);
    let mut collision = Vec::new();
    mesh_header(&mut collision, 0, 0, 0, 0, 0, 0, true);
    data.extend_from_slice(&chunk(1, 1, &visual));
    data.extend_from_slice(&chunk(1, 1, &collision));
    let actor = xacparse(&data).unwrap();
    assert!(actor.nodes[0].visual_mesh.is_some());
    assert!(actor.nodes[0].collision_mesh.is_some());
}

// The tangent usage code fills the tangent array on its first
// occurrence and the bitangent array on its second.
#[test]
fn second_tangent_stream_becomes_bitangents() {
    let mut data = header();
    data.extend_from_slice(&one_node_hierarchy(b"Body"));
    let mut payload = Vec::new();
    mesh_header(&mut payload, 0, 0, 2, 0, 1, 2, false);
    vertex_element(&mut payload, 2, 16);
    for _ in 0..2 {
        put_f32(&mut payload, 1.0);
        put_f32(&mut payload, 0.0);
        put_f32(&mut payload, 0.0);
        put_f32(&mut payload, 1.0);
    }
    vertex_element(&mut payload, 2, 16);
    for _ in 0..2 {
        put_f32(&mut payload, 0.0);
        put_f32(&mut payload, 2.0);
        put_f32(&mut payload, 0.0);
        put_f32(&mut payload, 1.0);
    }
    submesh_header(&mut payload, 0, 2, 0, 0);
    data.extend_from_slice(&chunk(1, 1, &payload));
    let actor = xacparse(&data).unwrap();
    let sm = &actor.nodes[0].visual_mesh.as_ref().unwrap().sub_meshes[0];
    assert_eq!(sm.vertex_tangents.len(), 2);
    assert_eq!(sm.vertex_bi_tangents.len(), 2);
    assert_eq!(sm.vertex_tangents[0].x, 1.0f32.to_bits());
    assert_eq!(sm.vertex_bi_tangents[0].y, 2.0f32.to_bits());
}

// Every UV occurrence becomes its own channel, and each channel is
// sliced per submesh.
#[test]
fn uv_channels_are_kept_separately() {
    let mut data = header();
    data.extend_from_slice(&one_node_hierarchy(b"Body"));
    let mut payload = Vec::new();
    mesh_header(&mut payload, 0, 0, 2, 0, 1, 2, false);
    vertex_element(&mut payload, 3, 8);
    for i in 0..2 {
        put_f32(&mut payload, i as f32);
        put_f32(&mut payload, 0.0);
    }
    vertex_element(&mut payload, 3, 8);
    for i in 0..2 {
        put_f32(&mut payload, 10.0 + i as f32);
        put_f32(&mut payload, 1.0);
    }
    submesh_header(&mut payload, 0, 2, 0, 0);
    data.extend_from_slice(&chunk(1, 1, &payload));
    let actor = xacparse(&data).unwrap();
    let sm = &actor.nodes[0].visual_mesh.as_ref().unwrap().sub_meshes[0];
    assert_eq!(sm.vertex_uvs.len(), 2);
    assert_eq!(sm.vertex_uvs[0][0].x, 0.0f32.to_bits());
    assert_eq!(sm.vertex_uvs[0][1].x, 1.0f32.to_bits());
    assert_eq!(sm.vertex_uvs[1][0].x, 10.0f32.to_bits());
    assert_eq!(sm.vertex_uvs[1][1].y, 1.0f32.to_bits());
}

// Influence-range indices, submesh index streams, and the skipped
// bone-ID block.
#[test]
fn influence_ranges_indices_and_bones() {
    let mut data = header();
    data.extend_from_slice(&one_node_hierarchy(b"Body"));
    let mut payload = Vec::new();
    mesh_header(&mut payload, 0, 4, 3, 6, 1, 1, false);
    vertex_element(&mut payload, 5, 4); // influence-range indices
    for i in 0..3 {
        put_i32(&mut payload, 100 + i);
    }
    submesh_header(&mut payload, 6, 3, 2, 2);
    for i in 0..6 {
        put_i32(&mut payload, i); // raw index stream
    }
    payload.extend_from_slice(&[0u8; 8]); // 4 * num_bones skipped bytes
    data.extend_from_slice(&chunk(1, 1, &payload));
    let actor = xacparse(&data).unwrap();
    let sm = &actor.nodes[0].visual_mesh.as_ref().unwrap().sub_meshes[0];
    assert_eq!(sm.influence_range_indices, vec![100, 101, 102]);
    assert_eq!(sm.indices, vec![0, 1, 2, 3, 4, 5]);
    assert_eq!(sm.num_bones, 2);
    assert_eq!(actor.mesh_num_influence_range.len(), 1);
    assert_eq!(actor.mesh_num_influence_range[0].node_id, 0);
    assert_eq!(actor.mesh_num_influence_range[0].num, 4);
    assert_eq!(actor.sub_mesh_influence_range_indices.len(), 1);
    assert_eq!(actor.sub_mesh_influence_range_indices[0].node_id, 0);
    assert_eq!(
        actor.sub_mesh_influence_range_indices[0].indices,
        vec![100, 101, 102]
    );
}

// A truncated mesh payload aborts the whole decode with a short read.
#[test]
fn truncated_mesh_payload_is_fatal() {
    let mut data = header();
    data.extend_from_slice(&one_node_hierarchy(b"Body"));
    let mut payload = Vec::new();
    mesh_header(&mut payload, 0, 0, 8, 0, 1, 1, false);
    vertex_element(&mut payload, 0, 12);
    // only 2 of the declared 8 position entries follow
    for _ in 0..2 {
        put_f32(&mut payload, 0.0);
        put_f32(&mut payload, 0.0);
        put_f32(&mut payload, 0.0);
    }
    data.extend_from_slice(&chunk(1, 1, &payload));
    match xacparse(&data) {
        Err(XacError::ShortRead { .. }) => {},
        other => panic!("expected a short read, got {:?}", other),
    }
}
