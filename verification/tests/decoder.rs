use xac::model::XacError;
use xac::parser::xacparse;

fn put_i32(out: &mut Vec<u8>, v: i32) {
    out.extend_from_slice(&v.to_le_bytes());
}

fn put_u32(out: &mut Vec<u8>, v: u32) {
    out.extend_from_slice(&v.to_le_bytes());
}

fn put_f32(out: &mut Vec<u8>, v: f32) {
    out.extend_from_slice(&v.to_bits().to_le_bytes());
}

fn put_string(out: &mut Vec<u8>, s: &[u8]) {
    put_i32(out, s.len() as i32);
    out.extend_from_slice(s);
}

fn header() -> Vec<u8> {
    let mut out = Vec::new();
    out.extend_from_slice(b"XAC ");
    out.push(1); // major version
    out.push(0); // minor version
    out.push(0); // little-endian flag
    out.push(0); // multiply order
    out
}

fn chunk(type_id: i32, version: i32, payload: &[u8]) -> Vec<u8> {
    let mut out = Vec::new();
    put_i32(&mut out, type_id);
    put_i32(&mut out, payload.len() as i32);
    put_i32(&mut out, version);
    out.extend_from_slice(payload);
    out
}

/// One node record of the hierarchy chunk, with fixed transform data.
fn node_record(parent: i32, num_children: i32, name: &[u8]) -> Vec<u8> {
    let mut out = Vec::new();
    for i in 0..4 {
        put_f32(&mut out, i as f32); // rotation
    }
    for i in 0..4 {
        put_f32(&mut out, 1.0 + i as f32); // scale rotation
    }
    for _ in 0..3 {
        put_f32(&mut out, 2.5); // position
    }
    for _ in 0..3 {
        put_f32(&mut out, 1.0); // scale
    }
    for _ in 0..5 {
        put_i32(&mut out, 0); // reserved words
    }
    put_i32(&mut out, parent);
    put_i32(&mut out, num_children);
    put_i32(&mut out, 0); // include-in-bounds flag
    for _ in 0..16 {
        put_f32(&mut out, 0.0); // 4x4 transform
    }
    put_f32(&mut out, 1.0); // importance factor
    put_string(&mut out, name);
    out
}

fn hierarchy_chunk(num_nodes: i32, num_roots: i32, records: &[Vec<u8>]) -> Vec<u8> {
    let mut payload = Vec::new();
    put_i32(&mut payload, num_nodes);
    put_i32(&mut payload, num_roots);
    for r in records {
        payload.extend_from_slice(r);
    }
    chunk(11, 1, &payload)
}

#[test]
fn empty_container_decodes_to_empty_actor() {
    let data = header();
    let actor = xacparse(&data).unwrap();
    assert_eq!(actor.header.magic, b"XAC ".to_vec());
    assert_eq!(actor.header.major_version, 1);
    assert_eq!(actor.header.minor_version, 0);
    assert!(!actor.header.big_endian);
    assert_eq!(actor.nodes.len(), 0);
    assert_eq!(actor.root_nodes.len(), 0);
    assert_eq!(actor.materials.len(), 0);
    assert_eq!(actor.shader_materials.len(), 0);
}

#[test]
fn bad_magic_is_rejected() {
    let mut data = header();
    data[0] = b'Y';
    assert_eq!(xacparse(&data).unwrap_err(), XacError::BadMagic);
}

#[test]
fn unsupported_version_is_rejected() {
    let mut data = header();
    data[4] = 2;
    assert_eq!(
        xacparse(&data).unwrap_err(),
        XacError::UnsupportedVersion { major: 2, minor: 0 }
    );
}

#[test]
fn big_endian_flag_is_rejected() {
    let mut data = header();
    data[6] = 1;
    assert_eq!(xacparse(&data).unwrap_err(), XacError::BigEndian);
}

#[test]
fn truncated_header_is_a_short_read() {
    let data = b"XAC".to_vec();
    assert_eq!(xacparse(&data).unwrap_err(), XacError::ShortRead { offset: 0 });
}

#[test]
fn multiply_order_is_carried() {
    let mut data = header();
    data[7] = 3;
    let actor = xacparse(&data).unwrap();
    assert_eq!(actor.header.multiply_order, 3);
}

// Scenario: container with one node-hierarchy chunk declaring 2 nodes and
// 1 root: "Pelvis" with parent -1 and "Spine" with parent 0.
#[test]
fn hierarchy_pelvis_spine() {
    let mut data = header();
    let records = vec![node_record(-1, 1, b"Pelvis"), node_record(0, 0, b"Spine")];
    data.extend_from_slice(&hierarchy_chunk(2, 1, &records));
    let actor = xacparse(&data).unwrap();
    assert_eq!(actor.root_nodes.len(), 1);
    assert_eq!(actor.nodes.len(), 2);
    assert_eq!(actor.num_nodes, 2);
    assert_eq!(actor.num_root_nodes, 1);
    let root = &actor.nodes[actor.root_nodes[0]];
    assert_eq!(root.name, b"Pelvis".to_vec());
    assert_eq!(root.node_id, 0);
    assert_eq!(root.parent_node_id, -1);
    assert_eq!(root.children, vec![1]);
    let child = &actor.nodes[root.children[0]];
    assert_eq!(child.name, b"Spine".to_vec());
    assert_eq!(child.node_id, 1);
    assert_eq!(child.parent_node_id, 0);
    assert_eq!(child.children.len(), 0);
    // transform data of the records is carried as raw float bits
    assert_eq!(root.position.x, 2.5f32.to_bits());
    assert_eq!(root.rotation.w, 3.0f32.to_bits());
    assert_eq!(root.scale_rotation.x, 1.0f32.to_bits());
}

#[test]
fn root_count_mismatch_is_fatal() {
    let mut data = header();
    let records = vec![node_record(-1, 1, b"Pelvis"), node_record(0, 0, b"Spine")];
    data.extend_from_slice(&hierarchy_chunk(2, 2, &records));
    assert_eq!(
        xacparse(&data).unwrap_err(),
        XacError::RootCountMismatch { declared: 2, found: 1 }
    );
}

#[test]
fn non_positive_node_count_is_fatal() {
    let mut data = header();
    data.extend_from_slice(&hierarchy_chunk(0, 0, &[]));
    assert_eq!(xacparse(&data).unwrap_err(), XacError::InvalidNodeCount { count: 0 });
}

#[test]
fn unseen_parent_id_is_fatal() {
    let mut data = header();
    let records = vec![node_record(-1, 1, b"Pelvis"), node_record(5, 0, b"Spine")];
    data.extend_from_slice(&hierarchy_chunk(2, 1, &records));
    assert_eq!(
        xacparse(&data).unwrap_err(),
        XacError::InvalidParentId { parent: 5, seen: 1 }
    );
}

#[test]
fn two_children_attach_to_the_right_parent() {
    let mut data = header();
    let records = vec![
        node_record(-1, 2, b"Root"),
        node_record(0, 0, b"Left"),
        node_record(0, 0, b"Right"),
    ];
    data.extend_from_slice(&hierarchy_chunk(3, 1, &records));
    let actor = xacparse(&data).unwrap();
    assert_eq!(actor.root_nodes, vec![0]);
    assert_eq!(actor.nodes[0].children, vec![1, 2]);
    assert_eq!(actor.nodes[1].name, b"Left".to_vec());
    assert_eq!(actor.nodes[2].name, b"Right".to_vec());
}

// Scenario: material totals 5 = 3 + 2 is accepted; 5 != 3 + 1 is fatal.
#[test]
fn material_totals_accepted() {
    let mut payload = Vec::new();
    put_i32(&mut payload, 5);
    put_i32(&mut payload, 3);
    put_i32(&mut payload, 2);
    let mut data = header();
    data.extend_from_slice(&chunk(13, 1, &payload));
    let actor = xacparse(&data).unwrap();
    assert_eq!(actor.material_total.num_total_materials, 5);
    assert_eq!(actor.material_total.num_standard_materials, 3);
    assert_eq!(actor.material_total.num_fx_materials, 2);
}

#[test]
fn material_totals_mismatch_is_fatal() {
    let mut payload = Vec::new();
    put_i32(&mut payload, 5);
    put_i32(&mut payload, 3);
    put_i32(&mut payload, 1);
    let mut data = header();
    data.extend_from_slice(&chunk(13, 1, &payload));
    assert_eq!(
        xacparse(&data).unwrap_err(),
        XacError::MaterialTotalMismatch { total: 5, standard: 3, fx: 1 }
    );
}

#[test]
fn non_positive_standard_material_count_is_fatal() {
    let mut payload = Vec::new();
    put_i32(&mut payload, 5);
    put_i32(&mut payload, 0);
    put_i32(&mut payload, 5);
    let mut data = header();
    data.extend_from_slice(&chunk(13, 1, &payload));
    assert_eq!(
        xacparse(&data).unwrap_err(),
        XacError::InvalidStandardMaterialCount { count: 0 }
    );
}

// An unknown chunk type is skipped by its declared length alone, and
// the chunks after it decode unaffected.
#[test]
fn unknown_chunk_is_skipped_by_length() {
    let garbage = [0xDEu8; 37];
    let mut totals = Vec::new();
    put_i32(&mut totals, 5);
    put_i32(&mut totals, 3);
    put_i32(&mut totals, 2);
    let mut data = header();
    data.extend_from_slice(&chunk(99, 7, &garbage));
    data.extend_from_slice(&chunk(13, 1, &totals));
    let actor = xacparse(&data).unwrap();
    assert_eq!(actor.material_total.num_total_materials, 5);
}

// Skinning and morph-target chunks are recognized but intentionally
// not decoded: they are skipped like unknown chunks.
#[test]
fn skinning_chunk_is_skipped() {
    let garbage = [0x11u8; 16];
    let mut totals = Vec::new();
    put_i32(&mut totals, 2);
    put_i32(&mut totals, 1);
    put_i32(&mut totals, 1);
    let mut data = header();
    data.extend_from_slice(&chunk(2, 3, &garbage));
    data.extend_from_slice(&chunk(12, 1, &garbage));
    data.extend_from_slice(&chunk(13, 1, &totals));
    let actor = xacparse(&data).unwrap();
    assert_eq!(actor.material_total.num_standard_materials, 1);
}

#[test]
fn negative_chunk_length_ends_the_decode() {
    let mut totals = Vec::new();
    put_i32(&mut totals, 5);
    put_i32(&mut totals, 3);
    put_i32(&mut totals, 2);
    let mut data = header();
    let mut bad = chunk(13, 1, &totals);
    // overwrite the declared length with a negative value
    bad[4..8].copy_from_slice(&(-1i32).to_le_bytes());
    data.extend_from_slice(&bad);
    // the totals chunk itself was decoded, then the seek past the end
    // ends the loop without error
    let actor = xacparse(&data).unwrap();
    assert_eq!(actor.material_total.num_total_materials, 5);
}

#[test]
fn overlong_chunk_length_ends_the_decode() {
    let mut data = header();
    data.extend_from_slice(&chunk(99, 1, &[0u8; 4]));
    // claim far more payload than the stream holds
    let n = data.len();
    data[n - 16..n - 12].copy_from_slice(&1000i32.to_le_bytes());
    let actor = xacparse(&data).unwrap();
    assert_eq!(actor.nodes.len(), 0);
}

#[test]
fn metadata_chunk_is_decoded() {
    let mut payload = Vec::new();
    put_u32(&mut payload, 0xAB);
    put_i32(&mut payload, -1);
    payload.push(4); // exporter major
    payload.push(2); // exporter minor
    payload.push(0); // padding
    payload.push(0); // padding
    put_f32(&mut payload, 0.25);
    put_string(&mut payload, b"ExporterApp");
    put_string(&mut payload, b"warrior.max");
    put_string(&mut payload, b"2009-01-01");
    put_string(&mut payload, b"Warrior");
    let mut data = header();
    data.extend_from_slice(&chunk(7, 2, &payload));
    let actor = xacparse(&data).unwrap();
    assert_eq!(actor.metadata.reposition_mask, 0xAB);
    assert_eq!(actor.metadata.repositioning_node, -1);
    assert_eq!(actor.metadata.exporter_major_version, 4);
    assert_eq!(actor.metadata.exporter_minor_version, 2);
    assert_eq!(actor.metadata.retarget_root_offset, 0.25f32.to_bits());
    assert_eq!(actor.source_app, b"ExporterApp".to_vec());
    assert_eq!(actor.original_filename, b"warrior.max".to_vec());
    assert_eq!(actor.export_date, b"2009-01-01".to_vec());
    assert_eq!(actor.actor_name, b"Warrior".to_vec());
}

fn material_chunk(name: &[u8], layers: &[(&[u8], i16, u8)]) -> Vec<u8> {
    let mut payload = Vec::new();
    for c in 0..16 {
        put_f32(&mut payload, c as f32 * 0.125); // four 4-component colors
    }
    put_f32(&mut payload, 32.0); // shine
    put_f32(&mut payload, 1.0); // shine strength
    put_f32(&mut payload, 0.75); // opacity
    put_f32(&mut payload, 1.5); // index of refraction
    payload.push(1); // double sided
    payload.push(0); // wireframe
    payload.push(0); // padding
    payload.push(layers.len() as u8);
    put_string(&mut payload, name);
    for (texture, material_id, map_type) in layers {
        put_f32(&mut payload, 1.0); // amount
        put_f32(&mut payload, 0.0); // u offset
        put_f32(&mut payload, 0.5); // v offset
        put_f32(&mut payload, 2.0); // u tiling
        put_f32(&mut payload, 4.0); // v tiling
        put_f32(&mut payload, 0.0); // rotation
        payload.extend_from_slice(&material_id.to_le_bytes());
        payload.push(*map_type);
        payload.push(0); // padding
        put_string(&mut payload, texture);
    }
    chunk(3, 2, &payload)
}

#[test]
fn material_definition_is_decoded() {
    let mut data = header();
    data.extend_from_slice(&material_chunk(b"BodyMat", &[(b"body_diffuse.dds", 7, 2)]));
    let actor = xacparse(&data).unwrap();
    assert_eq!(actor.materials.len(), 1);
    let m = &actor.materials[0];
    assert_eq!(m.name, b"BodyMat".to_vec());
    assert_eq!(m.ambient_color.x, 0.0f32.to_bits());
    assert_eq!(m.diffuse_color.x, 0.5f32.to_bits());
    assert_eq!(m.shine, 32.0f32.to_bits());
    assert_eq!(m.opacity, 0.75f32.to_bits());
    assert!(m.double_sided);
    assert!(!m.wireframe);
    assert_eq!(m.layers.len(), 1);
    let l = &m.layers[0];
    assert_eq!(l.name, b"body_diffuse.dds".to_vec());
    assert_eq!(l.v_offset, 0.5f32.to_bits());
    assert_eq!(l.u_tiling, 2.0f32.to_bits());
    assert_eq!(l.material_id, 7);
    assert_eq!(l.map_type, 2);
}

#[test]
fn material_layer_order_is_preserved() {
    let mut data = header();
    data.extend_from_slice(&material_chunk(
        b"M",
        &[(b"first.dds", 0, 1), (b"second.dds", 1, 2), (b"third.dds", 2, 3)],
    ));
    let actor = xacparse(&data).unwrap();
    let m = &actor.materials[0];
    assert_eq!(m.layers.len(), 3);
    assert_eq!(m.layers[0].name, b"first.dds".to_vec());
    assert_eq!(m.layers[1].name, b"second.dds".to_vec());
    assert_eq!(m.layers[2].name, b"third.dds".to_vec());
}

#[test]
fn shader_material_is_decoded_in_fixed_order() {
    let mut payload = Vec::new();
    put_i32(&mut payload, 1); // int properties
    put_i32(&mut payload, 1); // float properties
    put_i32(&mut payload, 0); // reserved word
    put_i32(&mut payload, 1); // bool properties
    put_i32(&mut payload, 9); // flag
    put_i32(&mut payload, 1); // string properties
    put_string(&mut payload, b"BodyMat");
    put_string(&mut payload, b"skin.fx");
    put_string(&mut payload, b"Samples");
    put_i32(&mut payload, 16);
    put_string(&mut payload, b"Glossiness");
    put_f32(&mut payload, 0.5);
    put_string(&mut payload, b"UseFresnel");
    payload.push(1);
    put_i32(&mut payload, 3); // reserved block length
    payload.extend_from_slice(&[9, 9, 9]); // reserved block, skipped
    put_string(&mut payload, b"Technique");
    put_string(&mut payload, b"high");
    let mut data = header();
    data.extend_from_slice(&chunk(5, 2, &payload));
    let actor = xacparse(&data).unwrap();
    assert_eq!(actor.shader_materials.len(), 1);
    let sm = &actor.shader_materials[0];
    assert_eq!(sm.num_int, 1);
    assert_eq!(sm.num_float, 1);
    assert_eq!(sm.num_bool, 1);
    assert_eq!(sm.num_string, 1);
    assert_eq!(sm.flag, 9);
    assert_eq!(sm.name_material, b"BodyMat".to_vec());
    assert_eq!(sm.name_shader, b"skin.fx".to_vec());
    assert_eq!(sm.int_property.len(), 1);
    assert_eq!(sm.int_property[0].name_properties, b"Samples".to_vec());
    assert_eq!(sm.int_property[0].value, 16);
    assert_eq!(sm.float_property[0].name_properties, b"Glossiness".to_vec());
    assert_eq!(sm.float_property[0].value, 0.5f32.to_bits());
    assert_eq!(sm.bool_property[0].name_properties, b"UseFresnel".to_vec());
    assert_eq!(sm.bool_property[0].value, 1);
    assert_eq!(sm.string_property[0].name_properties, b"Technique".to_vec());
    assert_eq!(sm.string_property[0].value, b"high".to_vec());
}
