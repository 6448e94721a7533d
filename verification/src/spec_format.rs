//! Specification-level description of the container's binary layout.
//!
//! Every function here is a total spec function over the byte sequence:
//! a parser returns `Ok((value, next_position))` or the exact error the
//! decoder must report. The executable decoder is verified to return
//! precisely what these functions compute.

use vstd::prelude::*;

use crate::model::{
    ActorView, BoolPropertyView, Color8, FloatPropertyView, IntPropertyView, MaterialLayerView,
    MaterialView, Matrix44, MeshView, NodeView, Quaternion, ShaderMaterialView, StringPropertyView,
    SubMeshInfluenceRangeView, SubMeshView, Vec2, Vec3, Vec4, XacError, XacHeaderView,
    XacInfluenceRange, XacMaterialTotals, XacMetadata,
};

verus! {

/// `n` more bytes can be read at `pos`.
pub open spec fn sp_have(s: Seq<u8>, pos: int, n: int) -> bool {
    0 <= pos && 0 <= n && pos + n <= s.len()
}

/// Little-endian value of the `n` bytes at `pos`.
pub open spec fn le_val(s: Seq<u8>, pos: int, n: nat) -> int
    decreases n,
{
    if n == 0 {
        0
    } else {
        s[pos] + 0x100 * le_val(s, pos + 1, (n - 1) as nat)
    }
}

/// 256 to the power `n`.
pub open spec fn pow256(n: nat) -> int
    decreases n,
{
    if n == 0 {
        1
    } else {
        0x100 * pow256((n - 1) as nat)
    }
}

/// A little-endian value of `n` in-bounds bytes lies below 256^n.
pub proof fn lemma_le_val_bound(s: Seq<u8>, pos: int, n: nat)
    requires
        sp_have(s, pos, n as int),
    ensures
        0 <= le_val(s, pos, n) < pow256(n),
    decreases n,
{
    if n > 0 {
        lemma_le_val_bound(s, pos + 1, (n - 1) as nat);
    }
}

/// Two's-complement reading of a 32-bit unsigned value.
pub open spec fn signed32(v: int) -> int {
    if v >= 0x8000_0000 {
        v - 0x1_0000_0000
    } else {
        v
    }
}

/// Two's-complement reading of a 16-bit unsigned value.
pub open spec fn signed16(v: int) -> int {
    if v >= 0x8000 {
        v - 0x1_0000
    } else {
        v
    }
}

/// One byte.
pub open spec fn sp_u8(s: Seq<u8>, pos: int) -> Result<(u8, int), XacError> {
    if sp_have(s, pos, 1) {
        Ok((s[pos], pos + 1))
    } else {
        Err(XacError::ShortRead { offset: pos as usize })
    }
}

/// One little-endian unsigned 32-bit integer.
pub open spec fn sp_u32(s: Seq<u8>, pos: int) -> Result<(u32, int), XacError> {
    if sp_have(s, pos, 4) {
        Ok((le_val(s, pos, 4) as u32, pos + 4))
    } else {
        Err(XacError::ShortRead { offset: pos as usize })
    }
}

/// One little-endian signed 32-bit integer.
pub open spec fn sp_i32(s: Seq<u8>, pos: int) -> Result<(i32, int), XacError> {
    if sp_have(s, pos, 4) {
        Ok((signed32(le_val(s, pos, 4)) as i32, pos + 4))
    } else {
        Err(XacError::ShortRead { offset: pos as usize })
    }
}

/// One little-endian signed 16-bit integer.
pub open spec fn sp_i16(s: Seq<u8>, pos: int) -> Result<(i16, int), XacError> {
    if sp_have(s, pos, 2) {
        Ok((signed16(le_val(s, pos, 2)) as i16, pos + 2))
    } else {
        Err(XacError::ShortRead { offset: pos as usize })
    }
}

/// One byte read as a boolean: any non-zero value is true.
pub open spec fn sp_bool(s: Seq<u8>, pos: int) -> Result<(bool, int), XacError> {
    match sp_u8(s, pos) {
        Ok((b, p)) => Ok((b != 0, p)),
        Err(e) => Err(e),
    }
}

/// A length-prefixed string: a signed 32-bit length `n` followed by the
/// raw bytes. A non-positive length yields the empty string.
pub open spec fn sp_string(s: Seq<u8>, pos: int) -> Result<(Seq<u8>, int), XacError> {
    match sp_i32(s, pos) {
        Err(e) => Err(e),
        Ok((n, p)) => {
            let count: int = if n < 0 { 0 } else { n as int };
            if sp_have(s, p, count) {
                Ok((s.subrange(p, p + count), p + count))
            } else {
                Err(XacError::ShortRead { offset: p as usize })
            }
        },
    }
}

/// Advancing `count` bytes without interpreting them; the new position.
pub open spec fn sp_skip(s: Seq<u8>, pos: int, count: int) -> Result<int, XacError> {
    if sp_have(s, pos, count) {
        Ok(pos + count)
    } else {
        Err(XacError::ShortRead { offset: pos as usize })
    }
}

/// A two-component float vector (bit patterns).
pub open spec fn sp_vec2(s: Seq<u8>, pos: int) -> Result<(Vec2, int), XacError> {
    match sp_u32(s, pos) {
        Err(e) => Err(e),
        Ok((x, p1)) => match sp_u32(s, p1) {
            Err(e) => Err(e),
            Ok((y, p2)) => Ok((Vec2 { x, y }, p2)),
        },
    }
}

/// A three-component float vector (bit patterns).
pub open spec fn sp_vec3(s: Seq<u8>, pos: int) -> Result<(Vec3, int), XacError> {
    match sp_u32(s, pos) {
        Err(e) => Err(e),
        Ok((x, p1)) => match sp_u32(s, p1) {
            Err(e) => Err(e),
            Ok((y, p2)) => match sp_u32(s, p2) {
                Err(e) => Err(e),
                Ok((z, p3)) => Ok((Vec3 { x, y, z }, p3)),
            },
        },
    }
}

/// A four-component float vector (bit patterns).
pub open spec fn sp_vec4(s: Seq<u8>, pos: int) -> Result<(Vec4, int), XacError> {
    match sp_u32(s, pos) {
        Err(e) => Err(e),
        Ok((x, p1)) => match sp_u32(s, p1) {
            Err(e) => Err(e),
            Ok((y, p2)) => match sp_u32(s, p2) {
                Err(e) => Err(e),
                Ok((z, p3)) => match sp_u32(s, p3) {
                    Err(e) => Err(e),
                    Ok((w, p4)) => Ok((Vec4 { x, y, z, w }, p4)),
                },
            },
        },
    }
}

/// A quaternion: four float bit patterns.
pub open spec fn sp_quaternion(s: Seq<u8>, pos: int) -> Result<(Quaternion, int), XacError> {
    match sp_vec4(s, pos) {
        Err(e) => Err(e),
        Ok((v, p)) => Ok((Quaternion { x: v.x, y: v.y, z: v.z, w: v.w }, p)),
    }
}

/// An 8-bit-per-channel color triple.
pub open spec fn sp_color8(s: Seq<u8>, pos: int) -> Result<(Color8, int), XacError> {
    match sp_u8(s, pos) {
        Err(e) => Err(e),
        Ok((x, p1)) => match sp_u8(s, p1) {
            Err(e) => Err(e),
            Ok((y, p2)) => match sp_u8(s, p2) {
                Err(e) => Err(e),
                Ok((z, p3)) => Ok((Color8 { x, y, z }, p3)),
            },
        },
    }
}

/// A 4x4 transform: four rows of four float bit patterns.
pub open spec fn sp_matrix44(s: Seq<u8>, pos: int) -> Result<(Matrix44, int), XacError> {
    match sp_vec4(s, pos) {
        Err(e) => Err(e),
        Ok((a1, p1)) => match sp_vec4(s, p1) {
            Err(e) => Err(e),
            Ok((a2, p2)) => match sp_vec4(s, p2) {
                Err(e) => Err(e),
                Ok((a3, p3)) => match sp_vec4(s, p3) {
                    Err(e) => Err(e),
                    Ok((a4, p4)) => Ok((Matrix44 { axis_1: a1, axis_2: a2, axis_3: a3, pos: a4 }, p4)),
                },
            },
        },
    }
}

// ---------------------------------------------------------------------------
// Format constants
// ---------------------------------------------------------------------------

/// Chunk type ID of a mesh chunk.
pub const CHUNK_ID_MESH: i32 = 1;

/// Chunk type ID of skinning data (recognized, intentionally not decoded).
pub const CHUNK_ID_SKINNING: i32 = 2;

/// Chunk type ID of a standard material definition.
pub const CHUNK_ID_MATERIAL_DEFINITION: i32 = 3;

/// Chunk type ID of a shader material.
pub const CHUNK_ID_SHADER_MATERIAL: i32 = 5;

/// Chunk type ID of the metadata chunk.
pub const CHUNK_ID_METADATA: i32 = 7;

/// Chunk type ID of the node hierarchy.
pub const CHUNK_ID_NODE_HIERARCHY: i32 = 11;

/// Chunk type ID of morph targets (recognized, intentionally not decoded).
pub const CHUNK_ID_MORPH_TARGET: i32 = 12;

/// Chunk type ID of the material totals chunk.
pub const CHUNK_ID_MATERIAL_TOTALS: i32 = 13;

/// Vertex attribute usage code: position.
pub const USAGE_POSITION: u32 = 0;

/// Vertex attribute usage code: normal.
pub const USAGE_NORMAL: u32 = 1;

/// Vertex attribute usage code: tangent; a second occurrence fills the
/// bitangent.
pub const USAGE_TANGENT: u32 = 2;

/// Vertex attribute usage code: one UV coordinate channel per occurrence.
pub const USAGE_UV: u32 = 3;

/// Vertex attribute usage code: one 32-bit color channel per occurrence.
pub const USAGE_COLOR32: u32 = 4;

/// Vertex attribute usage code: per-vertex influence-range index.
pub const USAGE_INFLUENCE_RANGE: u32 = 5;

/// Vertex attribute usage code: one 128-bit color channel per occurrence.
pub const USAGE_COLOR128: u32 = 6;

/// The four magic bytes that open every container.
pub open spec fn magic_tag() -> Seq<u8> {
    seq![0x58u8, 0x41u8, 0x43u8, 0x20u8]
}

// ---------------------------------------------------------------------------
// Container header
// ---------------------------------------------------------------------------

/// The container header: magic, version, endianness, multiply order.
pub open spec fn sp_header(s: Seq<u8>, pos: int) -> Result<(XacHeaderView, int), XacError> {
    if !sp_have(s, pos, 4) {
        Err(XacError::ShortRead { offset: pos as usize })
    } else {
        let magic = s.subrange(pos, pos + 4);
        if magic != magic_tag() {
            Err(XacError::BadMagic)
        } else {
            match sp_u8(s, pos + 4) {
                Err(e) => Err(e),
                Ok((major, p1)) => match sp_u8(s, p1) {
                    Err(e) => Err(e),
                    Ok((minor, p2)) => {
                        if major != 1 || minor != 0 {
                            Err(XacError::UnsupportedVersion { major, minor })
                        } else {
                            match sp_bool(s, p2) {
                                Err(e) => Err(e),
                                Ok((big_endian, p3)) => {
                                    if big_endian {
                                        Err(XacError::BigEndian)
                                    } else {
                                        match sp_u8(s, p3) {
                                            Err(e) => Err(e),
                                            Ok((multiply_order, p4)) => Ok((
                                                XacHeaderView {
                                                    magic,
                                                    major_version: major,
                                                    minor_version: minor,
                                                    big_endian,
                                                    multiply_order,
                                                },
                                                p4,
                                            )),
                                        }
                                    }
                                },
                            }
                        }
                    },
                },
            }
        }
    }
}

// ---------------------------------------------------------------------------
// Chunk header
// ---------------------------------------------------------------------------

/// One chunk header: type, declared payload length, chunk version.
pub ghost struct ChunkHeaderView {
    pub type_id: i32,
    pub length: i32,
    pub version: i32,
}

/// The 12-byte chunk header before each payload.
pub open spec fn sp_chunk_header(s: Seq<u8>, pos: int) -> Result<(ChunkHeaderView, int), XacError> {
    match sp_i32(s, pos) {
        Err(e) => Err(e),
        Ok((type_id, p1)) => match sp_i32(s, p1) {
            Err(e) => Err(e),
            Ok((length, p2)) => match sp_i32(s, p2) {
                Err(e) => Err(e),
                Ok((version, p3)) => Ok((ChunkHeaderView { type_id, length, version }, p3)),
            },
        },
    }
}

// ---------------------------------------------------------------------------
// Metadata chunk
// ---------------------------------------------------------------------------

/// The metadata chunk: scalar settings plus four descriptive strings.
#[verifier::opaque]
pub open spec fn sp_metadata(s: Seq<u8>, pos: int, actor: ActorView) -> Result<
    (ActorView, int),
    XacError,
> {
    match sp_u32(s, pos) {
        Err(e) => Err(e),
        Ok((reposition_mask, p1)) => match sp_i32(s, p1) {
            Err(e) => Err(e),
            Ok((repositioning_node, p2)) => match sp_u8(s, p2) {
                Err(e) => Err(e),
                Ok((exporter_major, p3)) => match sp_u8(s, p3) {
                    Err(e) => Err(e),
                    Ok((exporter_minor, p4)) => match sp_skip(s, p4, 2) {
                        Err(e) => Err(e),
                        Ok(p5) => match sp_u32(s, p5) {
                            Err(e) => Err(e),
                            Ok((retarget_root_offset, p6)) => match sp_string(s, p6) {
                                Err(e) => Err(e),
                                Ok((source_app, p7)) => match sp_string(s, p7) {
                                    Err(e) => Err(e),
                                    Ok((original_filename, p8)) => match sp_string(s, p8) {
                                        Err(e) => Err(e),
                                        Ok((export_date, p9)) => match sp_string(s, p9) {
                                            Err(e) => Err(e),
                                            Ok((actor_name, p10)) => Ok((
                                                ActorView {
                                                    metadata: XacMetadata {
                                                        reposition_mask,
                                                        repositioning_node,
                                                        exporter_major_version: exporter_major,
                                                        exporter_minor_version: exporter_minor,
                                                        retarget_root_offset,
                                                    },
                                                    source_app,
                                                    original_filename,
                                                    export_date,
                                                    actor_name,
                                                    ..actor
                                                },
                                                p10,
                                            )),
                                        },
                                    },
                                },
                            },
                        },
                    },
                },
            },
        },
    }
}

// ---------------------------------------------------------------------------
// Material totals chunk
// ---------------------------------------------------------------------------

/// The material-totals chunk: three declared counts with their
/// arithmetic constraint.
#[verifier::opaque]
pub open spec fn sp_material_totals(s: Seq<u8>, pos: int, actor: ActorView) -> Result<
    (ActorView, int),
    XacError,
> {
    match sp_i32(s, pos) {
        Err(e) => Err(e),
        Ok((total, p1)) => match sp_i32(s, p1) {
            Err(e) => Err(e),
            Ok((standard, p2)) => match sp_i32(s, p2) {
                Err(e) => Err(e),
                Ok((fx, p3)) => {
                    if standard <= 0 {
                        Err(XacError::InvalidStandardMaterialCount { count: standard })
                    } else if total != standard + fx {
                        Err(XacError::MaterialTotalMismatch { total, standard, fx })
                    } else {
                        Ok((
                            ActorView {
                                material_total: XacMaterialTotals {
                                    num_total_materials: total,
                                    num_standard_materials: standard,
                                    num_fx_materials: fx,
                                },
                                ..actor
                            },
                            p3,
                        ))
                    }
                },
            },
        },
    }
}

// ---------------------------------------------------------------------------
// Material definition chunk
// ---------------------------------------------------------------------------

/// One material layer record.
pub open spec fn sp_layer(s: Seq<u8>, pos: int) -> Result<(MaterialLayerView, int), XacError> {
    match sp_u32(s, pos) {
        Err(e) => Err(e),
        Ok((amount, p1)) => match sp_u32(s, p1) {
            Err(e) => Err(e),
            Ok((u_offset, p2)) => match sp_u32(s, p2) {
                Err(e) => Err(e),
                Ok((v_offset, p3)) => match sp_u32(s, p3) {
                    Err(e) => Err(e),
                    Ok((u_tiling, p4)) => match sp_u32(s, p4) {
                        Err(e) => Err(e),
                        Ok((v_tiling, p5)) => match sp_u32(s, p5) {
                            Err(e) => Err(e),
                            Ok((rotation, p6)) => match sp_i16(s, p6) {
                                Err(e) => Err(e),
                                Ok((material_id, p7)) => match sp_u8(s, p7) {
                                    Err(e) => Err(e),
                                    Ok((map_type, p8)) => match sp_skip(s, p8, 1) {
                                        Err(e) => Err(e),
                                        Ok(p9) => match sp_string(s, p9) {
                                            Err(e) => Err(e),
                                            Ok((name, p10)) => Ok((
                                                MaterialLayerView {
                                                    name,
                                                    amount,
                                                    u_offset,
                                                    v_offset,
                                                    u_tiling,
                                                    v_tiling,
                                                    rotation,
                                                    material_id,
                                                    map_type,
                                                },
                                                p10,
                                            )),
                                        },
                                    },
                                },
                            },
                        },
                    },
                },
            },
        },
    }
}

/// `n` material layers in sequence, appended to `acc`.
pub open spec fn sp_layer_run(s: Seq<u8>, pos: int, acc: Seq<MaterialLayerView>, n: int) -> Result<
    (Seq<MaterialLayerView>, int),
    XacError,
>
    decreases n,
{
    if n <= 0 {
        Ok((acc, pos))
    } else {
        match sp_layer(s, pos) {
            Err(e) => Err(e),
            Ok((l, p)) => sp_layer_run(s, p, acc.push(l), n - 1),
        }
    }
}

/// A material-definition chunk: surface parameters, name, layers.
#[verifier::opaque]
pub open spec fn sp_material_definition(s: Seq<u8>, pos: int, actor: ActorView) -> Result<
    (ActorView, int),
    XacError,
> {
    match sp_vec4(s, pos) {
        Err(e) => Err(e),
        Ok((ambient, p1)) => match sp_vec4(s, p1) {
            Err(e) => Err(e),
            Ok((diffuse, p2)) => match sp_vec4(s, p2) {
                Err(e) => Err(e),
                Ok((specular, p3)) => match sp_vec4(s, p3) {
                    Err(e) => Err(e),
                    Ok((emissive, p4)) => match sp_u32(s, p4) {
                        Err(e) => Err(e),
                        Ok((shine, p5)) => match sp_u32(s, p5) {
                            Err(e) => Err(e),
                            Ok((shine_strength, p6)) => match sp_u32(s, p6) {
                                Err(e) => Err(e),
                                Ok((opacity, p7)) => match sp_u32(s, p7) {
                                    Err(e) => Err(e),
                                    Ok((ior, p8)) => match sp_bool(s, p8) {
                                        Err(e) => Err(e),
                                        Ok((double_sided, p9)) => match sp_bool(s, p9) {
                                            Err(e) => Err(e),
                                            Ok((wireframe, p10)) => match sp_skip(s, p10, 1) {
                                                Err(e) => Err(e),
                                                Ok(p11) => match sp_u8(s, p11) {
                                                    Err(e) => Err(e),
                                                    Ok((num_layers, p12)) => match sp_string(s, p12) {
                                                        Err(e) => Err(e),
                                                        Ok((name, p13)) => match sp_layer_run(
                                                            s,
                                                            p13,
                                                            Seq::empty(),
                                                            num_layers as int,
                                                        ) {
                                                            Err(e) => Err(e),
                                                            Ok((layers, p14)) => Ok((
                                                                ActorView {
                                                                    materials: actor.materials.push(
                                                                        MaterialView {
                                                                            name,
                                                                            ambient_color: ambient,
                                                                            diffuse_color: diffuse,
                                                                            specular_color: specular,
                                                                            emissive_color: emissive,
                                                                            shine,
                                                                            shine_strength,
                                                                            opacity,
                                                                            ior,
                                                                            double_sided,
                                                                            wireframe,
                                                                            layers,
                                                                        },
                                                                    ),
                                                                    ..actor
                                                                },
                                                                p14,
                                                            )),
                                                        },
                                                    },
                                                },
                                            },
                                        },
                                    },
                                },
                            },
                        },
                    },
                },
            },
        },
    }
}

// ---------------------------------------------------------------------------
// Shader material chunk
// ---------------------------------------------------------------------------

/// `n` integer properties (name + 32-bit value), appended to `acc`.
pub open spec fn sp_int_prop_run(s: Seq<u8>, pos: int, acc: Seq<IntPropertyView>, n: int) -> Result<
    (Seq<IntPropertyView>, int),
    XacError,
>
    decreases n,
{
    if n <= 0 {
        Ok((acc, pos))
    } else {
        match sp_string(s, pos) {
            Err(e) => Err(e),
            Ok((name, p1)) => match sp_i32(s, p1) {
                Err(e) => Err(e),
                Ok((value, p2)) => sp_int_prop_run(
                    s,
                    p2,
                    acc.push(IntPropertyView { name_properties: name, value }),
                    n - 1,
                ),
            },
        }
    }
}

/// `n` float properties (name + float bits), appended to `acc`.
pub open spec fn sp_float_prop_run(s: Seq<u8>, pos: int, acc: Seq<FloatPropertyView>, n: int) -> Result<
    (Seq<FloatPropertyView>, int),
    XacError,
>
    decreases n,
{
    if n <= 0 {
        Ok((acc, pos))
    } else {
        match sp_string(s, pos) {
            Err(e) => Err(e),
            Ok((name, p1)) => match sp_u32(s, p1) {
                Err(e) => Err(e),
                Ok((value, p2)) => sp_float_prop_run(
                    s,
                    p2,
                    acc.push(FloatPropertyView { name_properties: name, value }),
                    n - 1,
                ),
            },
        }
    }
}

/// `n` boolean properties (name + one byte), appended to `acc`.
pub open spec fn sp_bool_prop_run(s: Seq<u8>, pos: int, acc: Seq<BoolPropertyView>, n: int) -> Result<
    (Seq<BoolPropertyView>, int),
    XacError,
>
    decreases n,
{
    if n <= 0 {
        Ok((acc, pos))
    } else {
        match sp_string(s, pos) {
            Err(e) => Err(e),
            Ok((name, p1)) => match sp_u8(s, p1) {
                Err(e) => Err(e),
                Ok((value, p2)) => sp_bool_prop_run(
                    s,
                    p2,
                    acc.push(BoolPropertyView { name_properties: name, value }),
                    n - 1,
                ),
            },
        }
    }
}

/// `n` string properties (name + string value), appended to `acc`.
pub open spec fn sp_string_prop_run(s: Seq<u8>, pos: int, acc: Seq<StringPropertyView>, n: int) -> Result<
    (Seq<StringPropertyView>, int),
    XacError,
>
    decreases n,
{
    if n <= 0 {
        Ok((acc, pos))
    } else {
        match sp_string(s, pos) {
            Err(e) => Err(e),
            Ok((name, p1)) => match sp_string(s, p1) {
                Err(e) => Err(e),
                Ok((value, p2)) => sp_string_prop_run(
                    s,
                    p2,
                    acc.push(StringPropertyView { name_properties: name, value }),
                    n - 1,
                ),
            },
        }
    }
}

/// A shader-material chunk. The property lists come in a fixed order:
/// integers, floats, booleans, a reserved byte block, strings.
#[verifier::opaque]
pub open spec fn sp_shader_material(s: Seq<u8>, pos: int, actor: ActorView) -> Result<
    (ActorView, int),
    XacError,
> {
    match sp_i32(s, pos) {
        Err(e) => Err(e),
        Ok((num_int, p1)) => match sp_i32(s, p1) {
            Err(e) => Err(e),
            Ok((num_float, p2)) => match sp_skip(s, p2, 4) {
                Err(e) => Err(e),
                Ok(p3) => match sp_i32(s, p3) {
                    Err(e) => Err(e),
                    Ok((num_bool, p4)) => match sp_i32(s, p4) {
                        Err(e) => Err(e),
                        Ok((flag, p5)) => match sp_i32(s, p5) {
                            Err(e) => Err(e),
                            Ok((num_string, p6)) => match sp_string(s, p6) {
                                Err(e) => Err(e),
                                Ok((name_material, p7)) => match sp_string(s, p7) {
                                    Err(e) => Err(e),
                                    Ok((name_shader, p8)) => match sp_int_prop_run(
                                        s,
                                        p8,
                                        Seq::empty(),
                                        num_int as int,
                                    ) {
                                        Err(e) => Err(e),
                                        Ok((int_property, p9)) => match sp_float_prop_run(
                                            s,
                                            p9,
                                            Seq::empty(),
                                            num_float as int,
                                        ) {
                                            Err(e) => Err(e),
                                            Ok((float_property, p10)) => match sp_bool_prop_run(
                                                s,
                                                p10,
                                                Seq::empty(),
                                                num_bool as int,
                                            ) {
                                                Err(e) => Err(e),
                                                Ok((bool_property, p11)) => match sp_i32(s, p11) {
                                                    Err(e) => Err(e),
                                                    Ok((reserved, p12)) => match sp_skip(
                                                        s,
                                                        p12,
                                                        if reserved < 0 {
                                                            0
                                                        } else {
                                                            reserved as int
                                                        },
                                                    ) {
                                                        Err(e) => Err(e),
                                                        Ok(p13) => match sp_string_prop_run(
                                                            s,
                                                            p13,
                                                            Seq::empty(),
                                                            num_string as int,
                                                        ) {
                                                            Err(e) => Err(e),
                                                            Ok((string_property, p14)) => Ok((
                                                                ActorView {
                                                                    shader_materials: actor
                                                                        .shader_materials
                                                                        .push(
                                                                        ShaderMaterialView {
                                                                            num_int,
                                                                            num_float,
                                                                            num_bool,
                                                                            num_string,
                                                                            flag,
                                                                            name_material,
                                                                            name_shader,
                                                                            int_property,
                                                                            float_property,
                                                                            bool_property,
                                                                            string_property,
                                                                        },
                                                                    ),
                                                                    ..actor
                                                                },
                                                                p14,
                                                            )),
                                                        },
                                                    },
                                                },
                                            },
                                        },
                                    },
                                },
                            },
                        },
                    },
                },
            },
        },
    }
}

// ---------------------------------------------------------------------------
// Node hierarchy chunk
// ---------------------------------------------------------------------------

/// One on-disk node record of the hierarchy chunk.
pub ghost struct NodeRecord {
    pub rotation: Quaternion,
    pub scale_rotation: Quaternion,
    pub position: Vec3,
    pub scale: Vec3,
    pub parent_node_id: i32,
    pub num_children: i32,
    pub transform: Matrix44,
    pub name: Seq<u8>,
}

/// One node record: two quaternions, position, scale, five reserved
/// words, parent ID, child count, bounds flag, transform, importance
/// factor, name.
pub open spec fn sp_node_record(s: Seq<u8>, pos: int) -> Result<(NodeRecord, int), XacError> {
    match sp_quaternion(s, pos) {
        Err(e) => Err(e),
        Ok((rotation, p1)) => match sp_quaternion(s, p1) {
            Err(e) => Err(e),
            Ok((scale_rotation, p2)) => match sp_vec3(s, p2) {
                Err(e) => Err(e),
                Ok((position, p3)) => match sp_vec3(s, p3) {
                    Err(e) => Err(e),
                    Ok((scale, p4)) => match sp_skip(s, p4, 20) {
                        Err(e) => Err(e),
                        Ok(p5) => match sp_i32(s, p5) {
                            Err(e) => Err(e),
                            Ok((parent_node_id, p6)) => match sp_i32(s, p6) {
                                Err(e) => Err(e),
                                Ok((num_children, p7)) => match sp_skip(s, p7, 4) {
                                    Err(e) => Err(e),
                                    Ok(p8) => match sp_matrix44(s, p8) {
                                        Err(e) => Err(e),
                                        Ok((transform, p9)) => match sp_skip(s, p9, 4) {
                                            Err(e) => Err(e),
                                            Ok(p10) => match sp_string(s, p10) {
                                                Err(e) => Err(e),
                                                Ok((name, p11)) => Ok((
                                                    NodeRecord {
                                                        rotation,
                                                        scale_rotation,
                                                        position,
                                                        scale,
                                                        parent_node_id,
                                                        num_children,
                                                        transform,
                                                        name,
                                                    },
                                                    p11,
                                                )),
                                            },
                                        },
                                    },
                                },
                            },
                        },
                    },
                },
            },
        },
    }
}

/// Place one decoded record into the actor: assign the next sequential
/// ID, then either add a root or attach the node to its already-seen
/// parent. An unseen or out-of-range parent ID is fatal.
pub open spec fn sp_attach_node(actor: ActorView, rec: NodeRecord) -> Result<ActorView, XacError> {
    let id = actor.nodes.len() as usize;
    let node = NodeView {
        node_id: id,
        parent_node_id: rec.parent_node_id,
        name: rec.name,
        position: rec.position,
        rotation: rec.rotation,
        scale: rec.scale,
        scale_rotation: rec.scale_rotation,
        transform: rec.transform,
        num_children: rec.num_children,
        children: Seq::empty(),
        visual_mesh: None,
        collision_mesh: None,
    };
    if rec.parent_node_id == -1 {
        Ok(
            ActorView {
                nodes: actor.nodes.push(node),
                root_nodes: actor.root_nodes.push(id),
                num_nodes_index: (id + 1) as usize,
                ..actor
            },
        )
    } else if 0 <= rec.parent_node_id && (rec.parent_node_id as int) < actor.nodes.len() {
        let pid = rec.parent_node_id as int;
        let parent = actor.nodes[pid];
        let parent2 = NodeView { children: parent.children.push(id), ..parent };
        Ok(
            ActorView {
                nodes: actor.nodes.update(pid, parent2).push(node),
                num_nodes_index: (id + 1) as usize,
                ..actor
            },
        )
    } else {
        Err(
            XacError::InvalidParentId {
                parent: rec.parent_node_id,
                seen: actor.nodes.len() as usize,
            },
        )
    }
}

/// `n` node records in sequence, each placed into the actor as decoded.
pub open spec fn sp_node_run(s: Seq<u8>, pos: int, actor: ActorView, n: int) -> Result<
    (ActorView, int),
    XacError,
>
    decreases n,
{
    if n <= 0 {
        Ok((actor, pos))
    } else {
        match sp_node_record(s, pos) {
            Err(e) => Err(e),
            Ok((rec, p)) => match sp_attach_node(actor, rec) {
                Err(e) => Err(e),
                Ok(a2) => sp_node_run(s, p, a2, n - 1),
            },
        }
    }
}

/// A node-hierarchy chunk: declared node and root counts, the node
/// records, and the final root-count consistency check.
#[verifier::opaque]
pub open spec fn sp_node_hierarchy(s: Seq<u8>, pos: int, actor: ActorView) -> Result<
    (ActorView, int),
    XacError,
> {
    match sp_i32(s, pos) {
        Err(e) => Err(e),
        Ok((num_nodes, p1)) => match sp_i32(s, p1) {
            Err(e) => Err(e),
            Ok((num_root_nodes, p2)) => {
                if num_nodes <= 0 {
                    Err(XacError::InvalidNodeCount { count: num_nodes })
                } else {
                    let a1 = ActorView { num_nodes, num_root_nodes, ..actor };
                    match sp_node_run(s, p2, a1, num_nodes as int) {
                        Err(e) => Err(e),
                        Ok((a2, p3)) => {
                            if a2.root_nodes.len() != num_root_nodes as int {
                                Err(
                                    XacError::RootCountMismatch {
                                        declared: num_root_nodes,
                                        found: a2.root_nodes.len() as usize,
                                    },
                                )
                            } else {
                                Ok((a2, p3))
                            }
                        },
                    }
                }
            },
        },
    }
}

// ---------------------------------------------------------------------------
// Mesh chunk
// ---------------------------------------------------------------------------

/// The fixed part of a mesh chunk.
pub ghost struct MeshHeaderRec {
    pub node_id: i32,
    pub num_influence_ranges: i32,
    pub num_vertices: i32,
    pub num_indices: i32,
    pub num_sub_meshes: i32,
    pub num_vertex_element: i32,
    pub is_collision_mesh: bool,
}

/// The mesh chunk header: six counts, the collision flag, three
/// padding bytes.
pub open spec fn sp_mesh_header(s: Seq<u8>, pos: int) -> Result<(MeshHeaderRec, int), XacError> {
    match sp_i32(s, pos) {
        Err(e) => Err(e),
        Ok((node_id, p1)) => match sp_i32(s, p1) {
            Err(e) => Err(e),
            Ok((num_influence_ranges, p2)) => match sp_i32(s, p2) {
                Err(e) => Err(e),
                Ok((num_vertices, p3)) => match sp_i32(s, p3) {
                    Err(e) => Err(e),
                    Ok((num_indices, p4)) => match sp_i32(s, p4) {
                        Err(e) => Err(e),
                        Ok((num_sub_meshes, p5)) => match sp_i32(s, p5) {
                            Err(e) => Err(e),
                            Ok((num_vertex_element, p6)) => match sp_bool(s, p6) {
                                Err(e) => Err(e),
                                Ok((is_collision_mesh, p7)) => match sp_skip(s, p7, 3) {
                                    Err(e) => Err(e),
                                    Ok(p8) => Ok((
                                        MeshHeaderRec {
                                            node_id,
                                            num_influence_ranges,
                                            num_vertices,
                                            num_indices,
                                            num_sub_meshes,
                                            num_vertex_element,
                                            is_collision_mesh,
                                        },
                                        p8,
                                    )),
                                },
                            },
                        },
                    },
                },
            },
        },
    }
}

/// The parallel vertex attribute arrays of one mesh chunk, as read so
/// far. Multi-channel attributes keep one sequence per occurrence;
/// repeated single-array attributes append.
pub ghost struct AttribState {
    pub positions: Seq<Vec3>,
    pub normals: Seq<Vec3>,
    pub tangents: Seq<Vec4>,
    pub bi_tangents: Seq<Vec4>,
    pub uv_set: Seq<Seq<Vec2>>,
    pub colors_32: Seq<Seq<Color8>>,
    pub colors_128: Seq<Seq<Vec3>>,
    pub influence_range_indices: Seq<i32>,
}

/// No attribute data yet.
pub open spec fn empty_attribs() -> AttribState {
    AttribState {
        positions: Seq::empty(),
        normals: Seq::empty(),
        tangents: Seq::empty(),
        bi_tangents: Seq::empty(),
        uv_set: Seq::empty(),
        colors_32: Seq::empty(),
        colors_128: Seq::empty(),
        influence_range_indices: Seq::empty(),
    }
}

/// `n` three-component vectors, appended to `acc`.
pub open spec fn sp_vec3_run(s: Seq<u8>, pos: int, acc: Seq<Vec3>, n: int) -> Result<
    (Seq<Vec3>, int),
    XacError,
>
    decreases n,
{
    if n <= 0 {
        Ok((acc, pos))
    } else {
        match sp_vec3(s, pos) {
            Err(e) => Err(e),
            Ok((v, p)) => sp_vec3_run(s, p, acc.push(v), n - 1),
        }
    }
}

/// `n` four-component vectors, appended to `acc`.
pub open spec fn sp_vec4_run(s: Seq<u8>, pos: int, acc: Seq<Vec4>, n: int) -> Result<
    (Seq<Vec4>, int),
    XacError,
>
    decreases n,
{
    if n <= 0 {
        Ok((acc, pos))
    } else {
        match sp_vec4(s, pos) {
            Err(e) => Err(e),
            Ok((v, p)) => sp_vec4_run(s, p, acc.push(v), n - 1),
        }
    }
}

/// `n` two-component vectors, appended to `acc`.
pub open spec fn sp_vec2_run(s: Seq<u8>, pos: int, acc: Seq<Vec2>, n: int) -> Result<
    (Seq<Vec2>, int),
    XacError,
>
    decreases n,
{
    if n <= 0 {
        Ok((acc, pos))
    } else {
        match sp_vec2(s, pos) {
            Err(e) => Err(e),
            Ok((v, p)) => sp_vec2_run(s, p, acc.push(v), n - 1),
        }
    }
}

/// `n` color triples, appended to `acc`.
pub open spec fn sp_color8_run(s: Seq<u8>, pos: int, acc: Seq<Color8>, n: int) -> Result<
    (Seq<Color8>, int),
    XacError,
>
    decreases n,
{
    if n <= 0 {
        Ok((acc, pos))
    } else {
        match sp_color8(s, pos) {
            Err(e) => Err(e),
            Ok((v, p)) => sp_color8_run(s, p, acc.push(v), n - 1),
        }
    }
}

/// `n` signed 32-bit integers, appended to `acc`.
pub open spec fn sp_i32_run(s: Seq<u8>, pos: int, acc: Seq<i32>, n: int) -> Result<
    (Seq<i32>, int),
    XacError,
>
    decreases n,
{
    if n <= 0 {
        Ok((acc, pos))
    } else {
        match sp_i32(s, pos) {
            Err(e) => Err(e),
            Ok((v, p)) => sp_i32_run(s, p, acc.push(v), n - 1),
        }
    }
}

/// One vertex element: an 8-byte element header, then — for a known
/// usage code — `total` entries routed into the attribute state. An
/// unknown usage consumes nothing beyond the element header.
pub open spec fn sp_vertex_element(s: Seq<u8>, pos: int, total: int, a: AttribState) -> Result<
    (AttribState, int),
    XacError,
> {
    match sp_u32(s, pos) {
        Err(e) => Err(e),
        Ok((usage, p1)) => match sp_skip(s, p1, 8) {
            Err(e) => Err(e),
            Ok(p2) => {
                if usage == USAGE_POSITION {
                    match sp_vec3_run(s, p2, a.positions, total) {
                        Err(e) => Err(e),
                        Ok((positions, p3)) => Ok((AttribState { positions, ..a }, p3)),
                    }
                } else if usage == USAGE_NORMAL {
                    match sp_vec3_run(s, p2, a.normals, total) {
                        Err(e) => Err(e),
                        Ok((normals, p3)) => Ok((AttribState { normals, ..a }, p3)),
                    }
                } else if usage == USAGE_TANGENT {
                    if a.tangents.len() == 0 {
                        match sp_vec4_run(s, p2, Seq::empty(), total) {
                            Err(e) => Err(e),
                            Ok((tangents, p3)) => Ok((AttribState { tangents, ..a }, p3)),
                        }
                    } else if a.bi_tangents.len() == 0 {
                        match sp_vec4_run(s, p2, Seq::empty(), total) {
                            Err(e) => Err(e),
                            Ok((bi_tangents, p3)) => Ok((AttribState { bi_tangents, ..a }, p3)),
                        }
                    } else {
                        Ok((a, p2))
                    }
                } else if usage == USAGE_UV {
                    match sp_vec2_run(s, p2, Seq::empty(), total) {
                        Err(e) => Err(e),
                        Ok((channel, p3)) => Ok((AttribState { uv_set: a.uv_set.push(channel), ..a }, p3)),
                    }
                } else if usage == USAGE_COLOR32 {
                    match sp_color8_run(s, p2, Seq::empty(), total) {
                        Err(e) => Err(e),
                        Ok((channel, p3)) => Ok((
                            AttribState { colors_32: a.colors_32.push(channel), ..a },
                            p3,
                        )),
                    }
                } else if usage == USAGE_INFLUENCE_RANGE {
                    match sp_i32_run(s, p2, a.influence_range_indices, total) {
                        Err(e) => Err(e),
                        Ok((influence_range_indices, p3)) => Ok((
                            AttribState { influence_range_indices, ..a },
                            p3,
                        )),
                    }
                } else if usage == USAGE_COLOR128 {
                    match sp_vec3_run(s, p2, Seq::empty(), total) {
                        Err(e) => Err(e),
                        Ok((channel, p3)) => Ok((
                            AttribState { colors_128: a.colors_128.push(channel), ..a },
                            p3,
                        )),
                    }
                } else {
                    Ok((a, p2))
                }
            },
        },
    }
}

/// `n` vertex elements in sequence.
pub open spec fn sp_vertex_element_run(s: Seq<u8>, pos: int, total: int, a: AttribState, n: int) -> Result<
    (AttribState, int),
    XacError,
>
    decreases n,
{
    if n <= 0 {
        Ok((a, pos))
    } else {
        match sp_vertex_element(s, pos, total, a) {
            Err(e) => Err(e),
            Ok((a2, p)) => sp_vertex_element_run(s, p, total, a2, n - 1),
        }
    }
}

/// Lengths of the attribute arrays fit the declared vertex total: a
/// single-array attribute is absent or holds at least `total` entries,
/// and every channel of a multi-channel attribute holds exactly
/// `total` entries. The decoder maintains this while reading vertex
/// elements, and it makes every submesh slice in range.
pub open spec fn attribs_wf(a: AttribState, total: int) -> bool {
    &&& a.positions.len() == 0 || a.positions.len() >= total
    &&& a.normals.len() == 0 || a.normals.len() >= total
    &&& a.tangents.len() == 0 || a.tangents.len() >= total
    &&& a.bi_tangents.len() == 0 || a.bi_tangents.len() >= total
    &&& forall|i: int| 0 <= i < a.uv_set.len() ==> (#[trigger] a.uv_set[i]).len() == total
    &&& forall|i: int| 0 <= i < a.colors_32.len() ==> (#[trigger] a.colors_32[i]).len() == total
    &&& forall|i: int| 0 <= i < a.colors_128.len() ==> (#[trigger] a.colors_128[i]).len() == total
    &&& a.influence_range_indices.len() == 0 || a.influence_range_indices.len() >= total
}

/// A slice of one attribute array, or the empty sequence where the
/// attribute is globally absent.
pub open spec fn sp_slice_if<T>(arr: Seq<T>, off: int, n: int) -> Seq<T> {
    if arr.len() == 0 {
        Seq::empty()
    } else {
        arr.subrange(off, off + n)
    }
}

/// What one parsed submesh contributes.
pub ghost struct SubMeshParse {
    pub sub_mesh: SubMeshView,
    pub influence_record: Option<SubMeshInfluenceRangeView>,
    pub new_offset: int,
}

/// One submesh: its own counts, a slice of every present attribute
/// array over `[off, off + num_vertices)`, the trailing raw index
/// stream, and a skipped bone-ID block.
pub open spec fn sp_submesh(
    s: Seq<u8>,
    pos: int,
    a: AttribState,
    node_name: Seq<u8>,
    node_id: i32,
    declared: i32,
    off: int,
) -> Result<(SubMeshParse, int), XacError> {
    match sp_i32(s, pos) {
        Err(e) => Err(e),
        Ok((num_indices, p1)) => match sp_i32(s, p1) {
            Err(e) => Err(e),
            Ok((num_vertices, p2)) => match sp_i32(s, p2) {
                Err(e) => Err(e),
                Ok((material_id, p3)) => match sp_i32(s, p3) {
                    Err(e) => Err(e),
                    Ok((num_bones, p4)) => {
                        if num_indices < 0 {
                            Err(XacError::NegativeCount { count: num_indices })
                        } else if num_vertices < 0 {
                            Err(XacError::NegativeCount { count: num_vertices })
                        } else if num_bones < 0 {
                            Err(XacError::NegativeCount { count: num_bones })
                        } else if off + (num_vertices as int) > declared as int {
                            Err(XacError::VertexCountMismatch { declared, offset: off as usize })
                        } else {
                            match sp_i32_run(s, p4, Seq::empty(), num_indices as int) {
                                Err(e) => Err(e),
                                Ok((indices, p5)) => match sp_skip(s, p5, 4 * num_bones as int) {
                                    Err(e) => Err(e),
                                    Ok(p6) => {
                                        let nv = num_vertices as int;
                                        let influence_slice = sp_slice_if(
                                            a.influence_range_indices,
                                            off,
                                            nv,
                                        );
                                        let sub_mesh = SubMeshView {
                                            name: node_name,
                                            material_id,
                                            num_vertices,
                                            num_indices,
                                            num_bones,
                                            vertex_positions: sp_slice_if(a.positions, off, nv),
                                            vertex_normals: sp_slice_if(a.normals, off, nv),
                                            vertex_tangents: sp_slice_if(a.tangents, off, nv),
                                            vertex_bi_tangents: sp_slice_if(a.bi_tangents, off, nv),
                                            vertex_uvs: a.uv_set.map_values(
                                                |ch: Seq<Vec2>| ch.subrange(off, off + nv),
                                            ),
                                            vertex_colors_32: a.colors_32.map_values(
                                                |ch: Seq<Color8>| ch.subrange(off, off + nv),
                                            ),
                                            vertex_colors_128: a.colors_128.map_values(
                                                |ch: Seq<Vec3>| ch.subrange(off, off + nv),
                                            ),
                                            influence_range_indices: influence_slice,
                                            indices,
                                        };
                                        let influence_record = if a.influence_range_indices.len()
                                            > 0 {
                                            Some(
                                                SubMeshInfluenceRangeView {
                                                    node_id: node_id as usize,
                                                    indices: influence_slice,
                                                },
                                            )
                                        } else {
                                            None
                                        };
                                        Ok((
                                            SubMeshParse {
                                                sub_mesh,
                                                influence_record,
                                                new_offset: off + nv,
                                            },
                                            p6,
                                        ))
                                    },
                                },
                            }
                        }
                    },
                },
            },
        },
    }
}

/// The accumulating state of the submesh loop.
pub ghost struct SubMeshRunState {
    pub subs: Seq<SubMeshView>,
    pub influence_records: Seq<SubMeshInfluenceRangeView>,
    pub offset: int,
}

/// `n` submeshes in sequence, with the running vertex offset.
pub open spec fn sp_submesh_run(
    s: Seq<u8>,
    pos: int,
    a: AttribState,
    node_name: Seq<u8>,
    node_id: i32,
    declared: i32,
    st: SubMeshRunState,
    n: int,
) -> Result<(SubMeshRunState, int), XacError>
    decreases n,
{
    if n <= 0 {
        Ok((st, pos))
    } else {
        match sp_submesh(s, pos, a, node_name, node_id, declared, st.offset) {
            Err(e) => Err(e),
            Ok((parse, p)) => {
                let st2 = SubMeshRunState {
                    subs: st.subs.push(parse.sub_mesh),
                    influence_records: match parse.influence_record {
                        Some(r) => st.influence_records.push(r),
                        None => st.influence_records,
                    },
                    offset: parse.new_offset,
                };
                sp_submesh_run(s, p, a, node_name, node_id, declared, st2, n - 1)
            },
        }
    }
}

/// A mesh chunk: header, validity checks, the owning node lookup, the
/// vertex element streams, the submeshes, the final offset check, and
/// the attachment of the finished mesh to the node's visual or
/// collision slot.
#[verifier::opaque]
pub open spec fn sp_mesh_chunk(s: Seq<u8>, pos: int, actor: ActorView) -> Result<
    (ActorView, int),
    XacError,
> {
    match sp_mesh_header(s, pos) {
        Err(e) => Err(e),
        Ok((h, p1)) => {
            if h.num_influence_ranges < 0 {
                Err(XacError::NegativeCount { count: h.num_influence_ranges })
            } else if h.num_vertices < 0 {
                Err(XacError::NegativeCount { count: h.num_vertices })
            } else if h.num_indices < 0 {
                Err(XacError::NegativeCount { count: h.num_indices })
            } else if h.num_sub_meshes < 0 {
                Err(XacError::NegativeCount { count: h.num_sub_meshes })
            } else if h.num_vertex_element < 0 {
                Err(XacError::NegativeCount { count: h.num_vertex_element })
            } else if !(0 <= h.node_id && (h.node_id as int) < actor.nodes.len()) {
                Err(XacError::NodeNotFound { node_id: h.node_id })
            } else {
                let node = actor.nodes[h.node_id as int];
                match sp_vertex_element_run(
                    s,
                    p1,
                    h.num_vertices as int,
                    empty_attribs(),
                    h.num_vertex_element as int,
                ) {
                    Err(e) => Err(e),
                    Ok((a, p2)) => {
                        let st0 = SubMeshRunState {
                            subs: Seq::empty(),
                            influence_records: Seq::empty(),
                            offset: 0,
                        };
                        match sp_submesh_run(
                            s,
                            p2,
                            a,
                            node.name,
                            h.node_id,
                            h.num_vertices,
                            st0,
                            h.num_sub_meshes as int,
                        ) {
                            Err(e) => Err(e),
                            Ok((st, p3)) => {
                                if st.offset != h.num_vertices as int {
                                    Err(
                                        XacError::VertexCountMismatch {
                                            declared: h.num_vertices,
                                            offset: st.offset as usize,
                                        },
                                    )
                                } else {
                                    let mesh = MeshView { sub_meshes: st.subs };
                                    let occupied = if h.is_collision_mesh {
                                        node.collision_mesh is Some
                                    } else {
                                        node.visual_mesh is Some
                                    };
                                    if occupied {
                                        Err(
                                            XacError::DuplicateMesh {
                                                node_id: h.node_id,
                                                collision: h.is_collision_mesh,
                                            },
                                        )
                                    } else {
                                        let node2 = if h.is_collision_mesh {
                                            NodeView { collision_mesh: Some(mesh), ..node }
                                        } else {
                                            NodeView { visual_mesh: Some(mesh), ..node }
                                        };
                                        Ok((
                                            ActorView {
                                                nodes: actor.nodes.update(h.node_id as int, node2),
                                                sub_mesh_influence_range_indices: actor
                                                    .sub_mesh_influence_range_indices
                                                    + st.influence_records,
                                                mesh_num_influence_range: actor
                                                    .mesh_num_influence_range
                                                    .push(
                                                    XacInfluenceRange {
                                                        node_id: h.node_id as usize,
                                                        num: h.num_influence_ranges,
                                                    },
                                                ),
                                                ..actor
                                            },
                                            p3,
                                        ))
                                    }
                                }
                            },
                        }
                    },
                }
            }
        },
    }
}

// ---------------------------------------------------------------------------
// Chunk dispatch
// ---------------------------------------------------------------------------

/// Route one chunk payload to its reader. Unknown and intentionally
/// undecoded types leave the actor unchanged; the dispatcher skips them
/// by the declared length alone.
pub open spec fn sp_dispatch(s: Seq<u8>, pos: int, type_id: i32, actor: ActorView) -> Result<
    ActorView,
    XacError,
> {
    if type_id == CHUNK_ID_MESH {
        match sp_mesh_chunk(s, pos, actor) {
            Err(e) => Err(e),
            Ok((a, _p)) => Ok(a),
        }
    } else if type_id == CHUNK_ID_MATERIAL_DEFINITION {
        match sp_material_definition(s, pos, actor) {
            Err(e) => Err(e),
            Ok((a, _p)) => Ok(a),
        }
    } else if type_id == CHUNK_ID_SHADER_MATERIAL {
        match sp_shader_material(s, pos, actor) {
            Err(e) => Err(e),
            Ok((a, _p)) => Ok(a),
        }
    } else if type_id == CHUNK_ID_METADATA {
        match sp_metadata(s, pos, actor) {
            Err(e) => Err(e),
            Ok((a, _p)) => Ok(a),
        }
    } else if type_id == CHUNK_ID_NODE_HIERARCHY {
        match sp_node_hierarchy(s, pos, actor) {
            Err(e) => Err(e),
            Ok((a, _p)) => Ok(a),
        }
    } else if type_id == CHUNK_ID_MATERIAL_TOTALS {
        match sp_material_totals(s, pos, actor) {
            Err(e) => Err(e),
            Ok((a, _p)) => Ok(a),
        }
    } else {
        Ok(actor)
    }
}

/// Where the cursor stands after a chunk of declared `length`: exactly
/// `length` bytes past the payload start, clamped to the end of the
/// stream. A negative length seeks past the end, which ends the loop.
pub open spec fn sp_next_chunk_pos(s: Seq<u8>, payload_start: int, length: i32) -> int {
    if length < 0 {
        s.len() as int
    } else if payload_start + (length as int) > s.len() {
        s.len() as int
    } else {
        payload_start + length
    }
}

/// The chunk loop: while bytes remain, read a chunk header, dispatch,
/// and reposition to `payload_start + length` regardless of what the
/// chunk reader consumed.
pub open spec fn sp_chunks(s: Seq<u8>, pos: int, actor: ActorView) -> Result<ActorView, XacError>
    decreases s.len() - pos,
{
    if pos >= s.len() {
        Ok(actor)
    } else {
        match sp_chunk_header(s, pos) {
            Err(e) => Err(e),
            Ok((h, p1)) => match sp_dispatch(s, p1, h.type_id, actor) {
                Err(e) => Err(e),
                Ok(a2) => sp_chunks(s, sp_next_chunk_pos(s, p1, h.length), a2),
            },
        }
    }
}

/// The whole container: header, then the chunk loop over an initially
/// empty actor.
pub open spec fn sp_decode(s: Seq<u8>) -> Result<ActorView, XacError> {
    match sp_header(s, 0) {
        Err(e) => Err(e),
        Ok((h, p)) => sp_chunks(s, p, ActorView { header: h, ..crate::model::empty_actor() }),
    }
}

} // verus!
