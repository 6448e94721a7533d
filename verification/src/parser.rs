//! The container-level decoder: header reader, chunk dispatcher, and
//! the public decode entry point.

use vstd::prelude::*;

use crate::codec::Reader;
use crate::hierarchy::read_node_hierarchy;
use crate::materials::{read_material_definition, read_shader_material};
use crate::mesh::read_mesh;
use crate::model::{empty_actor, ActorView, XacActorFile, XacError, XacMaterialTotals};
use crate::spec_format::{
    magic_tag, sp_chunk_header, sp_chunks, sp_decode, sp_dispatch, sp_header, sp_material_totals,
    sp_metadata, sp_next_chunk_pos, ChunkHeaderView, CHUNK_ID_MATERIAL_DEFINITION,
    CHUNK_ID_MATERIAL_TOTALS, CHUNK_ID_MESH, CHUNK_ID_METADATA, CHUNK_ID_NODE_HIERARCHY,
    CHUNK_ID_SHADER_MATERIAL,
};

verus! {

/// The container header: the magic tag, the supported-version check,
/// the little-endian requirement, and the multiply-order byte.
pub fn read_header(r: &mut Reader, xac: &mut XacActorFile) -> (res: Result<(), XacError>)
    requires
        old(r).wf(),
    ensures
        final(r).wf(),
        final(r).data == old(r).data,
        (match res {
            Ok(_) => sp_header(old(r).bytes(), old(r).pos as int) == Ok::<_, XacError>((
                final(xac)@.header,
                final(r).pos as int,
            )) && final(xac)@ == (ActorView { header: final(xac)@.header, ..old(xac)@ }),
            Err(e) => sp_header(old(r).bytes(), old(r).pos as int) == Err::<
                (crate::model::XacHeaderView, int),
                XacError,
            >(e),
        }),
{
    let ghost s = old(r).bytes();
    let ghost pos0 = old(r).pos as int;
    if r.remaining() < 4 {
        return Err(XacError::ShortRead { offset: r.pos });
    }
    let b0 = r.data[r.pos];
    let b1 = r.data[r.pos + 1];
    let b2 = r.data[r.pos + 2];
    let b3 = r.data[r.pos + 3];
    proof {
        assert(s.subrange(pos0, pos0 + 4)[0] == b0);
        assert(s.subrange(pos0, pos0 + 4)[1] == b1);
        assert(s.subrange(pos0, pos0 + 4)[2] == b2);
        assert(s.subrange(pos0, pos0 + 4)[3] == b3);
    }
    if !(b0 == 0x58 && b1 == 0x41 && b2 == 0x43 && b3 == 0x20) {
        proof {
            assert(s.subrange(pos0, pos0 + 4) != magic_tag());
        }
        return Err(XacError::BadMagic);
    }
    proof {
        assert(s.subrange(pos0, pos0 + 4) =~= magic_tag());
    }
    let mut magic: Vec<u8> = Vec::new();
    magic.push(b0);
    magic.push(b1);
    magic.push(b2);
    magic.push(b3);
    proof {
        assert(magic@ =~= s.subrange(pos0, pos0 + 4));
    }
    r.pos = r.pos + 4;
    let major = match r.read_u8() {
        Ok(v) => v,
        Err(e) => {
            return Err(e);
        },
    };
    let minor = match r.read_u8() {
        Ok(v) => v,
        Err(e) => {
            return Err(e);
        },
    };
    if major != 1 || minor != 0 {
        return Err(XacError::UnsupportedVersion { major, minor });
    }
    let big_endian = match r.read_bool() {
        Ok(v) => v,
        Err(e) => {
            return Err(e);
        },
    };
    if big_endian {
        return Err(XacError::BigEndian);
    }
    let multiply_order = match r.read_u8() {
        Ok(v) => v,
        Err(e) => {
            return Err(e);
        },
    };
    xac.header.magic = magic;
    xac.header.major_version = major;
    xac.header.minor_version = minor;
    xac.header.big_endian = big_endian;
    xac.header.multiply_order = multiply_order;
    Ok(())
}

/// The metadata chunk: scalar settings and the four descriptive strings.
pub fn read_metadata(r: &mut Reader, xac: &mut XacActorFile) -> (res: Result<(), XacError>)
    requires
        old(r).wf(),
    ensures
        final(r).wf(),
        final(r).data == old(r).data,
        (match res {
            Ok(_) => sp_metadata(old(r).bytes(), old(r).pos as int, old(xac)@) == Ok::<
                (ActorView, int),
                XacError,
            >((final(xac)@, final(r).pos as int)),
            Err(e) => sp_metadata(old(r).bytes(), old(r).pos as int, old(xac)@) == Err::<
                (ActorView, int),
                XacError,
            >(e),
        }),
{
    proof {
        reveal(sp_metadata);
    }
    let reposition_mask = match r.read_u32() {
        Ok(v) => v,
        Err(e) => {
            return Err(e);
        },
    };
    let repositioning_node = match r.read_i32() {
        Ok(v) => v,
        Err(e) => {
            return Err(e);
        },
    };
    let exporter_major = match r.read_u8() {
        Ok(v) => v,
        Err(e) => {
            return Err(e);
        },
    };
    let exporter_minor = match r.read_u8() {
        Ok(v) => v,
        Err(e) => {
            return Err(e);
        },
    };
    match r.skip(2) {
        Ok(_) => {},
        Err(e) => {
            return Err(e);
        },
    };
    let retarget_root_offset = match r.read_u32() {
        Ok(v) => v,
        Err(e) => {
            return Err(e);
        },
    };
    let source_app = match r.read_string() {
        Ok(v) => v,
        Err(e) => {
            return Err(e);
        },
    };
    let original_filename = match r.read_string() {
        Ok(v) => v,
        Err(e) => {
            return Err(e);
        },
    };
    let export_date = match r.read_string() {
        Ok(v) => v,
        Err(e) => {
            return Err(e);
        },
    };
    let actor_name = match r.read_string() {
        Ok(v) => v,
        Err(e) => {
            return Err(e);
        },
    };
    xac.metadata.reposition_mask = reposition_mask;
    xac.metadata.repositioning_node = repositioning_node;
    xac.metadata.exporter_major_version = exporter_major;
    xac.metadata.exporter_minor_version = exporter_minor;
    xac.metadata.retarget_root_offset = retarget_root_offset;
    xac.source_app = source_app;
    xac.original_filename = original_filename;
    xac.export_date = export_date;
    xac.actor_name = actor_name;
    Ok(())
}

/// The material-totals chunk: three declared counts; the standard
/// count must be positive and the total must be standard + fx.
pub fn read_material_total(r: &mut Reader, xac: &mut XacActorFile) -> (res: Result<(), XacError>)
    requires
        old(r).wf(),
    ensures
        final(r).wf(),
        final(r).data == old(r).data,
        (match res {
            Ok(_) => sp_material_totals(old(r).bytes(), old(r).pos as int, old(xac)@) == Ok::<
                (ActorView, int),
                XacError,
            >((final(xac)@, final(r).pos as int)),
            Err(e) => sp_material_totals(old(r).bytes(), old(r).pos as int, old(xac)@) == Err::<
                (ActorView, int),
                XacError,
            >(e),
        }),
{
    proof {
        reveal(sp_material_totals);
    }
    let total = match r.read_i32() {
        Ok(v) => v,
        Err(e) => {
            return Err(e);
        },
    };
    let standard = match r.read_i32() {
        Ok(v) => v,
        Err(e) => {
            return Err(e);
        },
    };
    let fx = match r.read_i32() {
        Ok(v) => v,
        Err(e) => {
            return Err(e);
        },
    };
    if standard <= 0 {
        return Err(XacError::InvalidStandardMaterialCount { count: standard });
    }
    if (total as i64) != (standard as i64) + (fx as i64) {
        return Err(XacError::MaterialTotalMismatch { total, standard, fx });
    }
    xac.material_total = XacMaterialTotals {
        num_total_materials: total,
        num_standard_materials: standard,
        num_fx_materials: fx,
    };
    Ok(())
}

/// Routes one chunk payload to its reader by type ID. Unknown and
/// intentionally undecoded types (skinning, morph targets) leave the
/// actor untouched.
fn dispatch_chunk(r: &mut Reader, xac: &mut XacActorFile, type_id: i32) -> (res: Result<
    (),
    XacError,
>)
    requires
        old(r).wf(),
    ensures
        final(r).wf(),
        final(r).data == old(r).data,
        (match res {
            Ok(_) => sp_dispatch(old(r).bytes(), old(r).pos as int, type_id, old(xac)@) == Ok::<
                ActorView,
                XacError,
            >(final(xac)@),
            Err(e) => sp_dispatch(old(r).bytes(), old(r).pos as int, type_id, old(xac)@) == Err::<
                ActorView,
                XacError,
            >(e),
        }),
{
    if type_id == CHUNK_ID_MESH {
        match read_mesh(r, xac) {
            Ok(_) => {},
            Err(e) => {
                return Err(e);
            },
        };
    } else if type_id == CHUNK_ID_MATERIAL_DEFINITION {
        match read_material_definition(r, xac) {
            Ok(_) => {},
            Err(e) => {
                return Err(e);
            },
        };
    } else if type_id == CHUNK_ID_SHADER_MATERIAL {
        match read_shader_material(r, xac) {
            Ok(_) => {},
            Err(e) => {
                return Err(e);
            },
        };
    } else if type_id == CHUNK_ID_METADATA {
        match read_metadata(r, xac) {
            Ok(_) => {},
            Err(e) => {
                return Err(e);
            },
        };
    } else if type_id == CHUNK_ID_NODE_HIERARCHY {
        match read_node_hierarchy(r, xac) {
            Ok(_) => {},
            Err(e) => {
                return Err(e);
            },
        };
    } else if type_id == CHUNK_ID_MATERIAL_TOTALS {
        match read_material_total(r, xac) {
            Ok(_) => {},
            Err(e) => {
                return Err(e);
            },
        };
    }
    Ok(())
}

/// The chunk-dispatch loop: while bytes remain, read a 12-byte chunk
/// header, route the payload to the matching reader (unknown and
/// intentionally undecoded types are skipped without error), then
/// reposition the cursor to `payload_start + length` regardless of
/// what the reader consumed — the declared length is the sole source
/// of truth for chunk boundaries.
#[verifier::loop_isolation(false)]
#[verifier::rlimit(100)]
pub fn read_chunk(r: &mut Reader, xac: &mut XacActorFile) -> (res: Result<(), XacError>)
    requires
        old(r).wf(),
    ensures
        final(r).wf(),
        final(r).data == old(r).data,
        (match res {
            Ok(_) => sp_chunks(old(r).bytes(), old(r).pos as int, old(xac)@) == Ok::<
                ActorView,
                XacError,
            >(final(xac)@),
            Err(e) => sp_chunks(old(r).bytes(), old(r).pos as int, old(xac)@) == Err::<
                ActorView,
                XacError,
            >(e),
        }),
{
    let ghost s = old(r).bytes();
    while r.pos < r.data.len()
        invariant
            r.wf(),
            r.bytes() == s,
            r.data == old(r).data,
            sp_chunks(s, old(r).pos as int, old(xac)@) == sp_chunks(s, r.pos as int, xac@),
        decreases s.len() - r.pos,
    {
        let ghost p_it = r.pos as int;
        let ghost a_it = xac@;
        let type_id = match r.read_i32() {
            Ok(v) => v,
            Err(e) => {
                return Err(e);
            },
        };
        let length = match r.read_i32() {
            Ok(v) => v,
            Err(e) => {
                return Err(e);
            },
        };
        let version = match r.read_i32() {
            Ok(v) => v,
            Err(e) => {
                return Err(e);
            },
        };
        let ghost hdr = ChunkHeaderView { type_id, length, version };
        proof {
            assert(sp_chunk_header(s, p_it) == Ok::<(ChunkHeaderView, int), XacError>((
                hdr,
                r.pos as int,
            )));
        }
        let payload_start = r.pos;
        match dispatch_chunk(r, xac, type_id) {
            Ok(_) => {},
            Err(e) => {
                return Err(e);
            },
        };
        if length < 0 {
            r.pos = r.data.len();
        } else if (length as u64) > ((r.data.len() - payload_start) as u64) {
            r.pos = r.data.len();
        } else {
            r.pos = payload_start + (length as usize);
        }
        proof {
            assert(r.pos as int == sp_next_chunk_pos(s, payload_start as int, length));
            assert(sp_chunks(s, p_it, a_it) == sp_chunks(s, r.pos as int, xac@));
        }
    }
    Ok(())
}

/// Decodes one whole container from its bytes: the header, then every
/// chunk, into a fresh actor aggregate. Decoding is all-or-nothing:
/// the first violation aborts with its error and no partial result.
pub fn xacparse(data: &[u8]) -> (res: Result<XacActorFile, XacError>)
    ensures
        (match res {
            Ok(actor) => sp_decode(data@) == Ok::<ActorView, XacError>(actor@),
            Err(e) => sp_decode(data@) == Err::<ActorView, XacError>(e),
        }),
{
    let mut r = Reader::new(data);
    let mut xac = XacActorFile::empty();
    match read_header(&mut r, &mut xac) {
        Ok(_) => {},
        Err(e) => {
            return Err(e);
        },
    };
    proof {
        assert(xac@ == (ActorView { header: xac@.header, ..empty_actor() }));
    }
    match read_chunk(&mut r, &mut xac) {
        Ok(_) => {},
        Err(e) => {
            return Err(e);
        },
    };
    Ok(xac)
}

} // verus!
