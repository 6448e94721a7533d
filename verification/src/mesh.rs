//! The mesh/submesh decoder: reassembles the parallel vertex attribute
//! streams of a mesh chunk and re-slices them per submesh using the
//! running vertex offset.

use vstd::prelude::*;
use vstd::std_specs::vec::vec_index_mut;

use crate::codec::{copy_bytes, subvec, Reader};
use crate::model::{
    ActorView, Color8, NodeView, SubMeshInfluenceRangeView, SubMeshView, Vec2, Vec3, Vec4,
    XacActorFile, XacActorMesh, XacActorNode, XacActorSubMesh, XacError, XacInfluenceRange,
    XacSubMeshInfluenceRange,
};
use crate::spec_format::{
    attribs_wf, empty_attribs, sp_color8_run, sp_i32_run, sp_mesh_chunk, sp_mesh_header,
    sp_slice_if, sp_submesh, sp_submesh_run, sp_vec2_run, sp_vec3_run, sp_vec4_run,
    sp_vertex_element, sp_vertex_element_run, AttribState, MeshHeaderRec, SubMeshParse,
    SubMeshRunState, USAGE_COLOR128, USAGE_COLOR32, USAGE_INFLUENCE_RANGE, USAGE_NORMAL,
    USAGE_POSITION, USAGE_TANGENT, USAGE_UV,
};

verus! {

/// Reads `n` three-component vectors onto the end of `acc`.
#[verifier::loop_isolation(false)]
fn read_vec3_into(r: &mut Reader, acc: &mut Vec<Vec3>, n: usize) -> (res: Result<(), XacError>)
    requires
        old(r).wf(),
    ensures
        final(r).wf(),
        final(r).data == old(r).data,
        (match res {
            Ok(_) => sp_vec3_run(old(r).bytes(), old(r).pos as int, old(acc)@, n as int) == Ok::<
                (Seq<Vec3>, int),
                XacError,
            >((final(acc)@, final(r).pos as int)) && final(acc)@.len() == old(acc)@.len() + n,
            Err(e) => sp_vec3_run(old(r).bytes(), old(r).pos as int, old(acc)@, n as int) == Err::<
                (Seq<Vec3>, int),
                XacError,
            >(e),
        }),
{
    let mut i: usize = 0;
    while i < n
        invariant
            i <= n,
            r.wf(),
            r.bytes() == old(r).bytes(),
            r.data == old(r).data,
            acc@.len() == old(acc)@.len() + i,
            sp_vec3_run(old(r).bytes(), old(r).pos as int, old(acc)@, n as int) == sp_vec3_run(
                old(r).bytes(),
                r.pos as int,
                acc@,
                n - i,
            ),
        decreases n - i,
    {
        let v = match r.read_vec3() {
            Ok(v) => v,
            Err(e) => {
                return Err(e);
            },
        };
        acc.push(v);
        i = i + 1;
    }
    Ok(())
}

/// Reads `n` four-component vectors onto the end of `acc`.
#[verifier::loop_isolation(false)]
fn read_vec4_into(r: &mut Reader, acc: &mut Vec<Vec4>, n: usize) -> (res: Result<(), XacError>)
    requires
        old(r).wf(),
    ensures
        final(r).wf(),
        final(r).data == old(r).data,
        (match res {
            Ok(_) => sp_vec4_run(old(r).bytes(), old(r).pos as int, old(acc)@, n as int) == Ok::<
                (Seq<Vec4>, int),
                XacError,
            >((final(acc)@, final(r).pos as int)) && final(acc)@.len() == old(acc)@.len() + n,
            Err(e) => sp_vec4_run(old(r).bytes(), old(r).pos as int, old(acc)@, n as int) == Err::<
                (Seq<Vec4>, int),
                XacError,
            >(e),
        }),
{
    let mut i: usize = 0;
    while i < n
        invariant
            i <= n,
            r.wf(),
            r.bytes() == old(r).bytes(),
            r.data == old(r).data,
            acc@.len() == old(acc)@.len() + i,
            sp_vec4_run(old(r).bytes(), old(r).pos as int, old(acc)@, n as int) == sp_vec4_run(
                old(r).bytes(),
                r.pos as int,
                acc@,
                n - i,
            ),
        decreases n - i,
    {
        let v = match r.read_vec4() {
            Ok(v) => v,
            Err(e) => {
                return Err(e);
            },
        };
        acc.push(v);
        i = i + 1;
    }
    Ok(())
}

/// Reads `n` two-component vectors onto the end of `acc`.
#[verifier::loop_isolation(false)]
fn read_vec2_into(r: &mut Reader, acc: &mut Vec<Vec2>, n: usize) -> (res: Result<(), XacError>)
    requires
        old(r).wf(),
    ensures
        final(r).wf(),
        final(r).data == old(r).data,
        (match res {
            Ok(_) => sp_vec2_run(old(r).bytes(), old(r).pos as int, old(acc)@, n as int) == Ok::<
                (Seq<Vec2>, int),
                XacError,
            >((final(acc)@, final(r).pos as int)) && final(acc)@.len() == old(acc)@.len() + n,
            Err(e) => sp_vec2_run(old(r).bytes(), old(r).pos as int, old(acc)@, n as int) == Err::<
                (Seq<Vec2>, int),
                XacError,
            >(e),
        }),
{
    let mut i: usize = 0;
    while i < n
        invariant
            i <= n,
            r.wf(),
            r.bytes() == old(r).bytes(),
            r.data == old(r).data,
            acc@.len() == old(acc)@.len() + i,
            sp_vec2_run(old(r).bytes(), old(r).pos as int, old(acc)@, n as int) == sp_vec2_run(
                old(r).bytes(),
                r.pos as int,
                acc@,
                n - i,
            ),
        decreases n - i,
    {
        let v = match r.read_vec2() {
            Ok(v) => v,
            Err(e) => {
                return Err(e);
            },
        };
        acc.push(v);
        i = i + 1;
    }
    Ok(())
}

/// Reads `n` color triples onto the end of `acc`.
#[verifier::loop_isolation(false)]
fn read_color8_into(r: &mut Reader, acc: &mut Vec<Color8>, n: usize) -> (res: Result<(), XacError>)
    requires
        old(r).wf(),
    ensures
        final(r).wf(),
        final(r).data == old(r).data,
        (match res {
            Ok(_) => sp_color8_run(old(r).bytes(), old(r).pos as int, old(acc)@, n as int) == Ok::<
                (Seq<Color8>, int),
                XacError,
            >((final(acc)@, final(r).pos as int)) && final(acc)@.len() == old(acc)@.len() + n,
            Err(e) => sp_color8_run(old(r).bytes(), old(r).pos as int, old(acc)@, n as int) == Err::<
                (Seq<Color8>, int),
                XacError,
            >(e),
        }),
{
    let mut i: usize = 0;
    while i < n
        invariant
            i <= n,
            r.wf(),
            r.bytes() == old(r).bytes(),
            r.data == old(r).data,
            acc@.len() == old(acc)@.len() + i,
            sp_color8_run(old(r).bytes(), old(r).pos as int, old(acc)@, n as int) == sp_color8_run(
                old(r).bytes(),
                r.pos as int,
                acc@,
                n - i,
            ),
        decreases n - i,
    {
        let v = match r.read_color8() {
            Ok(v) => v,
            Err(e) => {
                return Err(e);
            },
        };
        acc.push(v);
        i = i + 1;
    }
    Ok(())
}

/// Reads `n` signed 32-bit integers onto the end of `acc`.
#[verifier::loop_isolation(false)]
fn read_i32_into(r: &mut Reader, acc: &mut Vec<i32>, n: usize) -> (res: Result<(), XacError>)
    requires
        old(r).wf(),
    ensures
        final(r).wf(),
        final(r).data == old(r).data,
        (match res {
            Ok(_) => sp_i32_run(old(r).bytes(), old(r).pos as int, old(acc)@, n as int) == Ok::<
                (Seq<i32>, int),
                XacError,
            >((final(acc)@, final(r).pos as int)) && final(acc)@.len() == old(acc)@.len() + n,
            Err(e) => sp_i32_run(old(r).bytes(), old(r).pos as int, old(acc)@, n as int) == Err::<
                (Seq<i32>, int),
                XacError,
            >(e),
        }),
{
    let mut i: usize = 0;
    while i < n
        invariant
            i <= n,
            r.wf(),
            r.bytes() == old(r).bytes(),
            r.data == old(r).data,
            acc@.len() == old(acc)@.len() + i,
            sp_i32_run(old(r).bytes(), old(r).pos as int, old(acc)@, n as int) == sp_i32_run(
                old(r).bytes(),
                r.pos as int,
                acc@,
                n - i,
            ),
        decreases n - i,
    {
        let v = match r.read_i32() {
            Ok(v) => v,
            Err(e) => {
                return Err(e);
            },
        };
        acc.push(v);
        i = i + 1;
    }
    Ok(())
}

/// The parallel vertex attribute arrays of one mesh chunk, while they
/// are being read.
pub(crate) struct AttribVecs {
    pub(crate) positions: Vec<Vec3>,
    pub(crate) normals: Vec<Vec3>,
    pub(crate) tangents: Vec<Vec4>,
    pub(crate) bi_tangents: Vec<Vec4>,
    pub(crate) uv_set: Vec<Vec<Vec2>>,
    pub(crate) colors_32: Vec<Vec<Color8>>,
    pub(crate) colors_128: Vec<Vec<Vec3>>,
    pub(crate) influence_range_indices: Vec<i32>,
}

impl View for AttribVecs {
    type V = AttribState;

    closed spec fn view(&self) -> AttribState {
        AttribState {
            positions: self.positions@,
            normals: self.normals@,
            tangents: self.tangents@,
            bi_tangents: self.bi_tangents@,
            uv_set: self.uv_set@.map_values(|c: Vec<Vec2>| c@),
            colors_32: self.colors_32@.map_values(|c: Vec<Color8>| c@),
            colors_128: self.colors_128@.map_values(|c: Vec<Vec3>| c@),
            influence_range_indices: self.influence_range_indices@,
        }
    }
}

/// Reads the vertex element streams of one mesh chunk: each element is
/// an 8-byte header and, for known usage codes, `total` entries routed
/// into the matching attribute array.
#[verifier::loop_isolation(false)]
#[verifier::rlimit(100)]
fn read_vertex_elements(r: &mut Reader, a: &mut AttribVecs, total: usize, ne: usize) -> (res: Result<
    (),
    XacError,
>)
    requires
        old(r).wf(),
        attribs_wf(old(a)@, total as int),
    ensures
        final(r).wf(),
        final(r).data == old(r).data,
        (match res {
            Ok(_) => sp_vertex_element_run(
                old(r).bytes(),
                old(r).pos as int,
                total as int,
                old(a)@,
                ne as int,
            ) == Ok::<(AttribState, int), XacError>((final(a)@, final(r).pos as int))
                && attribs_wf(final(a)@, total as int),
            Err(e) => sp_vertex_element_run(
                old(r).bytes(),
                old(r).pos as int,
                total as int,
                old(a)@,
                ne as int,
            ) == Err::<(AttribState, int), XacError>(e),
        }),
{
    let ghost s = old(r).bytes();
    let mut i: usize = 0;
    while i < ne
        invariant
            i <= ne,
            r.wf(),
            r.bytes() == s,
            r.data == old(r).data,
            attribs_wf(a@, total as int),
            sp_vertex_element_run(s, old(r).pos as int, total as int, old(a)@, ne as int)
                == sp_vertex_element_run(s, r.pos as int, total as int, a@, ne - i),
        decreases ne - i,
    {
        let ghost p_it = r.pos as int;
        let ghost att_it = a@;
        let usage = match r.read_u32() {
            Ok(v) => v,
            Err(e) => {
                return Err(e);
            },
        };
        match r.skip(8) {
            Ok(_) => {},
            Err(e) => {
                return Err(e);
            },
        };
        if usage == USAGE_POSITION {
            match read_vec3_into(r, &mut a.positions, total) {
                Ok(_) => {},
                Err(e) => {
                    return Err(e);
                },
            };
        } else if usage == USAGE_NORMAL {
            match read_vec3_into(r, &mut a.normals, total) {
                Ok(_) => {},
                Err(e) => {
                    return Err(e);
                },
            };
        } else if usage == USAGE_TANGENT {
            if a.tangents.is_empty() {
                proof {
                    assert(a.tangents@ =~= Seq::<Vec4>::empty());
                }
                match read_vec4_into(r, &mut a.tangents, total) {
                    Ok(_) => {},
                    Err(e) => {
                        return Err(e);
                    },
                };
            } else if a.bi_tangents.is_empty() {
                proof {
                    assert(a.bi_tangents@ =~= Seq::<Vec4>::empty());
                }
                match read_vec4_into(r, &mut a.bi_tangents, total) {
                    Ok(_) => {},
                    Err(e) => {
                        return Err(e);
                    },
                };
            }
        } else if usage == USAGE_UV {
            let mut channel: Vec<Vec2> = Vec::new();
            match read_vec2_into(r, &mut channel, total) {
                Ok(_) => {},
                Err(e) => {
                    return Err(e);
                },
            };
            a.uv_set.push(channel);
            proof {
                assert(a.uv_set@.map_values(|c: Vec<Vec2>| c@) =~= att_it.uv_set.push(
                    a.uv_set@[a.uv_set@.len() - 1]@,
                ));
            }
        } else if usage == USAGE_COLOR32 {
            let mut channel: Vec<Color8> = Vec::new();
            match read_color8_into(r, &mut channel, total) {
                Ok(_) => {},
                Err(e) => {
                    return Err(e);
                },
            };
            a.colors_32.push(channel);
            proof {
                assert(a.colors_32@.map_values(|c: Vec<Color8>| c@) =~= att_it.colors_32.push(
                    a.colors_32@[a.colors_32@.len() - 1]@,
                ));
            }
        } else if usage == USAGE_INFLUENCE_RANGE {
            match read_i32_into(r, &mut a.influence_range_indices, total) {
                Ok(_) => {},
                Err(e) => {
                    return Err(e);
                },
            };
        } else if usage == USAGE_COLOR128 {
            let mut channel: Vec<Vec3> = Vec::new();
            match read_vec3_into(r, &mut channel, total) {
                Ok(_) => {},
                Err(e) => {
                    return Err(e);
                },
            };
            a.colors_128.push(channel);
            proof {
                assert(a.colors_128@.map_values(|c: Vec<Vec3>| c@) =~= att_it.colors_128.push(
                    a.colors_128@[a.colors_128@.len() - 1]@,
                ));
            }
        }
        proof {
            assert(sp_vertex_element(s, p_it, total as int, att_it) == Ok::<
                (AttribState, int),
                XacError,
            >((a@, r.pos as int)));
        }
        i = i + 1;
    }
    Ok(())
}

/// Reads the submeshes of one mesh chunk: each submesh slices every
/// present attribute array over its own vertex range and then reads
/// its raw index stream. Returns the final running vertex offset.
#[verifier::loop_isolation(false)]
#[verifier::rlimit(100)]
fn read_submeshes(
    r: &mut Reader,
    a: &AttribVecs,
    node_name: &Vec<u8>,
    node_id: i32,
    num_vertices: i32,
    nsub: usize,
    sub_meshes: &mut Vec<XacActorSubMesh>,
    records: &mut Vec<XacSubMeshInfluenceRange>,
) -> (res: Result<usize, XacError>)
    requires
        old(r).wf(),
        attribs_wf(a@, num_vertices as int),
        num_vertices >= 0,
        node_id >= 0,
        old(sub_meshes)@.len() == 0,
        old(records)@.len() == 0,
    ensures
        final(r).wf(),
        final(r).data == old(r).data,
        (match res {
            Ok(voff) => sp_submesh_run(
                old(r).bytes(),
                old(r).pos as int,
                a@,
                node_name@,
                node_id,
                num_vertices,
                SubMeshRunState {
                    subs: Seq::empty(),
                    influence_records: Seq::empty(),
                    offset: 0,
                },
                nsub as int,
            ) == Ok::<(SubMeshRunState, int), XacError>((
                SubMeshRunState {
                    subs: final(sub_meshes)@.map_values(|m: XacActorSubMesh| m@),
                    influence_records: final(records)@.map_values(
                        |q: XacSubMeshInfluenceRange| q@,
                    ),
                    offset: voff as int,
                },
                final(r).pos as int,
            )) && voff <= num_vertices,
            Err(e) => sp_submesh_run(
                old(r).bytes(),
                old(r).pos as int,
                a@,
                node_name@,
                node_id,
                num_vertices,
                SubMeshRunState {
                    subs: Seq::empty(),
                    influence_records: Seq::empty(),
                    offset: 0,
                },
                nsub as int,
            ) == Err::<(SubMeshRunState, int), XacError>(e),
        }),
{
    let ghost s = old(r).bytes();
    let ghost st0 = SubMeshRunState {
        subs: Seq::empty(),
        influence_records: Seq::empty(),
        offset: 0,
    };
    let total: usize = num_vertices as usize;
    let mut voff: usize = 0;
    let mut si: usize = 0;
    proof {
        assert(sub_meshes@.map_values(|m: XacActorSubMesh| m@) =~= Seq::<SubMeshView>::empty());
        assert(records@.map_values(|q: XacSubMeshInfluenceRange| q@) =~= Seq::<
            SubMeshInfluenceRangeView,
        >::empty());
    }
    while si < nsub
        invariant
            si <= nsub,
            r.wf(),
            r.bytes() == s,
            r.data == old(r).data,
            voff <= total,
            sp_submesh_run(s, old(r).pos as int, a@, node_name@, node_id, num_vertices, st0, nsub as int)
                == sp_submesh_run(
                s,
                r.pos as int,
                a@,
                node_name@,
                node_id,
                num_vertices,
                SubMeshRunState {
                    subs: sub_meshes@.map_values(|m: XacActorSubMesh| m@),
                    influence_records: records@.map_values(|q: XacSubMeshInfluenceRange| q@),
                    offset: voff as int,
                },
                nsub - si,
            ),
        decreases nsub - si,
    {
        let ghost p_it = r.pos as int;
        let ghost st_it = SubMeshRunState {
            subs: sub_meshes@.map_values(|m: XacActorSubMesh| m@),
            influence_records: records@.map_values(|q: XacSubMeshInfluenceRange| q@),
            offset: voff as int,
        };
        let sm_num_indices = match r.read_i32() {
            Ok(v) => v,
            Err(e) => {
                return Err(e);
            },
        };
        let sm_num_vertices = match r.read_i32() {
            Ok(v) => v,
            Err(e) => {
                return Err(e);
            },
        };
        let sm_material_id = match r.read_i32() {
            Ok(v) => v,
            Err(e) => {
                return Err(e);
            },
        };
        let sm_num_bones = match r.read_i32() {
            Ok(v) => v,
            Err(e) => {
                return Err(e);
            },
        };
        if sm_num_indices < 0 {
            return Err(XacError::NegativeCount { count: sm_num_indices });
        }
        if sm_num_vertices < 0 {
            return Err(XacError::NegativeCount { count: sm_num_vertices });
        }
        if sm_num_bones < 0 {
            return Err(XacError::NegativeCount { count: sm_num_bones });
        }
        if (voff as u64) + (sm_num_vertices as u64) > (num_vertices as u64) {
            return Err(XacError::VertexCountMismatch { declared: num_vertices, offset: voff });
        }
        let nv: usize = sm_num_vertices as usize;
        let end: usize = voff + nv;
        let mut sm_indices: Vec<i32> = Vec::new();
        match read_i32_into(r, &mut sm_indices, sm_num_indices as usize) {
            Ok(_) => {},
            Err(e) => {
                return Err(e);
            },
        };
        match r.skip((sm_num_bones as u64) * 4) {
            Ok(_) => {},
            Err(e) => {
                return Err(e);
            },
        };
        let sub_positions = if a.positions.len() > 0 {
            subvec(&a.positions, voff, end)
        } else {
            Vec::new()
        };
        let sub_normals = if a.normals.len() > 0 {
            subvec(&a.normals, voff, end)
        } else {
            Vec::new()
        };
        let sub_tangents = if a.tangents.len() > 0 {
            subvec(&a.tangents, voff, end)
        } else {
            Vec::new()
        };
        let sub_bi_tangents = if a.bi_tangents.len() > 0 {
            subvec(&a.bi_tangents, voff, end)
        } else {
            Vec::new()
        };
        let sub_influence = if a.influence_range_indices.len() > 0 {
            subvec(&a.influence_range_indices, voff, end)
        } else {
            Vec::new()
        };
        proof {
            assert(sub_positions@ =~= sp_slice_if(a@.positions, voff as int, nv as int));
            assert(sub_normals@ =~= sp_slice_if(a@.normals, voff as int, nv as int));
            assert(sub_tangents@ =~= sp_slice_if(a@.tangents, voff as int, nv as int));
            assert(sub_bi_tangents@ =~= sp_slice_if(a@.bi_tangents, voff as int, nv as int));
            assert(sub_influence@ =~= sp_slice_if(
                a@.influence_range_indices,
                voff as int,
                nv as int,
            ));
        }
        let mut sub_uvs: Vec<Vec<Vec2>> = Vec::new();
        let mut ci: usize = 0;
        while ci < a.uv_set.len()
            invariant
                ci <= a.uv_set@.len(),
                sub_uvs@.len() == ci,
                end <= total,
                forall|x: int|
                    0 <= x < ci ==> #[trigger] sub_uvs@[x]@ == a@.uv_set[x].subrange(
                        voff as int,
                        end as int,
                    ),
            decreases a.uv_set@.len() - ci,
        {
            proof {
                assert(a@.uv_set[ci as int].len() == num_vertices as int);
                assert(a@.uv_set[ci as int] == a.uv_set@[ci as int]@);
            }
            let channel = subvec(&a.uv_set[ci], voff, end);
            sub_uvs.push(channel);
            ci = ci + 1;
        }
        proof {
            assert(sub_uvs@.map_values(|c: Vec<Vec2>| c@) =~= a@.uv_set.map_values(
                |ch: Seq<Vec2>| ch.subrange(voff as int, voff + nv as int),
            ));
        }
        let mut sub_colors_32: Vec<Vec<Color8>> = Vec::new();
        let mut cj: usize = 0;
        while cj < a.colors_32.len()
            invariant
                cj <= a.colors_32@.len(),
                sub_colors_32@.len() == cj,
                end <= total,
                forall|x: int|
                    0 <= x < cj ==> #[trigger] sub_colors_32@[x]@ == a@.colors_32[x].subrange(
                        voff as int,
                        end as int,
                    ),
            decreases a.colors_32@.len() - cj,
        {
            proof {
                assert(a@.colors_32[cj as int].len() == num_vertices as int);
                assert(a@.colors_32[cj as int] == a.colors_32@[cj as int]@);
            }
            let channel = subvec(&a.colors_32[cj], voff, end);
            sub_colors_32.push(channel);
            cj = cj + 1;
        }
        proof {
            assert(sub_colors_32@.map_values(|c: Vec<Color8>| c@) =~= a@.colors_32.map_values(
                |ch: Seq<Color8>| ch.subrange(voff as int, voff + nv as int),
            ));
        }
        let mut sub_colors_128: Vec<Vec<Vec3>> = Vec::new();
        let mut ck: usize = 0;
        while ck < a.colors_128.len()
            invariant
                ck <= a.colors_128@.len(),
                sub_colors_128@.len() == ck,
                end <= total,
                forall|x: int|
                    0 <= x < ck ==> #[trigger] sub_colors_128@[x]@ == a@.colors_128[x].subrange(
                        voff as int,
                        end as int,
                    ),
            decreases a.colors_128@.len() - ck,
        {
            proof {
                assert(a@.colors_128[ck as int].len() == num_vertices as int);
                assert(a@.colors_128[ck as int] == a.colors_128@[ck as int]@);
            }
            let channel = subvec(&a.colors_128[ck], voff, end);
            sub_colors_128.push(channel);
            ck = ck + 1;
        }
        proof {
            assert(sub_colors_128@.map_values(|c: Vec<Vec3>| c@) =~= a@.colors_128.map_values(
                |ch: Seq<Vec3>| ch.subrange(voff as int, voff + nv as int),
            ));
        }
        let name_copy = copy_bytes(node_name);
        let sub_mesh = XacActorSubMesh {
            name: name_copy,
            material_id: sm_material_id,
            num_vertices: sm_num_vertices,
            num_indices: sm_num_indices,
            num_bones: sm_num_bones,
            vertex_positions: sub_positions,
            vertex_normals: sub_normals,
            vertex_tangents: sub_tangents,
            vertex_bi_tangents: sub_bi_tangents,
            vertex_uvs: sub_uvs,
            vertex_colors_32: sub_colors_32,
            vertex_colors_128: sub_colors_128,
            influence_range_indices: sub_influence,
            indices: sm_indices,
        };
        let ghost acc_records = records@.map_values(|q: XacSubMeshInfluenceRange| q@);
        if a.influence_range_indices.len() > 0 {
            let rec_indices = subvec(&a.influence_range_indices, voff, end);
            records.push(XacSubMeshInfluenceRange { node_id: node_id as usize, indices: rec_indices });
            proof {
                assert(records@.map_values(|q: XacSubMeshInfluenceRange| q@) =~= acc_records.push(
                    records@[records@.len() - 1]@,
                ));
            }
        }
        let ghost acc_subs = sub_meshes@.map_values(|m: XacActorSubMesh| m@);
        sub_meshes.push(sub_mesh);
        proof {
            assert(sub_meshes@.map_values(|m: XacActorSubMesh| m@) =~= acc_subs.push(
                sub_meshes@[sub_meshes@.len() - 1]@,
            ));
            let parse = SubMeshParse {
                sub_mesh: sub_meshes@[sub_meshes@.len() - 1]@,
                influence_record: if a@.influence_range_indices.len() > 0 {
                    Some(
                        SubMeshInfluenceRangeView {
                            node_id: node_id as usize,
                            indices: sp_slice_if(a@.influence_range_indices, voff as int, nv as int),
                        },
                    )
                } else {
                    None
                },
                new_offset: voff + nv as int,
            };
            assert(sp_submesh(s, p_it, a@, node_name@, node_id, num_vertices, voff as int) == Ok::<
                (SubMeshParse, int),
                XacError,
            >((parse, r.pos as int)));
        }
        voff = end;
        si = si + 1;
    }
    Ok(voff)
}

/// A mesh chunk: the header with its counts and collision flag, the
/// owning-node lookup in the flat node list, the vertex element
/// streams, the submeshes with their running vertex offset, and the
/// attachment of the finished mesh to the node's visual or collision
/// slot.
#[verifier::loop_isolation(false)]
#[verifier::rlimit(100)]
pub fn read_mesh(r: &mut Reader, xac: &mut XacActorFile) -> (res: Result<(), XacError>)
    requires
        old(r).wf(),
    ensures
        final(r).wf(),
        final(r).data == old(r).data,
        (match res {
            Ok(_) => sp_mesh_chunk(old(r).bytes(), old(r).pos as int, old(xac)@) == Ok::<
                (ActorView, int),
                XacError,
            >((final(xac)@, final(r).pos as int)),
            Err(e) => sp_mesh_chunk(old(r).bytes(), old(r).pos as int, old(xac)@) == Err::<
                (ActorView, int),
                XacError,
            >(e),
        }),
{
    proof {
        reveal(sp_mesh_chunk);
    }
    let ghost s = old(r).bytes();
    let node_id = match r.read_i32() {
        Ok(v) => v,
        Err(e) => {
            return Err(e);
        },
    };
    let num_influence_ranges = match r.read_i32() {
        Ok(v) => v,
        Err(e) => {
            return Err(e);
        },
    };
    let num_vertices = match r.read_i32() {
        Ok(v) => v,
        Err(e) => {
            return Err(e);
        },
    };
    let num_indices = match r.read_i32() {
        Ok(v) => v,
        Err(e) => {
            return Err(e);
        },
    };
    let num_sub_meshes = match r.read_i32() {
        Ok(v) => v,
        Err(e) => {
            return Err(e);
        },
    };
    let num_vertex_element = match r.read_i32() {
        Ok(v) => v,
        Err(e) => {
            return Err(e);
        },
    };
    let is_collision_mesh = match r.read_bool() {
        Ok(v) => v,
        Err(e) => {
            return Err(e);
        },
    };
    match r.skip(3) {
        Ok(_) => {},
        Err(e) => {
            return Err(e);
        },
    };
    let ghost hdr = MeshHeaderRec {
        node_id,
        num_influence_ranges,
        num_vertices,
        num_indices,
        num_sub_meshes,
        num_vertex_element,
        is_collision_mesh,
    };
    proof {
        assert(sp_mesh_header(s, old(r).pos as int) == Ok::<(MeshHeaderRec, int), XacError>((
            hdr,
            r.pos as int,
        )));
    }
    if num_influence_ranges < 0 {
        return Err(XacError::NegativeCount { count: num_influence_ranges });
    }
    if num_vertices < 0 {
        return Err(XacError::NegativeCount { count: num_vertices });
    }
    if num_indices < 0 {
        return Err(XacError::NegativeCount { count: num_indices });
    }
    if num_sub_meshes < 0 {
        return Err(XacError::NegativeCount { count: num_sub_meshes });
    }
    if num_vertex_element < 0 {
        return Err(XacError::NegativeCount { count: num_vertex_element });
    }
    if !(node_id >= 0 && (node_id as usize) < xac.nodes.len()) {
        return Err(XacError::NodeNotFound { node_id });
    }
    let nid: usize = node_id as usize;
    let ghost node_v = old(xac)@.nodes[nid as int];
    let node_name = copy_bytes(&xac.nodes[nid].name);
    proof {
        assert(node_name@ == node_v.name);
    }
    let total: usize = num_vertices as usize;
    let mut attribs = AttribVecs {
        positions: Vec::new(),
        normals: Vec::new(),
        tangents: Vec::new(),
        bi_tangents: Vec::new(),
        uv_set: Vec::new(),
        colors_32: Vec::new(),
        colors_128: Vec::new(),
        influence_range_indices: Vec::new(),
    };
    proof {
        assert(attribs@.uv_set =~= empty_attribs().uv_set);
        assert(attribs@.colors_32 =~= empty_attribs().colors_32);
        assert(attribs@.colors_128 =~= empty_attribs().colors_128);
        assert(attribs@.positions =~= empty_attribs().positions);
        assert(attribs@.normals =~= empty_attribs().normals);
        assert(attribs@.tangents =~= empty_attribs().tangents);
        assert(attribs@.bi_tangents =~= empty_attribs().bi_tangents);
        assert(attribs@.influence_range_indices =~= empty_attribs().influence_range_indices);
        assert(attribs@ == empty_attribs());
    }
    match read_vertex_elements(r, &mut attribs, total, num_vertex_element as usize) {
        Ok(_) => {},
        Err(e) => {
            return Err(e);
        },
    };
    let mut sub_meshes: Vec<XacActorSubMesh> = Vec::new();
    let mut records: Vec<XacSubMeshInfluenceRange> = Vec::new();
    let voff = match read_submeshes(
        r,
        &attribs,
        &node_name,
        node_id,
        num_vertices,
        num_sub_meshes as usize,
        &mut sub_meshes,
        &mut records,
    ) {
        Ok(v) => v,
        Err(e) => {
            return Err(e);
        },
    };
    if voff != total {
        return Err(XacError::VertexCountMismatch { declared: num_vertices, offset: voff });
    }
    let occupied = if is_collision_mesh {
        xac.nodes[nid].collision_mesh.is_some()
    } else {
        xac.nodes[nid].visual_mesh.is_some()
    };
    if occupied {
        return Err(XacError::DuplicateMesh { node_id, collision: is_collision_mesh });
    }
    let mesh = XacActorMesh { sub_meshes };
    let ghost mesh_v = mesh@;
    let ghost old_actor = old(xac)@;
    let ghost records_v = records@.map_values(|q: XacSubMeshInfluenceRange| q@);
    let pnode = vec_index_mut(&mut xac.nodes, nid);
    if is_collision_mesh {
        pnode.collision_mesh = Some(mesh);
    } else {
        pnode.visual_mesh = Some(mesh);
    }
    let ghost node2 = if is_collision_mesh {
        NodeView { collision_mesh: Some(mesh_v), ..node_v }
    } else {
        NodeView { visual_mesh: Some(mesh_v), ..node_v }
    };
    proof {
        assert(xac.nodes@.map_values(|x: XacActorNode| x@) =~= old_actor.nodes.update(
            nid as int,
            node2,
        ));
    }
    xac.sub_mesh_influence_range_indices.append(&mut records);
    proof {
        assert(xac.sub_mesh_influence_range_indices@.map_values(|q: XacSubMeshInfluenceRange| q@)
            =~= old_actor.sub_mesh_influence_range_indices + records_v);
    }
    xac.mesh_num_influence_range.push(
        XacInfluenceRange { node_id: nid, num: num_influence_ranges },
    );
    proof {
        assert(xac.mesh_num_influence_range@ =~= old_actor.mesh_num_influence_range.push(
            XacInfluenceRange { node_id: nid, num: num_influence_ranges },
        ));
        assert(xac@ == (ActorView {
            nodes: old_actor.nodes.update(nid as int, node2),
            sub_mesh_influence_range_indices: old_actor.sub_mesh_influence_range_indices
                + records_v,
            mesh_num_influence_range: old_actor.mesh_num_influence_range.push(
                XacInfluenceRange { node_id: nid, num: num_influence_ranges },
            ),
            ..old_actor
        }));
    }
    Ok(())
}

/// Groups a raw index stream into quads, shifting every index down by
/// one (the stream stores 1-based corner indices).
pub fn calculate_faces(indices: &Vec<i32>) -> (faces: Vec<[i32; 4]>)
    requires
        indices@.len() % 4 == 0,
        forall|i: int| 0 <= i < indices@.len() ==> indices@[i] > i32::MIN,
    ensures
        faces@.len() == indices@.len() / 4,
        forall|f: int, j: int|
            0 <= f < faces@.len() && 0 <= j < 4 ==> faces@[f]@[j] == indices@[4 * f + j] - 1,
{
    let mut faces: Vec<[i32; 4]> = Vec::new();
    let mut i: usize = 0;
    while i < indices.len()
        invariant
            i % 4 == 0,
            i <= indices@.len(),
            indices@.len() % 4 == 0,
            forall|k: int| 0 <= k < indices@.len() ==> indices@[k] > i32::MIN,
            faces@.len() == i / 4,
            forall|f: int, j: int|
                0 <= f < faces@.len() && 0 <= j < 4 ==> faces@[f]@[j] == indices@[4 * f + j] - 1,
        decreases indices@.len() - i,
    {
        let face: [i32; 4] = [
            indices[i] - 1,
            indices[i + 1] - 1,
            indices[i + 2] - 1,
            indices[i + 3] - 1,
        ];
        faces.push(face);
        i = i + 4;
    }
    faces
}

} // verus!
