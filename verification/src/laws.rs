//! Format-level laws of the decoder, stated and proved against the
//! specification parser.

use vstd::prelude::*;

use crate::model::{ActorView, MeshView, NodeView, SubMeshView, XacError};
use crate::spec_format::{
    le_val, sp_chunk_header, sp_chunks, sp_dispatch, sp_have, sp_i32, sp_mesh_chunk,
    sp_mesh_header, sp_next_chunk_pos, sp_node_hierarchy, sp_node_run, sp_attach_node,
    sp_string, sp_submesh, sp_submesh_run, signed32, AttribState, ChunkHeaderView, MeshHeaderRec,
    SubMeshRunState, CHUNK_ID_MATERIAL_DEFINITION, CHUNK_ID_MATERIAL_TOTALS, CHUNK_ID_MESH,
    CHUNK_ID_METADATA, CHUNK_ID_NODE_HIERARCHY, CHUNK_ID_SHADER_MATERIAL,
};

verus! {

/// The chunk type IDs that have a reader. Every other type is skipped
/// by the dispatcher without touching the actor.
pub open spec fn chunk_type_known(type_id: i32) -> bool {
    ||| type_id == CHUNK_ID_MESH
    ||| type_id == CHUNK_ID_MATERIAL_DEFINITION
    ||| type_id == CHUNK_ID_SHADER_MATERIAL
    ||| type_id == CHUNK_ID_METADATA
    ||| type_id == CHUNK_ID_NODE_HIERARCHY
    ||| type_id == CHUNK_ID_MATERIAL_TOTALS
}

/// On a stream whose next chunk has an unknown (or intentionally
/// undecoded) type, the dispatcher advances exactly `length` bytes past
/// the payload start and decodes all subsequent chunks as if the
/// unknown chunk were not there: the remaining decode starts at
/// `pos + 12 + length` with the actor unchanged.
pub proof fn lemma_unknown_chunk_skipped(s: Seq<u8>, pos: int, actor: ActorView, h: ChunkHeaderView)
    requires
        0 <= pos < s.len(),
        sp_chunk_header(s, pos) == Ok::<(ChunkHeaderView, int), XacError>((h, pos + 12)),
        !chunk_type_known(h.type_id),
        0 <= h.length,
        pos + 12 + h.length <= s.len(),
    ensures
        sp_chunks(s, pos, actor) == sp_chunks(s, pos + 12 + h.length, actor),
{
    assert(sp_dispatch(s, pos + 12, h.type_id, actor) == Ok::<ActorView, XacError>(actor));
    assert(sp_next_chunk_pos(s, pos + 12, h.length) == pos + 12 + h.length);
}

/// How many nodes of a list declare parent ID -1, i.e. are roots.
pub open spec fn count_roots(nodes: Seq<NodeView>) -> int
    decreases nodes.len(),
{
    if nodes.len() == 0 {
        0
    } else {
        count_roots(nodes.drop_last()) + if nodes.last().parent_node_id == -1 {
            1int
        } else {
            0int
        }
    }
}

/// Updating one node without changing its declared parent leaves the
/// root count alone.
proof fn lemma_count_roots_update(nodes: Seq<NodeView>, i: int, node: NodeView)
    requires
        0 <= i < nodes.len(),
        node.parent_node_id == nodes[i].parent_node_id,
    ensures
        count_roots(nodes.update(i, node)) == count_roots(nodes),
    decreases nodes.len(),
{
    let upd = nodes.update(i, node);
    if i == nodes.len() - 1 {
        assert(upd.drop_last() =~= nodes.drop_last());
    } else {
        assert(upd.drop_last() =~= nodes.drop_last().update(i, node));
        assert(upd.last() == nodes.last());
        lemma_count_roots_update(nodes.drop_last(), i, node);
    }
}

/// The node-record loop keeps the root list in step with the nodes
/// that declare parent -1, and never touches the declared root count.
proof fn lemma_node_run_roots(s: Seq<u8>, pos: int, actor: ActorView, n: int)
    requires
        actor.root_nodes.len() == count_roots(actor.nodes),
    ensures
        (match sp_node_run(s, pos, actor, n) {
            Ok((a2, _p)) => a2.root_nodes.len() == count_roots(a2.nodes) && a2.num_root_nodes
                == actor.num_root_nodes,
            Err(_e) => true,
        }),
    decreases n,
{
    if n > 0 {
        match crate::spec_format::sp_node_record(s, pos) {
            Err(_e) => {},
            Ok((rec, p)) => {
                match sp_attach_node(actor, rec) {
                    Err(_e) => {},
                    Ok(a2) => {
                        if rec.parent_node_id == -1 {
                            assert(a2.nodes.drop_last() =~= actor.nodes);
                        } else {
                            let pid = rec.parent_node_id as int;
                            let parent = actor.nodes[pid];
                            let parent2 = NodeView {
                                children: parent.children.push(actor.nodes.len() as usize),
                                ..parent
                            };
                            assert(a2.nodes.drop_last() =~= actor.nodes.update(pid, parent2));
                            lemma_count_roots_update(actor.nodes, pid, parent2);
                        }
                        lemma_node_run_roots(s, p, a2, n - 1);
                    },
                }
            },
        }
    }
}

/// For every node-hierarchy chunk that decodes successfully, the number
/// of nodes whose declared parent ID is -1 equals the chunk's declared
/// root count; a mismatch is rejected. The root list itself has exactly
/// that length.
pub proof fn lemma_root_count(s: Seq<u8>, pos: int, actor: ActorView, a2: ActorView, p2: int)
    requires
        actor.root_nodes.len() == count_roots(actor.nodes),
        sp_node_hierarchy(s, pos, actor) == Ok::<(ActorView, int), XacError>((a2, p2)),
    ensures
        count_roots(a2.nodes) == a2.num_root_nodes as int,
        a2.root_nodes.len() == a2.num_root_nodes as int,
{
    reveal(sp_node_hierarchy);
    match sp_i32(s, pos) {
        Err(_e) => {},
        Ok((num_nodes, p1)) => {
            match sp_i32(s, p1) {
                Err(_e) => {},
                Ok((num_root_nodes, pr)) => {
                    let a1 = ActorView { num_nodes, num_root_nodes, ..actor };
                    lemma_node_run_roots(s, pr, a1, num_nodes as int);
                },
            }
        },
    }
}

/// The root list and the parent declarations agree: the actor holds
/// exactly as many roots as nodes that declare parent -1.
pub open spec fn roots_consistent(actor: ActorView) -> bool {
    actor.root_nodes.len() == count_roots(actor.nodes)
}

/// No chunk reader breaks the root consistency: the metadata, material
/// and shader-material readers never touch the node list, a mesh chunk
/// only fills a mesh slot, and a hierarchy chunk re-establishes the
/// count by construction.
proof fn lemma_dispatch_roots(s: Seq<u8>, pos: int, type_id: i32, actor: ActorView)
    requires
        roots_consistent(actor),
    ensures
        (match sp_dispatch(s, pos, type_id, actor) {
            Ok(a2) => roots_consistent(a2),
            Err(_e) => true,
        }),
{
    reveal(crate::spec_format::sp_metadata);
    reveal(crate::spec_format::sp_material_totals);
    reveal(crate::spec_format::sp_material_definition);
    reveal(crate::spec_format::sp_shader_material);
    reveal(sp_node_hierarchy);
    reveal(sp_mesh_chunk);
    if type_id == CHUNK_ID_NODE_HIERARCHY {
        match sp_i32(s, pos) {
            Err(_e) => {},
            Ok((num_nodes, p1)) => {
                match sp_i32(s, p1) {
                    Err(_e) => {},
                    Ok((num_root_nodes, pr)) => {
                        let a1 = ActorView { num_nodes, num_root_nodes, ..actor };
                        lemma_node_run_roots(s, pr, a1, num_nodes as int);
                    },
                }
            },
        }
    } else if type_id == CHUNK_ID_MESH {
        match sp_mesh_header(s, pos) {
            Err(_e) => {},
            Ok((h, p1)) => {
                if 0 <= h.node_id && (h.node_id as int) < actor.nodes.len() {
                    let node = actor.nodes[h.node_id as int];
                    match sp_mesh_chunk(s, pos, actor) {
                        Err(_e) => {},
                        Ok((a2, _p)) => {
                            assert(a2.root_nodes == actor.root_nodes);
                            assert(a2.nodes[h.node_id as int].parent_node_id
                                == node.parent_node_id);
                            lemma_count_roots_update(
                                actor.nodes,
                                h.node_id as int,
                                a2.nodes[h.node_id as int],
                            );
                            assert(a2.nodes =~= actor.nodes.update(
                                h.node_id as int,
                                a2.nodes[h.node_id as int],
                            ));
                        },
                    }
                }
            },
        }
    }
}

/// The chunk loop preserves root consistency from any starting state.
proof fn lemma_chunks_roots(s: Seq<u8>, pos: int, actor: ActorView)
    requires
        roots_consistent(actor),
    ensures
        (match sp_chunks(s, pos, actor) {
            Ok(a2) => roots_consistent(a2),
            Err(_e) => true,
        }),
    decreases s.len() - pos,
{
    if pos < s.len() {
        match sp_chunk_header(s, pos) {
            Err(_e) => {},
            Ok((h, p1)) => {
                match sp_dispatch(s, p1, h.type_id, actor) {
                    Err(_e) => {},
                    Ok(a2) => {
                        lemma_dispatch_roots(s, p1, h.type_id, actor);
                        lemma_chunks_roots(s, sp_next_chunk_pos(s, p1, h.length), a2);
                    },
                }
            },
        }
    }
}

/// For every container that decodes successfully, the returned actor's
/// root list length equals the number of nodes whose declared parent
/// ID is -1 — a decode can never end in a state where the two
/// disagree, whatever mixture of chunks the stream held.
pub proof fn lemma_decode_root_invariant(s: Seq<u8>, a: ActorView)
    requires
        crate::spec_format::sp_decode(s) == Ok::<ActorView, XacError>(a),
    ensures
        roots_consistent(a),
{
    match crate::spec_format::sp_header(s, 0) {
        Err(_e) => {},
        Ok((h, p)) => {
            let a0 = ActorView { header: h, ..crate::model::empty_actor() };
            lemma_chunks_roots(s, p, a0);
        },
    }
}

/// The sum of the declared vertex counts of a submesh list.
pub open spec fn sum_submesh_vertices(subs: Seq<SubMeshView>) -> int
    decreases subs.len(),
{
    if subs.len() == 0 {
        0
    } else {
        sum_submesh_vertices(subs.drop_last()) + subs.last().num_vertices
    }
}

/// The mesh slot a chunk writes: the collision or the visual one.
pub open spec fn role_mesh(node: NodeView, collision: bool) -> Option<MeshView> {
    if collision {
        node.collision_mesh
    } else {
        node.visual_mesh
    }
}

/// The submesh loop keeps the running vertex offset equal to the sum
/// of the vertex counts of the submeshes read so far.
proof fn lemma_submesh_run_offset(
    s: Seq<u8>,
    pos: int,
    a: AttribState,
    node_name: Seq<u8>,
    node_id: i32,
    declared: i32,
    st: SubMeshRunState,
    n: int,
)
    requires
        st.offset == sum_submesh_vertices(st.subs),
    ensures
        (match sp_submesh_run(s, pos, a, node_name, node_id, declared, st, n) {
            Ok((st2, _p)) => st2.offset == sum_submesh_vertices(st2.subs),
            Err(_e) => true,
        }),
    decreases n,
{
    if n > 0 {
        match sp_submesh(s, pos, a, node_name, node_id, declared, st.offset) {
            Err(_e) => {},
            Ok((parse, p)) => {
                let st2 = SubMeshRunState {
                    subs: st.subs.push(parse.sub_mesh),
                    influence_records: match parse.influence_record {
                        Some(rr) => st.influence_records.push(rr),
                        None => st.influence_records,
                    },
                    offset: parse.new_offset,
                };
                assert(st2.subs.drop_last() =~= st.subs);
                lemma_submesh_run_offset(s, p, a, node_name, node_id, declared, st2, n - 1);
            },
        }
    }
}

/// For every mesh chunk that decodes successfully, the sum of the
/// submesh vertex counts equals the chunk's declared vertex count —
/// equivalently, the final running vertex offset lands exactly on that
/// total — and the finished mesh sits in the chunk's visual or
/// collision slot of the owning node.
pub proof fn lemma_mesh_vertex_totals(
    s: Seq<u8>,
    pos: int,
    actor: ActorView,
    a2: ActorView,
    p2: int,
    h: MeshHeaderRec,
    p1: int,
)
    requires
        sp_mesh_header(s, pos) == Ok::<(MeshHeaderRec, int), XacError>((h, p1)),
        sp_mesh_chunk(s, pos, actor) == Ok::<(ActorView, int), XacError>((a2, p2)),
    ensures
        0 <= h.node_id < a2.nodes.len(),
        role_mesh(a2.nodes[h.node_id as int], h.is_collision_mesh) is Some,
        sum_submesh_vertices(
            role_mesh(a2.nodes[h.node_id as int], h.is_collision_mesh).unwrap().sub_meshes,
        ) == h.num_vertices as int,
{
    reveal(sp_mesh_chunk);
    let node = actor.nodes[h.node_id as int];
    match crate::spec_format::sp_vertex_element_run(
        s,
        p1,
        h.num_vertices as int,
        crate::spec_format::empty_attribs(),
        h.num_vertex_element as int,
    ) {
        Err(_e) => {},
        Ok((a, pe)) => {
            let st0 = SubMeshRunState {
                subs: Seq::empty(),
                influence_records: Seq::empty(),
                offset: 0,
            };
            lemma_submesh_run_offset(
                s,
                pe,
                a,
                node.name,
                h.node_id,
                h.num_vertices,
                st0,
                h.num_sub_meshes as int,
            );
        },
    }
}

/// The little-endian bytes of a non-negative 32-bit value.
pub open spec fn le4(v: int) -> Seq<u8> {
    seq![
        (v % 0x100) as u8,
        ((v / 0x100) % 0x100) as u8,
        ((v / 0x1_0000) % 0x100) as u8,
        ((v / 0x100_0000) % 0x100) as u8,
    ]
}

/// The on-disk encoding of a string: its length as a little-endian
/// 32-bit prefix, then its bytes unchanged.
pub open spec fn encode_string(b: Seq<u8>) -> Seq<u8> {
    le4(b.len() as int) + b
}

/// Reading four little-endian bytes of `v` gives `v` back.
proof fn lemma_le4_val(v: int, rest: Seq<u8>)
    requires
        0 <= v < 0x1_0000_0000,
    ensures
        le_val(le4(v) + rest, 0, 4) == v,
{
    let s = le4(v) + rest;
    reveal_with_fuel(le_val, 5);
    assert(s[0] == (v % 0x100) as u8);
    assert(s[1] == ((v / 0x100) % 0x100) as u8);
    assert(s[2] == ((v / 0x1_0000) % 0x100) as u8);
    assert(s[3] == ((v / 0x100_0000) % 0x100) as u8);
    assert(v % 0x100 + 0x100 * ((v / 0x100) % 0x100 + 0x100 * ((v / 0x1_0000) % 0x100 + 0x100 * (
        (v / 0x100_0000) % 0x100))) == v) by (nonlinear_arith)
        requires 0 <= v < 0x1_0000_0000;
}

/// Round trip on the string primitive: encoding a string of any length
/// and byte content, then decoding it — with anything at all following
/// in the stream — yields exactly the original bytes, one-to-one, and
/// leaves the cursor right behind them.
pub proof fn lemma_string_round_trip(b: Seq<u8>, rest: Seq<u8>)
    requires
        b.len() <= 0x7FFF_FFFF,
    ensures
        sp_string(encode_string(b) + rest, 0) == Ok::<(Seq<u8>, int), XacError>((
            b,
            4 + b.len() as int,
        )),
{
    let n = b.len() as int;
    let s = encode_string(b) + rest;
    assert(s =~= le4(n) + (b + rest));
    lemma_le4_val(n, b + rest);
    assert(le_val(s, 0, 4) == n);
    assert(signed32(n) == n);
    assert(sp_i32(s, 0) == Ok::<(i32, int), XacError>((n as i32, 4)));
    assert(sp_have(s, 4, n));
    assert(s.subrange(4, 4 + n) =~= b);
}

} // verus!

