//! The node-hierarchy builder: reconstructs the parent/child tree from
//! the flat, ID-implicit record stream of the hierarchy chunk.
//!
//! Each record gets the next sequential ID. A record whose declared
//! parent is -1 becomes a root; any other parent ID must name an
//! already-decoded node, which is found through the ID-indexed flat
//! list, and the new node's ID is appended to that parent's child list.

use vstd::prelude::*;
use vstd::std_specs::vec::vec_index_mut;

use crate::codec::Reader;
use crate::model::{ActorView, NodeView, XacActorFile, XacActorNode, XacError};
use crate::spec_format::{
    sp_attach_node, sp_node_hierarchy, sp_node_record, sp_node_run, NodeRecord,
};

verus! {

/// The node-hierarchy chunk: declared node and root counts, one record
/// per node, and the final root-count consistency check.
#[verifier::loop_isolation(false)]
#[verifier::rlimit(100)]
pub fn read_node_hierarchy(r: &mut Reader, xac: &mut XacActorFile) -> (res: Result<(), XacError>)
    requires
        old(r).wf(),
    ensures
        final(r).wf(),
        final(r).data == old(r).data,
        (match res {
            Ok(_) => sp_node_hierarchy(old(r).bytes(), old(r).pos as int, old(xac)@) == Ok::<
                (ActorView, int),
                XacError,
            >((final(xac)@, final(r).pos as int)),
            Err(e) => sp_node_hierarchy(old(r).bytes(), old(r).pos as int, old(xac)@) == Err::<
                (ActorView, int),
                XacError,
            >(e),
        }),
{
    proof {
        reveal(sp_node_hierarchy);
    }
    let ghost s = old(r).bytes();
    let ghost d = old(r).data;
    let num_nodes = match r.read_i32() {
        Ok(v) => v,
        Err(e) => {
            return Err(e);
        },
    };
    let num_root_nodes = match r.read_i32() {
        Ok(v) => v,
        Err(e) => {
            return Err(e);
        },
    };
    if num_nodes <= 0 {
        return Err(XacError::InvalidNodeCount { count: num_nodes });
    }
    xac.num_nodes = num_nodes;
    xac.num_root_nodes = num_root_nodes;
    let ghost a1 = xac@;
    let ghost start_pos = r.pos as int;
    let n: usize = num_nodes as usize;
    let mut i: usize = 0;
    while i < n
        invariant
            i <= n,
            r.wf(),
            r.bytes() == s,
            r.data == d,
            sp_node_run(s, start_pos, a1, n as int) == sp_node_run(
                s,
                r.pos as int,
                xac@,
                n - i,
            ),
        decreases n - i,
    {
        let ghost p_it = r.pos as int;
        let ghost a_it = xac@;
        let rotation = match r.read_quaternion() {
            Ok(v) => v,
            Err(e) => {
                return Err(e);
            },
        };
        let scale_rotation = match r.read_quaternion() {
            Ok(v) => v,
            Err(e) => {
                return Err(e);
            },
        };
        let position = match r.read_vec3() {
            Ok(v) => v,
            Err(e) => {
                return Err(e);
            },
        };
        let scale = match r.read_vec3() {
            Ok(v) => v,
            Err(e) => {
                return Err(e);
            },
        };
        match r.skip(20) {
            Ok(_) => {},
            Err(e) => {
                return Err(e);
            },
        };
        let parent_node_id = match r.read_i32() {
            Ok(v) => v,
            Err(e) => {
                return Err(e);
            },
        };
        let num_children = match r.read_i32() {
            Ok(v) => v,
            Err(e) => {
                return Err(e);
            },
        };
        match r.skip(4) {
            Ok(_) => {},
            Err(e) => {
                return Err(e);
            },
        };
        let transform = match r.read_matrix44() {
            Ok(v) => v,
            Err(e) => {
                return Err(e);
            },
        };
        match r.skip(4) {
            Ok(_) => {},
            Err(e) => {
                return Err(e);
            },
        };
        let name = match r.read_string() {
            Ok(v) => v,
            Err(e) => {
                return Err(e);
            },
        };
        let ghost rec = NodeRecord {
            rotation,
            scale_rotation,
            position,
            scale,
            parent_node_id,
            num_children,
            transform,
            name: name@,
        };
        proof {
            assert(sp_node_record(s, p_it) == Ok::<(NodeRecord, int), XacError>((
                rec,
                r.pos as int,
            )));
        }
        let id = xac.nodes.len();
        let node = XacActorNode {
            node_id: id,
            parent_node_id,
            name,
            position,
            rotation,
            scale,
            scale_rotation,
            transform,
            num_children,
            children: Vec::new(),
            visual_mesh: None,
            collision_mesh: None,
        };
        proof {
            assert(node@.children =~= Seq::<usize>::empty());
        }
        if parent_node_id == -1 {
            xac.nodes.push(node);
            xac.root_nodes.push(id);
            xac.num_nodes_index = xac.nodes.len();
            proof {
                assert(xac.nodes@.map_values(|x: XacActorNode| x@) =~= a_it.nodes.push(node@));
                assert(sp_attach_node(a_it, rec) == Ok::<ActorView, XacError>(xac@));
            }
        } else if parent_node_id >= 0 && (parent_node_id as usize) < xac.nodes.len() {
            let pid = parent_node_id as usize;
            let ghost parent_v = a_it.nodes[pid as int];
            let pnode = vec_index_mut(&mut xac.nodes, pid);
            pnode.children.push(id);
            proof {
                assert(xac.nodes@.map_values(|x: XacActorNode| x@) =~= a_it.nodes.update(
                    pid as int,
                    NodeView { children: parent_v.children.push(id), ..parent_v },
                ));
            }
            let ghost mid_nodes = xac.nodes@.map_values(|x: XacActorNode| x@);
            xac.nodes.push(node);
            xac.num_nodes_index = xac.nodes.len();
            proof {
                assert(xac.nodes@.map_values(|x: XacActorNode| x@) =~= mid_nodes.push(node@));
                assert(sp_attach_node(a_it, rec) == Ok::<ActorView, XacError>(xac@));
            }
        } else {
            return Err(XacError::InvalidParentId { parent: parent_node_id, seen: xac.nodes.len() });
        }
        proof {
            assert(sp_node_run(s, p_it, a_it, n - i) == sp_node_run(
                s,
                r.pos as int,
                xac@,
                n - i - 1,
            ));
        }
        i = i + 1;
    }
    if num_root_nodes < 0 || xac.root_nodes.len() != num_root_nodes as usize {
        return Err(
            XacError::RootCountMismatch { declared: num_root_nodes, found: xac.root_nodes.len() },
        );
    }
    Ok(())
}

} // verus!
