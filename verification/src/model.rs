//! Data model of the decoded actor.
//!
//! Scalars that the container stores as 32-bit IEEE floats are kept as
//! their raw little-endian bit patterns (`u32`); decoding never does
//! arithmetic on them. Strings are kept as their exact on-disk bytes.

use vstd::prelude::*;

verus! {

/// Why a decode was aborted. Decoding is all-or-nothing: the first
/// violation ends the whole decode.
#[derive(Clone, Copy, Debug, PartialEq, Eq, Structural)]
pub enum XacError {
    /// Fewer bytes were left in the stream than a read needed.
    ShortRead { offset: usize },
    /// The four magic bytes were not the expected tag.
    BadMagic,
    /// The container's version is not the single supported one.
    UnsupportedVersion { major: u8, minor: u8 },
    /// The container declares big-endian encoding, which is rejected.
    BigEndian,
    /// A node-hierarchy chunk declared a non-positive node count.
    InvalidNodeCount { count: i32 },
    /// The number of root nodes found differs from the declared count.
    RootCountMismatch { declared: i32, found: usize },
    /// A node's declared parent ID is neither -1 nor an already-seen node.
    InvalidParentId { parent: i32, seen: usize },
    /// A material-totals chunk declared a non-positive standard count.
    InvalidStandardMaterialCount { count: i32 },
    /// A material-totals chunk whose total is not standard + fx.
    MaterialTotalMismatch { total: i32, standard: i32, fx: i32 },
    /// A count field inside a mesh chunk was negative.
    NegativeCount { count: i32 },
    /// A mesh chunk names a node ID outside the decoded node list.
    NodeNotFound { node_id: i32 },
    /// A mesh was assigned to a visual or collision slot already in use.
    DuplicateMesh { node_id: i32, collision: bool },
    /// Submesh vertex counts do not add up to the declared vertex total.
    VertexCountMismatch { declared: i32, offset: usize },
}

/// Two 32-bit float bit patterns.
#[derive(Clone, Copy, Debug, PartialEq, Eq, Structural)]
pub struct Vec2 {
    pub x: u32,
    pub y: u32,
}

/// Three 32-bit float bit patterns.
#[derive(Clone, Copy, Debug, PartialEq, Eq, Structural)]
pub struct Vec3 {
    pub x: u32,
    pub y: u32,
    pub z: u32,
}

/// Four 32-bit float bit patterns.
#[derive(Clone, Copy, Debug, PartialEq, Eq, Structural)]
pub struct Vec4 {
    pub x: u32,
    pub y: u32,
    pub z: u32,
    pub w: u32,
}

/// A quaternion as four 32-bit float bit patterns.
#[derive(Clone, Copy, Debug, PartialEq, Eq, Structural)]
pub struct Quaternion {
    pub x: u32,
    pub y: u32,
    pub z: u32,
    pub w: u32,
}

/// An 8-bit-per-channel color triple.
#[derive(Clone, Copy, Debug, PartialEq, Eq, Structural)]
pub struct Color8 {
    pub x: u8,
    pub y: u8,
    pub z: u8,
}

/// A 4x4 transform: four rows of four 32-bit float bit patterns.
#[derive(Clone, Copy, Debug, PartialEq, Eq, Structural)]
pub struct Matrix44 {
    pub axis_1: Vec4,
    pub axis_2: Vec4,
    pub axis_3: Vec4,
    pub pos: Vec4,
}

/// The fixed-size container header.
#[derive(Clone, Debug)]
pub struct XacHeader {
    /// The four magic bytes, always the expected tag after a successful decode.
    pub magic: Vec<u8>,
    pub major_version: u8,
    pub minor_version: u8,
    pub big_endian: bool,
    /// Node multiply order; carried but not interpreted.
    pub multiply_order: u8,
}

/// Mathematical image of the container header.
pub ghost struct XacHeaderView {
    pub magic: Seq<u8>,
    pub major_version: u8,
    pub minor_version: u8,
    pub big_endian: bool,
    pub multiply_order: u8,
}

impl View for XacHeader {
    type V = XacHeaderView;

    open spec fn view(&self) -> XacHeaderView {
        XacHeaderView {
            magic: self.magic@,
            major_version: self.major_version,
            minor_version: self.minor_version,
            big_endian: self.big_endian,
            multiply_order: self.multiply_order,
        }
    }
}

/// Scalar metadata of the metadata chunk. The four descriptive strings
/// live on the actor itself.
#[derive(Clone, Copy, Debug, PartialEq, Eq, Structural)]
pub struct XacMetadata {
    pub reposition_mask: u32,
    pub repositioning_node: i32,
    pub exporter_major_version: u8,
    pub exporter_minor_version: u8,
    /// 32-bit float bit pattern.
    pub retarget_root_offset: u32,
}

/// Declared material counts of the material-totals chunk.
#[derive(Clone, Copy, Debug, PartialEq, Eq, Structural)]
pub struct XacMaterialTotals {
    pub num_total_materials: i32,
    pub num_standard_materials: i32,
    pub num_fx_materials: i32,
}

/// How many influence ranges a mesh chunk declared for a node.
#[derive(Clone, Copy, Debug, PartialEq, Eq, Structural)]
pub struct XacInfluenceRange {
    pub node_id: usize,
    pub num: i32,
}

/// One texture layer of a material, in encounter order.
#[derive(Clone, Debug)]
pub struct XacActorMaterialLayer {
    /// Texture reference name (raw bytes).
    pub name: Vec<u8>,
    /// Blend amount (float bits).
    pub amount: u32,
    pub u_offset: u32,
    pub v_offset: u32,
    pub u_tiling: u32,
    pub v_tiling: u32,
    /// Rotation in radians (float bits).
    pub rotation: u32,
    /// Originating-material linkage.
    pub material_id: i16,
    pub map_type: u8,
}

/// Mathematical image of a material layer.
pub ghost struct MaterialLayerView {
    pub name: Seq<u8>,
    pub amount: u32,
    pub u_offset: u32,
    pub v_offset: u32,
    pub u_tiling: u32,
    pub v_tiling: u32,
    pub rotation: u32,
    pub material_id: i16,
    pub map_type: u8,
}

impl View for XacActorMaterialLayer {
    type V = MaterialLayerView;

    open spec fn view(&self) -> MaterialLayerView {
        MaterialLayerView {
            name: self.name@,
            amount: self.amount,
            u_offset: self.u_offset,
            v_offset: self.v_offset,
            u_tiling: self.u_tiling,
            v_tiling: self.v_tiling,
            rotation: self.rotation,
            material_id: self.material_id,
            map_type: self.map_type,
        }
    }
}

/// A standard material: surface parameters and an ordered layer list.
#[derive(Clone, Debug)]
pub struct XacActorMaterial {
    pub name: Vec<u8>,
    pub ambient_color: Vec4,
    pub diffuse_color: Vec4,
    pub specular_color: Vec4,
    pub emissive_color: Vec4,
    pub shine: u32,
    pub shine_strength: u32,
    pub opacity: u32,
    pub ior: u32,
    pub double_sided: bool,
    pub wireframe: bool,
    pub layers: Vec<XacActorMaterialLayer>,
}

/// Mathematical image of a material.
pub ghost struct MaterialView {
    pub name: Seq<u8>,
    pub ambient_color: Vec4,
    pub diffuse_color: Vec4,
    pub specular_color: Vec4,
    pub emissive_color: Vec4,
    pub shine: u32,
    pub shine_strength: u32,
    pub opacity: u32,
    pub ior: u32,
    pub double_sided: bool,
    pub wireframe: bool,
    pub layers: Seq<MaterialLayerView>,
}

impl View for XacActorMaterial {
    type V = MaterialView;

    open spec fn view(&self) -> MaterialView {
        MaterialView {
            name: self.name@,
            ambient_color: self.ambient_color,
            diffuse_color: self.diffuse_color,
            specular_color: self.specular_color,
            emissive_color: self.emissive_color,
            shine: self.shine,
            shine_strength: self.shine_strength,
            opacity: self.opacity,
            ior: self.ior,
            double_sided: self.double_sided,
            wireframe: self.wireframe,
            layers: self.layers@.map_values(|l: XacActorMaterialLayer| l@),
        }
    }
}

/// A named 32-bit integer shader property.
#[derive(Clone, Debug)]
pub struct XacIntProperty {
    pub name_properties: Vec<u8>,
    pub value: i32,
}

/// Mathematical image of an integer property.
pub ghost struct IntPropertyView {
    pub name_properties: Seq<u8>,
    pub value: i32,
}

impl View for XacIntProperty {
    type V = IntPropertyView;

    open spec fn view(&self) -> IntPropertyView {
        IntPropertyView { name_properties: self.name_properties@, value: self.value }
    }
}

/// A named 32-bit float shader property (float bits).
#[derive(Clone, Debug)]
pub struct XacFloatProperty {
    pub name_properties: Vec<u8>,
    pub value: u32,
}

/// Mathematical image of a float property.
pub ghost struct FloatPropertyView {
    pub name_properties: Seq<u8>,
    pub value: u32,
}

impl View for XacFloatProperty {
    type V = FloatPropertyView;

    open spec fn view(&self) -> FloatPropertyView {
        FloatPropertyView { name_properties: self.name_properties@, value: self.value }
    }
}

/// A named single-byte boolean shader property.
#[derive(Clone, Debug)]
pub struct XacBoolProperty {
    pub name_properties: Vec<u8>,
    pub value: u8,
}

/// Mathematical image of a boolean property.
pub ghost struct BoolPropertyView {
    pub name_properties: Seq<u8>,
    pub value: u8,
}

impl View for XacBoolProperty {
    type V = BoolPropertyView;

    open spec fn view(&self) -> BoolPropertyView {
        BoolPropertyView { name_properties: self.name_properties@, value: self.value }
    }
}

/// A named string shader property.
#[derive(Clone, Debug)]
pub struct XacStringProperty {
    pub name_properties: Vec<u8>,
    pub value: Vec<u8>,
}

/// Mathematical image of a string property.
pub ghost struct StringPropertyView {
    pub name_properties: Seq<u8>,
    pub value: Seq<u8>,
}

impl View for XacStringProperty {
    type V = StringPropertyView;

    open spec fn view(&self) -> StringPropertyView {
        StringPropertyView { name_properties: self.name_properties@, value: self.value@ }
    }
}

/// A shader material: names plus four typed property lists.
#[derive(Clone, Debug)]
pub struct XacShaderMaterial {
    pub num_int: i32,
    pub num_float: i32,
    pub num_bool: i32,
    pub num_string: i32,
    pub flag: i32,
    pub name_material: Vec<u8>,
    pub name_shader: Vec<u8>,
    pub int_property: Vec<XacIntProperty>,
    pub float_property: Vec<XacFloatProperty>,
    pub bool_property: Vec<XacBoolProperty>,
    pub string_property: Vec<XacStringProperty>,
}

/// Mathematical image of a shader material.
pub ghost struct ShaderMaterialView {
    pub num_int: i32,
    pub num_float: i32,
    pub num_bool: i32,
    pub num_string: i32,
    pub flag: i32,
    pub name_material: Seq<u8>,
    pub name_shader: Seq<u8>,
    pub int_property: Seq<IntPropertyView>,
    pub float_property: Seq<FloatPropertyView>,
    pub bool_property: Seq<BoolPropertyView>,
    pub string_property: Seq<StringPropertyView>,
}

impl View for XacShaderMaterial {
    type V = ShaderMaterialView;

    open spec fn view(&self) -> ShaderMaterialView {
        ShaderMaterialView {
            num_int: self.num_int,
            num_float: self.num_float,
            num_bool: self.num_bool,
            num_string: self.num_string,
            flag: self.flag,
            name_material: self.name_material@,
            name_shader: self.name_shader@,
            int_property: self.int_property@.map_values(|p: XacIntProperty| p@),
            float_property: self.float_property@.map_values(|p: XacFloatProperty| p@),
            bool_property: self.bool_property@.map_values(|p: XacBoolProperty| p@),
            string_property: self.string_property@.map_values(|p: XacStringProperty| p@),
        }
    }
}

/// A contiguous partition of one mesh's vertex and index data.
///
/// Attribute arrays absent from the chunk stay empty, never defaulted.
/// Multi-channel attributes (UVs, colors) hold one array per channel.
#[derive(Clone, Debug)]
pub struct XacActorSubMesh {
    /// Name of the owning node (raw bytes).
    pub name: Vec<u8>,
    pub material_id: i32,
    pub num_vertices: i32,
    pub num_indices: i32,
    pub num_bones: i32,
    pub vertex_positions: Vec<Vec3>,
    pub vertex_normals: Vec<Vec3>,
    pub vertex_tangents: Vec<Vec4>,
    pub vertex_bi_tangents: Vec<Vec4>,
    pub vertex_uvs: Vec<Vec<Vec2>>,
    pub vertex_colors_32: Vec<Vec<Color8>>,
    pub vertex_colors_128: Vec<Vec<Vec3>>,
    /// Per-vertex influence-range lookup keys.
    pub influence_range_indices: Vec<i32>,
    /// The trailing raw index stream of the submesh.
    pub indices: Vec<i32>,
}

/// Mathematical image of a submesh.
pub ghost struct SubMeshView {
    pub name: Seq<u8>,
    pub material_id: i32,
    pub num_vertices: i32,
    pub num_indices: i32,
    pub num_bones: i32,
    pub vertex_positions: Seq<Vec3>,
    pub vertex_normals: Seq<Vec3>,
    pub vertex_tangents: Seq<Vec4>,
    pub vertex_bi_tangents: Seq<Vec4>,
    pub vertex_uvs: Seq<Seq<Vec2>>,
    pub vertex_colors_32: Seq<Seq<Color8>>,
    pub vertex_colors_128: Seq<Seq<Vec3>>,
    pub influence_range_indices: Seq<i32>,
    pub indices: Seq<i32>,
}

impl View for XacActorSubMesh {
    type V = SubMeshView;

    open spec fn view(&self) -> SubMeshView {
        SubMeshView {
            name: self.name@,
            material_id: self.material_id,
            num_vertices: self.num_vertices,
            num_indices: self.num_indices,
            num_bones: self.num_bones,
            vertex_positions: self.vertex_positions@,
            vertex_normals: self.vertex_normals@,
            vertex_tangents: self.vertex_tangents@,
            vertex_bi_tangents: self.vertex_bi_tangents@,
            vertex_uvs: self.vertex_uvs@.map_values(|c: Vec<Vec2>| c@),
            vertex_colors_32: self.vertex_colors_32@.map_values(|c: Vec<Color8>| c@),
            vertex_colors_128: self.vertex_colors_128@.map_values(|c: Vec<Vec3>| c@),
            influence_range_indices: self.influence_range_indices@,
            indices: self.indices@,
        }
    }
}

/// The submeshes attached to one node for one role (visual or collision).
#[derive(Clone, Debug)]
pub struct XacActorMesh {
    pub sub_meshes: Vec<XacActorSubMesh>,
}

/// Mathematical image of a mesh.
pub ghost struct MeshView {
    pub sub_meshes: Seq<SubMeshView>,
}

impl View for XacActorMesh {
    type V = MeshView;

    open spec fn view(&self) -> MeshView {
        MeshView { sub_meshes: self.sub_meshes@.map_values(|m: XacActorSubMesh| m@) }
    }
}

/// One node of the actor's transform tree.
///
/// The tree is represented without owning back-references: children and
/// roots are node IDs resolved through the actor's flat node list.
#[derive(Clone, Debug)]
pub struct XacActorNode {
    /// Sequential ID in decode order, equal to the node's index in the flat list.
    pub node_id: usize,
    /// Declared parent ID; -1 denotes a root.
    pub parent_node_id: i32,
    pub name: Vec<u8>,
    pub position: Vec3,
    pub rotation: Quaternion,
    pub scale: Vec3,
    pub scale_rotation: Quaternion,
    pub transform: Matrix44,
    /// Declared child count, carried as read.
    pub num_children: i32,
    /// IDs of the children attached so far, in decode order.
    pub children: Vec<usize>,
    pub visual_mesh: Option<XacActorMesh>,
    pub collision_mesh: Option<XacActorMesh>,
}

/// Mathematical image of a node.
pub ghost struct NodeView {
    pub node_id: usize,
    pub parent_node_id: i32,
    pub name: Seq<u8>,
    pub position: Vec3,
    pub rotation: Quaternion,
    pub scale: Vec3,
    pub scale_rotation: Quaternion,
    pub transform: Matrix44,
    pub num_children: i32,
    pub children: Seq<usize>,
    pub visual_mesh: Option<MeshView>,
    pub collision_mesh: Option<MeshView>,
}

impl View for XacActorNode {
    type V = NodeView;

    open spec fn view(&self) -> NodeView {
        NodeView {
            node_id: self.node_id,
            parent_node_id: self.parent_node_id,
            name: self.name@,
            position: self.position,
            rotation: self.rotation,
            scale: self.scale,
            scale_rotation: self.scale_rotation,
            transform: self.transform,
            num_children: self.num_children,
            children: self.children@,
            visual_mesh: match self.visual_mesh {
                Some(m) => Some(m@),
                None => None,
            },
            collision_mesh: match self.collision_mesh {
                Some(m) => Some(m@),
                None => None,
            },
        }
    }
}

/// The influence-range keys one submesh was sliced with, kept per node.
#[derive(Clone, Debug)]
pub struct XacSubMeshInfluenceRange {
    pub node_id: usize,
    pub indices: Vec<i32>,
}

/// Mathematical image of a per-submesh influence-range record.
pub ghost struct SubMeshInfluenceRangeView {
    pub node_id: usize,
    pub indices: Seq<i32>,
}

impl View for XacSubMeshInfluenceRange {
    type V = SubMeshInfluenceRangeView;

    open spec fn view(&self) -> SubMeshInfluenceRangeView {
        SubMeshInfluenceRangeView { node_id: self.node_id, indices: self.indices@ }
    }
}

/// The decoded actor: every entity of one container, built in a single
/// decode pass and returned immutable.
#[derive(Clone, Debug)]
pub struct XacActorFile {
    pub header: XacHeader,
    pub metadata: XacMetadata,
    pub source_app: Vec<u8>,
    pub original_filename: Vec<u8>,
    pub export_date: Vec<u8>,
    pub actor_name: Vec<u8>,
    /// Flat node list indexed by node ID.
    pub nodes: Vec<XacActorNode>,
    /// IDs of the nodes whose declared parent is -1, in decode order.
    pub root_nodes: Vec<usize>,
    pub num_nodes: i32,
    pub num_root_nodes: i32,
    pub materials: Vec<XacActorMaterial>,
    pub shader_materials: Vec<XacShaderMaterial>,
    pub material_total: XacMaterialTotals,
    pub mesh_num_influence_range: Vec<XacInfluenceRange>,
    pub sub_mesh_influence_range_indices: Vec<XacSubMeshInfluenceRange>,
    /// The next node ID to assign; always the flat list's length.
    pub num_nodes_index: usize,
}

/// Mathematical image of the whole actor.
pub ghost struct ActorView {
    pub header: XacHeaderView,
    pub metadata: XacMetadata,
    pub source_app: Seq<u8>,
    pub original_filename: Seq<u8>,
    pub export_date: Seq<u8>,
    pub actor_name: Seq<u8>,
    pub nodes: Seq<NodeView>,
    pub root_nodes: Seq<usize>,
    pub num_nodes: i32,
    pub num_root_nodes: i32,
    pub materials: Seq<MaterialView>,
    pub shader_materials: Seq<ShaderMaterialView>,
    pub material_total: XacMaterialTotals,
    pub mesh_num_influence_range: Seq<XacInfluenceRange>,
    pub sub_mesh_influence_range_indices: Seq<SubMeshInfluenceRangeView>,
    pub num_nodes_index: usize,
}

impl View for XacActorFile {
    type V = ActorView;

    open spec fn view(&self) -> ActorView {
        ActorView {
            header: self.header@,
            metadata: self.metadata,
            source_app: self.source_app@,
            original_filename: self.original_filename@,
            export_date: self.export_date@,
            actor_name: self.actor_name@,
            nodes: self.nodes@.map_values(|n: XacActorNode| n@),
            root_nodes: self.root_nodes@,
            num_nodes: self.num_nodes,
            num_root_nodes: self.num_root_nodes,
            materials: self.materials@.map_values(|m: XacActorMaterial| m@),
            shader_materials: self.shader_materials@.map_values(|m: XacShaderMaterial| m@),
            material_total: self.material_total,
            mesh_num_influence_range: self.mesh_num_influence_range@,
            sub_mesh_influence_range_indices: self.sub_mesh_influence_range_indices@.map_values(
                |r: XacSubMeshInfluenceRange| r@,
            ),
            num_nodes_index: self.num_nodes_index,
        }
    }
}

impl XacActorFile {
    /// The empty aggregate a decode starts from.
    pub fn empty() -> (r: XacActorFile)
        ensures
            r@ == empty_actor(),
    {
        let r = XacActorFile {
            header: XacHeader {
                magic: Vec::new(),
                major_version: 0,
                minor_version: 0,
                big_endian: false,
                multiply_order: 0,
            },
            metadata: XacMetadata {
                reposition_mask: 0,
                repositioning_node: 0,
                exporter_major_version: 0,
                exporter_minor_version: 0,
                retarget_root_offset: 0,
            },
            source_app: Vec::new(),
            original_filename: Vec::new(),
            export_date: Vec::new(),
            actor_name: Vec::new(),
            nodes: Vec::new(),
            root_nodes: Vec::new(),
            num_nodes: 0,
            num_root_nodes: 0,
            materials: Vec::new(),
            shader_materials: Vec::new(),
            material_total: XacMaterialTotals {
                num_total_materials: 0,
                num_standard_materials: 0,
                num_fx_materials: 0,
            },
            mesh_num_influence_range: Vec::new(),
            sub_mesh_influence_range_indices: Vec::new(),
            num_nodes_index: 0,
        };
        proof {
            assert(r@.header.magic =~= empty_actor().header.magic);
            assert(r@.nodes =~= empty_actor().nodes);
            assert(r@.root_nodes =~= empty_actor().root_nodes);
            assert(r@.materials =~= empty_actor().materials);
            assert(r@.shader_materials =~= empty_actor().shader_materials);
            assert(r@.mesh_num_influence_range =~= empty_actor().mesh_num_influence_range);
            assert(r@.sub_mesh_influence_range_indices =~= empty_actor().sub_mesh_influence_range_indices);
            assert(r@.source_app =~= empty_actor().source_app);
            assert(r@.original_filename =~= empty_actor().original_filename);
            assert(r@.export_date =~= empty_actor().export_date);
            assert(r@.actor_name =~= empty_actor().actor_name);
        }
        r
    }
}

/// The mathematical image of the empty aggregate.
pub open spec fn empty_actor() -> ActorView {
    ActorView {
        header: XacHeaderView {
            magic: Seq::empty(),
            major_version: 0,
            minor_version: 0,
            big_endian: false,
            multiply_order: 0,
        },
        metadata: XacMetadata {
            reposition_mask: 0,
            repositioning_node: 0,
            exporter_major_version: 0,
            exporter_minor_version: 0,
            retarget_root_offset: 0,
        },
        source_app: Seq::empty(),
        original_filename: Seq::empty(),
        export_date: Seq::empty(),
        actor_name: Seq::empty(),
        nodes: Seq::empty(),
        root_nodes: Seq::empty(),
        num_nodes: 0,
        num_root_nodes: 0,
        materials: Seq::empty(),
        shader_materials: Seq::empty(),
        material_total: XacMaterialTotals {
            num_total_materials: 0,
            num_standard_materials: 0,
            num_fx_materials: 0,
        },
        mesh_num_influence_range: Seq::empty(),
        sub_mesh_influence_range_indices: Seq::empty(),
        num_nodes_index: 0,
    }
}

} // verus!
