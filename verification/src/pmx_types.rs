//! The data of a PMX model as the writer consumes it.
//!
//! Floating-point components are held as their IEEE-754 single-precision bit
//! patterns (`f32::to_bits`): the file stores exactly those four bytes, so the
//! encoding never looks at a float's value.
use vstd::prelude::*;

verus! {

/// Two `f32` components, each as its bit pattern.
pub type Vec2 = [u32; 2];

/// Three `f32` components, each as its bit pattern.
pub type Vec3 = [u32; 3];

/// Four `f32` components, each as its bit pattern.
pub type Vec4 = [u32; 4];

/// The bone's tail is given by a bone index (`child`) rather than an offset.
pub const BONE_FLAG_TARGET_SHOW_MODE_MASK: u16 = 0x0001;

/// The bone is the end of an IK chain.
pub const BONE_FLAG_IK_MASK: u16 = 0x0020;

/// The bone inherits rotation from `append_bone_index`.
pub const BONE_FLAG_APPEND_ROTATE_MASK: u16 = 0x0100;

/// The bone inherits movement from `append_bone_index`.
pub const BONE_FLAG_APPEND_TRANSLATE_MASK: u16 = 0x0200;

/// The bone rotates about a fixed axis.
pub const BONE_FLAG_FIXED_AXIS_MASK: u16 = 0x0400;

/// The bone carries its own local X and Z axes.
pub const BONE_FLAG_LOCAL_AXIS_MASK: u16 = 0x0800;

/// The bone deforms under an outer parent, named by `key_value`.
pub const BONE_FLAG_DEFORM_OUTER_PARENT_MASK: u16 = 0x2000;

/// How a vertex is bound to bones; indices are bone indices, weights are
/// `f32` bit patterns.
#[derive(Clone, Copy, Debug, PartialEq, Eq)]
pub enum PMXVertexWeight {
    BDEF1(i32),
    BDEF2 { bone_index_1: i32, bone_index_2: i32, bone_weight_1: u32 },
    BDEF4 {
        bone_index_1: i32,
        bone_index_2: i32,
        bone_index_3: i32,
        bone_index_4: i32,
        bone_weight_1: u32,
        bone_weight_2: u32,
        bone_weight_3: u32,
        bone_weight_4: u32,
    },
    SDEF {
        bone_index_1: i32,
        bone_index_2: i32,
        bone_weight_1: u32,
        sdef_c: Vec3,
        sdef_r0: Vec3,
        sdef_r1: Vec3,
    },
    QDEF {
        bone_index_1: i32,
        bone_index_2: i32,
        bone_index_3: i32,
        bone_index_4: i32,
        bone_weight_1: u32,
        bone_weight_2: u32,
        bone_weight_3: u32,
        bone_weight_4: u32,
    },
}

/// One vertex. `add_uv` holds the additional UV sets; the model header says
/// how many of them (at most four) the file carries.
#[derive(Clone, Copy, Debug, PartialEq, Eq)]
pub struct PMXVertex {
    pub position: Vec3,
    pub norm: Vec3,
    pub uv: Vec2,
    pub add_uv: [Vec4; 4],
    pub weight_type: PMXVertexWeight,
    pub edge_mag: u32,
}

/// A triangle, as three vertex indices.
#[derive(Clone, Copy, Debug, PartialEq, Eq)]
pub struct PMXFace {
    pub vertices: [i32; 3],
}

/// How a material's sphere texture is applied.
#[derive(Clone, Copy, Debug, PartialEq, Eq)]
pub enum PMXSphereMode {
    Disabled,
    Mul,
    Add,
    SubTexture,
}

/// Whether a material's toon texture is its own or one of the shared ones.
#[derive(Clone, Copy, Debug, PartialEq, Eq)]
pub enum PMXToonMode {
    Separate,
    Common,
}

/// A material.
#[derive(Clone, Debug, PartialEq, Eq)]
pub struct PMXMaterial {
    pub name: String,
    pub english_name: String,
    pub diffuse: Vec4,
    pub specular: Vec3,
    pub specular_factor: u32,
    pub ambient: Vec3,
    pub draw_mode: u8,
    pub edge_color: Vec4,
    pub edge_size: u32,
    pub texture_index: i32,
    pub sphere_mode_texture_index: i32,
    pub sphere_mode: PMXSphereMode,
    pub toon_mode: PMXToonMode,
    pub toon_texture_index: i32,
    pub memo: String,
    pub num_face_vertices: i32,
}

/// A material as a value: its texts as character sequences.
pub struct PMXMaterialView {
    pub name: Seq<char>,
    pub english_name: Seq<char>,
    pub diffuse: Vec4,
    pub specular: Vec3,
    pub specular_factor: u32,
    pub ambient: Vec3,
    pub draw_mode: u8,
    pub edge_color: Vec4,
    pub edge_size: u32,
    pub texture_index: i32,
    pub sphere_mode_texture_index: i32,
    pub sphere_mode: PMXSphereMode,
    pub toon_mode: PMXToonMode,
    pub toon_texture_index: i32,
    pub memo: Seq<char>,
    pub num_face_vertices: i32,
}

impl View for PMXMaterial {
    type V = PMXMaterialView;

    open spec fn view(&self) -> PMXMaterialView {
        PMXMaterialView {
            name: self.name@,
            english_name: self.english_name@,
            diffuse: self.diffuse,
            specular: self.specular,
            specular_factor: self.specular_factor,
            ambient: self.ambient,
            draw_mode: self.draw_mode,
            edge_color: self.edge_color,
            edge_size: self.edge_size,
            texture_index: self.texture_index,
            sphere_mode_texture_index: self.sphere_mode_texture_index,
            sphere_mode: self.sphere_mode,
            toon_mode: self.toon_mode,
            toon_texture_index: self.toon_texture_index,
            memo: self.memo@,
            num_face_vertices: self.num_face_vertices,
        }
    }
}

/// One link of an IK chain.
#[derive(Clone, Copy, Debug, PartialEq, Eq)]
pub struct PMXIKLink {
    pub ik_bone_index: i32,
    pub enable_limit: u8,
    pub limit_min: Vec3,
    pub limit_max: Vec3,
}

/// A bone. Which of the optional fields the file carries is decided by
/// `boneflag`.
#[derive(Clone, Debug, PartialEq, Eq)]
pub struct PMXBone {
    pub name: String,
    pub english_name: String,
    pub position: Vec3,
    pub parent: i32,
    pub deform_depth: i32,
    pub boneflag: u16,
    pub offset: Vec3,
    pub child: i32,
    pub append_bone_index: i32,
    pub append_weight: u32,
    pub fixed_axis: Vec3,
    pub local_axis_x: Vec3,
    pub local_axis_z: Vec3,
    pub key_value: i32,
    pub ik_target_index: i32,
    pub ik_iter_count: i32,
    pub ik_limit: u32,
    pub ik_links: Vec<PMXIKLink>,
}

/// A bone as a value: its texts as character sequences, its IK links as a
/// sequence.
pub struct PMXBoneView {
    pub name: Seq<char>,
    pub english_name: Seq<char>,
    pub position: Vec3,
    pub parent: i32,
    pub deform_depth: i32,
    pub boneflag: u16,
    pub offset: Vec3,
    pub child: i32,
    pub append_bone_index: i32,
    pub append_weight: u32,
    pub fixed_axis: Vec3,
    pub local_axis_x: Vec3,
    pub local_axis_z: Vec3,
    pub key_value: i32,
    pub ik_target_index: i32,
    pub ik_iter_count: i32,
    pub ik_limit: u32,
    pub ik_links: Seq<PMXIKLink>,
}

impl View for PMXBone {
    type V = PMXBoneView;

    open spec fn view(&self) -> PMXBoneView {
        PMXBoneView {
            name: self.name@,
            english_name: self.english_name@,
            position: self.position,
            parent: self.parent,
            deform_depth: self.deform_depth,
            boneflag: self.boneflag,
            offset: self.offset,
            child: self.child,
            append_bone_index: self.append_bone_index,
            append_weight: self.append_weight,
            fixed_axis: self.fixed_axis,
            local_axis_x: self.local_axis_x,
            local_axis_z: self.local_axis_z,
            key_value: self.key_value,
            ik_target_index: self.ik_target_index,
            ik_iter_count: self.ik_iter_count,
            ik_limit: self.ik_limit,
            ik_links: self.ik_links@,
        }
    }
}

/// Offset of one vertex's position.
#[derive(Clone, Copy, Debug, PartialEq, Eq)]
pub struct VertexMorph {
    pub index: i32,
    pub offset: Vec3,
}

/// Offset of one vertex's (additional) UV.
#[derive(Clone, Copy, Debug, PartialEq, Eq)]
pub struct UVMorph {
    pub index: i32,
    pub offset: Vec4,
}

/// Movement and rotation of one bone.
#[derive(Clone, Copy, Debug, PartialEq, Eq)]
pub struct BoneMorph {
    pub index: i32,
    pub translates: Vec3,
    pub rotates: Vec4,
}

/// Change of one material's parameters.
#[derive(Clone, Copy, Debug, PartialEq, Eq)]
pub struct MaterialMorph {
    pub index: i32,
    pub formula: u8,
    pub diffuse: Vec4,
    pub specular: Vec3,
    pub specular_factor: u32,
    pub ambient: Vec3,
    pub edge_color: Vec4,
    pub edge_size: u32,
    pub texture_factor: Vec4,
    pub sphere_texture_factor: Vec4,
    pub toon_texture_factor: Vec4,
}

/// Weight of another morph.
#[derive(Clone, Copy, Debug, PartialEq, Eq)]
pub struct GroupMorph {
    pub index: i32,
    pub morph_factor: u32,
}

/// One entry of a morph.
#[derive(Clone, Copy, Debug, PartialEq, Eq)]
pub enum MorphTypes {
    Vertex(VertexMorph),
    UV(UVMorph),
    UV1(UVMorph),
    UV2(UVMorph),
    UV3(UVMorph),
    UV4(UVMorph),
    Bone(BoneMorph),
    Material(MaterialMorph),
    Group(GroupMorph),
}

/// A morph: a named list of entries of one kind.
#[derive(Clone, Debug, PartialEq, Eq)]
pub struct PMXMorph {
    pub name: String,
    pub english_name: String,
    pub category: u8,
    pub morph_type: u8,
    pub morph_data: Vec<MorphTypes>,
}

/// A morph as a value: its texts as character sequences, its entries as a
/// sequence.
pub struct PMXMorphView {
    pub name: Seq<char>,
    pub english_name: Seq<char>,
    pub category: u8,
    pub morph_type: u8,
    pub morph_data: Seq<MorphTypes>,
}

impl View for PMXMorph {
    type V = PMXMorphView;

    open spec fn view(&self) -> PMXMorphView {
        PMXMorphView {
            name: self.name@,
            english_name: self.english_name@,
            category: self.category,
            morph_type: self.morph_type,
            morph_data: self.morph_data@,
        }
    }
}

} // verus!
