//! Reading back whole records: what a reader recovers from the bytes of a
//! face, material, vertex, bone or morph, and when a record reads back as
//! itself.
use vstd::prelude::*;
use crate::decoding::{
    parse_u8, parse_u16, parse_i32, parse_float, parse_vec2, parse_vec3, parse_vec4,
    parse_vertex_index, parse_sized, parse_count, parse_text,
};
use crate::pmx_types::{
    Vec3, Vec4, PMXVertexWeight, PMXVertex, PMXFace, PMXSphereMode, PMXToonMode, PMXMaterialView,
    PMXIKLink, PMXBoneView, VertexMorph, UVMorph, BoneMorph, MaterialMorph, GroupMorph, MorphTypes,
    PMXMorphView, BONE_FLAG_TARGET_SHOW_MODE_MASK, BONE_FLAG_IK_MASK, BONE_FLAG_APPEND_ROTATE_MASK,
    BONE_FLAG_APPEND_TRANSLATE_MASK, BONE_FLAG_FIXED_AXIS_MASK, BONE_FLAG_LOCAL_AXIS_MASK,
    BONE_FLAG_DEFORM_OUTER_PARENT_MASK,
};
use crate::decoding::{vertex_index_fits, sized_fits, text_fits};
use crate::encoding::{has_all, has_any};

verus! {

/// A face: three vertex indices.
pub open spec fn parse_face(s_vertex_index: u8, bytes: Seq<u8>) -> Option<(PMXFace, Seq<u8>)> {
    if let Some((a, r1)) = parse_vertex_index(s_vertex_index, bytes) {
        if let Some((b, r2)) = parse_vertex_index(s_vertex_index, r1) {
            if let Some((c, r3)) = parse_vertex_index(s_vertex_index, r2) {
                Some((PMXFace { vertices: [a, b, c] }, r3))
            } else {
                None
            }
        } else {
            None
        }
    } else {
        None
    }
}

/// The sphere mode stored in a byte; codes above three are not modes.
pub open spec fn parse_sphere_mode(bytes: Seq<u8>) -> Option<(PMXSphereMode, Seq<u8>)> {
    if let Some((c, r)) = parse_u8(bytes) {
        if c == 0 {
            Some((PMXSphereMode::Disabled, r))
        } else if c == 1 {
            Some((PMXSphereMode::Mul, r))
        } else if c == 2 {
            Some((PMXSphereMode::Add, r))
        } else if c == 3 {
            Some((PMXSphereMode::SubTexture, r))
        } else {
            None
        }
    } else {
        None
    }
}

/// The toon mode stored in a byte; codes above one are not modes.
pub open spec fn parse_toon_mode(bytes: Seq<u8>) -> Option<(PMXToonMode, Seq<u8>)> {
    if let Some((c, r)) = parse_u8(bytes) {
        if c == 0 {
            Some((PMXToonMode::Separate, r))
        } else if c == 1 {
            Some((PMXToonMode::Common, r))
        } else {
            None
        }
    } else {
        None
    }
}

/// The toon texture index, whose size depends on the toon mode.
pub open spec fn parse_toon_texture(
    s_texture_index: u8,
    mode: PMXToonMode,
    bytes: Seq<u8>,
) -> Option<(i32, Seq<u8>)> {
    match mode {
        PMXToonMode::Separate => parse_sized(s_texture_index, bytes),
        PMXToonMode::Common => parse_sized(1, bytes),
    }
}

/// A material.
pub open spec fn parse_material(s_texture_index: u8, bytes: Seq<u8>) -> Option<
    (PMXMaterialView, Seq<u8>),
> {
    if let Some((name, r1)) = parse_text(bytes) {
        if let Some((english_name, r2)) = parse_text(r1) {
            if let Some((diffuse, r3)) = parse_vec4(r2) {
                if let Some((specular, r4)) = parse_vec3(r3) {
                    if let Some((specular_factor, r5)) = parse_float(r4) {
                        if let Some((ambient, r6)) = parse_vec3(r5) {
                            if let Some((draw_mode, r7)) = parse_u8(r6) {
                                if let Some((edge_color, r8)) = parse_vec4(r7) {
                                    if let Some((edge_size, r9)) = parse_float(r8) {
                                        if let Some((texture_index, r10)) = parse_sized(s_texture_index, r9) {
                                            if let Some((sphere_mode_texture_index, r11)) = parse_sized(s_texture_index, r10) {
                                                if let Some((sphere_mode, r12)) = parse_sphere_mode(r11) {
                                                    if let Some((toon_mode, r13)) = parse_toon_mode(r12) {
                                                        if let Some((toon_texture_index, r14)) = parse_toon_texture(s_texture_index, toon_mode, r13) {
                                                            if let Some((memo, r15)) = parse_text(r14) {
                                                                if let Some((num_face_vertices, r16)) = parse_i32(r15) {
                                                                    Some((PMXMaterialView {
        name,
        english_name,
        diffuse,
        specular,
        specular_factor,
        ambient,
        draw_mode,
        edge_color,
        edge_size,
        texture_index,
        sphere_mode_texture_index,
        sphere_mode,
        toon_mode,
        toon_texture_index,
        memo,
        num_face_vertices,
    }, r16))
                                                                } else {
                                                                    None
                                                                }
                                                            } else {
                                                                None
                                                            }
                                                        } else {
                                                            None
                                                        }
                                                    } else {
                                                        None
                                                    }
                                                } else {
                                                    None
                                                }
                                            } else {
                                                None
                                            }
                                        } else {
                                            None
                                        }
                                    } else {
                                        None
                                    }
                                } else {
                                    None
                                }
                            } else {
                                None
                            }
                        } else {
                            None
                        }
                    } else {
                        None
                    }
                } else {
                    None
                }
            } else {
                None
            }
        } else {
            None
        }
    } else {
        None
    }
}

/// `n` additional UV sets.
pub open spec fn parse_add_uvs(bytes: Seq<u8>, n: nat) -> Option<(Seq<Vec4>, Seq<u8>)>
    decreases n,
{
    if n == 0 {
        Some((seq![], bytes))
    } else {
        if let Some((init, r1)) = parse_add_uvs(bytes, (n - 1) as nat) {
            if let Some((v, r2)) = parse_vec4(r1) {
                Some((init.push(v), r2))
            } else {
                None
            }
        } else {
            None
        }
    }
}

/// The additional UV set at `i`, or zero beyond the sets read.
pub open spec fn uv_or_zero(uvs: Seq<Vec4>, i: int) -> Vec4 {
    if i < uvs.len() {
        uvs[i]
    } else {
        [0, 0, 0, 0]
    }
}

/// The four additional UV slots of a vertex filled from the sets read.
pub open spec fn uv_slots(uvs: Seq<Vec4>) -> [Vec4; 4] {
    [uv_or_zero(uvs, 0), uv_or_zero(uvs, 1), uv_or_zero(uvs, 2), uv_or_zero(uvs, 3)]
}

/// The bone indices and weights of the kind of vertex weight given by `code`.
pub open spec fn parse_weight_body(s_bone_index: u8, code: u8, bytes: Seq<u8>) -> Option<
    (PMXVertexWeight, Seq<u8>),
> {
    if code == 0 {
        if let Some((index, r1)) = parse_sized(s_bone_index, bytes) {
            Some((PMXVertexWeight::BDEF1(index), r1))
        } else {
            None
        }
    } else if code == 1 {
    if let Some((bone_index_1, r1)) = parse_sized(s_bone_index, bytes) {
        if let Some((bone_index_2, r2)) = parse_sized(s_bone_index, r1) {
            if let Some((bone_weight_1, r3)) = parse_float(r2) {
                Some((PMXVertexWeight::BDEF2 { bone_index_1, bone_index_2, bone_weight_1 }, r3))
            } else {
                None
            }
        } else {
            None
        }
    } else {
        None
    }
    } else if code == 2 || code == 4 {
    if let Some((bone_index_1, r1)) = parse_sized(s_bone_index, bytes) {
        if let Some((bone_index_2, r2)) = parse_sized(s_bone_index, r1) {
            if let Some((bone_index_3, r3)) = parse_sized(s_bone_index, r2) {
                if let Some((bone_index_4, r4)) = parse_sized(s_bone_index, r3) {
                    if let Some((bone_weight_1, r5)) = parse_float(r4) {
                        if let Some((bone_weight_2, r6)) = parse_float(r5) {
                            if let Some((bone_weight_3, r7)) = parse_float(r6) {
                                if let Some((bone_weight_4, r8)) = parse_float(r7) {
                                    Some((if code == 2 {
        PMXVertexWeight::BDEF4 {
            bone_index_1,
            bone_index_2,
            bone_index_3,
            bone_index_4,
            bone_weight_1,
            bone_weight_2,
            bone_weight_3,
            bone_weight_4,
        }
    } else {
        PMXVertexWeight::QDEF {
            bone_index_1,
            bone_index_2,
            bone_index_3,
            bone_index_4,
            bone_weight_1,
            bone_weight_2,
            bone_weight_3,
            bone_weight_4,
        }
    }, r8))
                                } else {
                                    None
                                }
                            } else {
                                None
                            }
                        } else {
                            None
                        }
                    } else {
                        None
                    }
                } else {
                    None
                }
            } else {
                None
            }
        } else {
            None
        }
    } else {
        None
    }
    } else if code == 3 {
    if let Some((bone_index_1, r1)) = parse_sized(s_bone_index, bytes) {
        if let Some((bone_index_2, r2)) = parse_sized(s_bone_index, r1) {
            if let Some((bone_weight_1, r3)) = parse_float(r2) {
                if let Some((sdef_c, r4)) = parse_vec3(r3) {
                    if let Some((sdef_r0, r5)) = parse_vec3(r4) {
                        if let Some((sdef_r1, r6)) = parse_vec3(r5) {
                            Some((PMXVertexWeight::SDEF {
        bone_index_1,
        bone_index_2,
        bone_weight_1,
        sdef_c,
        sdef_r0,
        sdef_r1,
    }, r6))
                        } else {
                            None
                        }
                    } else {
                        None
                    }
                } else {
                    None
                }
            } else {
                None
            }
        } else {
            None
        }
    } else {
        None
    }
    } else {
        None
    }
}

/// A vertex weight: its kind's code, then its indices and weights.
pub open spec fn parse_weight(s_bone_index: u8, bytes: Seq<u8>) -> Option<
    (PMXVertexWeight, Seq<u8>),
> {
    if let Some((code, r1)) = parse_u8(bytes) {
        parse_weight_body(s_bone_index, code, r1)
    } else {
        None
    }
}

/// A vertex with `additional_uvs` additional UV sets.
pub open spec fn parse_vertex(additional_uvs: u8, s_bone_index: u8, bytes: Seq<u8>) -> Option<
    (PMXVertex, Seq<u8>),
> {
    if let Some((position, r1)) = parse_vec3(bytes) {
        if let Some((norm, r2)) = parse_vec3(r1) {
            if let Some((uv, r3)) = parse_vec2(r2) {
                if let Some((uvs, r4)) = parse_add_uvs(r3, additional_uvs as nat) {
                    if let Some((weight_type, r5)) = parse_weight(s_bone_index, r4) {
                        if let Some((edge_mag, r6)) = parse_float(r5) {
                            Some((PMXVertex { position, norm, uv, add_uv: uv_slots(uvs), weight_type, edge_mag }, r6))
                        } else {
                            None
                        }
                    } else {
                        None
                    }
                } else {
                    None
                }
            } else {
                None
            }
        } else {
            None
        }
    } else {
        None
    }
}

/// An IK link; angle limits not present read as zero.
pub open spec fn parse_ik_link(s_bone_index: u8, bytes: Seq<u8>) -> Option<(PMXIKLink, Seq<u8>)> {
    if let Some((ik_bone_index, r1)) = parse_sized(s_bone_index, bytes) {
        if let Some((enable_limit, r2)) = parse_u8(r1) {
            if enable_limit == 1 {
                if let Some((limit_min, r3)) = parse_vec3(r2) {
                    if let Some((limit_max, r4)) = parse_vec3(r3) {
                        Some((PMXIKLink { ik_bone_index, enable_limit, limit_min, limit_max }, r4))
                    } else {
                        None
                    }
                } else {
                    None
                }
            } else {
                Some(
                    (
                        PMXIKLink {
                            ik_bone_index,
                            enable_limit,
                            limit_min: [0, 0, 0],
                            limit_max: [0, 0, 0],
                        },
                        r2,
                    ),
                )
            }
        } else {
            None
        }
    } else {
        None
    }
}

/// `n` IK links.
pub open spec fn parse_ik_links(s_bone_index: u8, bytes: Seq<u8>, n: nat) -> Option<
    (Seq<PMXIKLink>, Seq<u8>),
>
    decreases n,
{
    if n == 0 {
        Some((seq![], bytes))
    } else {
        if let Some((init, r1)) = parse_ik_links(s_bone_index, bytes, (n - 1) as nat) {
            if let Some((link, r2)) = parse_ik_link(s_bone_index, r1) {
                Some((init.push(link), r2))
            } else {
                None
            }
        } else {
            None
        }
    }
}

/// Three components when `present`, else zero and nothing read.
pub open spec fn parse_opt_vec3(present: bool, bytes: Seq<u8>) -> Option<(Vec3, Seq<u8>)> {
    if present {
        parse_vec3(bytes)
    } else {
        Some(([0, 0, 0], bytes))
    }
}

/// The bone's tail: a bone index when the flags say so (offset zero), else
/// an offset (index zero).
pub open spec fn parse_bone_tail(s_bone_index: u8, flags: u16, bytes: Seq<u8>) -> Option<
    ((i32, Vec3), Seq<u8>),
> {
    if has_all(flags, BONE_FLAG_TARGET_SHOW_MODE_MASK) {
        if let Some((child, r)) = parse_sized(s_bone_index, bytes) {
            Some(((child, [0, 0, 0]), r))
        } else {
            None
        }
    } else {
        if let Some((offset, r)) = parse_vec3(bytes) {
            Some(((0, offset), r))
        } else {
            None
        }
    }
}

/// The inherited bone and weight, or zeros when the flags say there are none.
pub open spec fn parse_bone_append(s_bone_index: u8, flags: u16, bytes: Seq<u8>) -> Option<
    ((i32, u32), Seq<u8>),
> {
    if has_any(flags, BONE_FLAG_APPEND_ROTATE_MASK | BONE_FLAG_APPEND_TRANSLATE_MASK) {
        if let Some((index, r1)) = parse_sized(s_bone_index, bytes) {
            if let Some((weight, r2)) = parse_float(r1) {
                Some(((index, weight), r2))
            } else {
                None
            }
        } else {
            None
        }
    } else {
        Some(((0, 0), bytes))
    }
}

/// The outer parent key, or zero when the flags say there is none.
pub open spec fn parse_bone_outer_parent(flags: u16, bytes: Seq<u8>) -> Option<(i32, Seq<u8>)> {
    if has_any(flags, BONE_FLAG_DEFORM_OUTER_PARENT_MASK) {
        parse_i32(bytes)
    } else {
        Some((0, bytes))
    }
}

/// The IK chain (target, iterations, limit, links), or zeros and no links
/// when the flags say the bone ends none.
pub open spec fn parse_bone_ik(s_bone_index: u8, flags: u16, bytes: Seq<u8>) -> Option<
    ((i32, i32, u32, Seq<PMXIKLink>), Seq<u8>),
> {
    if has_all(flags, BONE_FLAG_IK_MASK) {
    if let Some((target, r1)) = parse_sized(s_bone_index, bytes) {
        if let Some((iter, r2)) = parse_i32(r1) {
            if let Some((limit, r3)) = parse_float(r2) {
                if let Some((count, r4)) = parse_count(r3) {
                    if let Some((links, r5)) = parse_ik_links(s_bone_index, r4, count) {
                        Some(((target, iter, limit, links), r5))
                    } else {
                        None
                    }
                } else {
                    None
                }
            } else {
                None
            }
        } else {
            None
        }
    } else {
        None
    }
    } else {
        Some(((0, 0, 0, seq![]), bytes))
    }
}

/// A bone.
pub open spec fn parse_bone(s_bone_index: u8, bytes: Seq<u8>) -> Option<(PMXBoneView, Seq<u8>)> {
    if let Some((name, r1)) = parse_text(bytes) {
        if let Some((english_name, r2)) = parse_text(r1) {
            if let Some((position, r3)) = parse_vec3(r2) {
                if let Some((parent, r4)) = parse_sized(s_bone_index, r3) {
                    if let Some((deform_depth, r5)) = parse_i32(r4) {
                        if let Some((boneflag, r6)) = parse_u16(r5) {
                            if let Some((tail, r7)) = parse_bone_tail(s_bone_index, boneflag, r6) {
                                if let Some((append, r8)) = parse_bone_append(s_bone_index, boneflag, r7) {
                                    if let Some((fixed_axis, r9)) = parse_opt_vec3(has_all(boneflag, BONE_FLAG_FIXED_AXIS_MASK), r8) {
                                        if let Some((local_axis_x, r10)) = parse_opt_vec3(has_all(boneflag, BONE_FLAG_LOCAL_AXIS_MASK), r9) {
                                            if let Some((local_axis_z, r11)) = parse_opt_vec3(has_all(boneflag, BONE_FLAG_LOCAL_AXIS_MASK), r10) {
                                                if let Some((key_value, r12)) = parse_bone_outer_parent(boneflag, r11) {
                                                    if let Some((ik, r13)) = parse_bone_ik(s_bone_index, boneflag, r12) {
                                                        Some((PMXBoneView {
        name,
        english_name,
        position,
        parent,
        deform_depth,
        boneflag,
        offset: tail.1,
        child: tail.0,
        append_bone_index: append.0,
        append_weight: append.1,
        fixed_axis,
        local_axis_x,
        local_axis_z,
        key_value,
        ik_target_index: ik.0,
        ik_iter_count: ik.1,
        ik_limit: ik.2,
        ik_links: ik.3,
    }, r13))
                                                    } else {
                                                        None
                                                    }
                                                } else {
                                                    None
                                                }
                                            } else {
                                                None
                                            }
                                        } else {
                                            None
                                        }
                                    } else {
                                        None
                                    }
                                } else {
                                    None
                                }
                            } else {
                                None
                            }
                        } else {
                            None
                        }
                    } else {
                        None
                    }
                } else {
                    None
                }
            } else {
                None
            }
        } else {
            None
        }
    } else {
        None
    }
}

/// The code of the morph kind that a morph entry belongs to.
pub open spec fn morph_kind(e: MorphTypes) -> u8 {
    match e {
        MorphTypes::Group(_) => 0,
        MorphTypes::Vertex(_) => 1,
        MorphTypes::Bone(_) => 2,
        MorphTypes::UV(_) => 3,
        MorphTypes::UV1(_) => 4,
        MorphTypes::UV2(_) => 5,
        MorphTypes::UV3(_) => 6,
        MorphTypes::UV4(_) => 7,
        MorphTypes::Material(_) => 8,
    }
}

/// A UV morph entry.
pub open spec fn parse_uv_morph(s_vertex_index: u8, bytes: Seq<u8>) -> Option<(UVMorph, Seq<u8>)> {
    if let Some((index, r1)) = parse_sized(s_vertex_index, bytes) {
        if let Some((offset, r2)) = parse_vec4(r1) {
            Some((UVMorph { index, offset }, r2))
        } else {
            None
        }
    } else {
        None
    }
}

/// A material morph entry.
pub open spec fn parse_material_morph(s_material_index: u8, bytes: Seq<u8>) -> Option<
    (MaterialMorph, Seq<u8>),
> {
    if let Some((index, r1)) = parse_sized(s_material_index, bytes) {
        if let Some((formula, r2)) = parse_u8(r1) {
            if let Some((diffuse, r3)) = parse_vec4(r2) {
                if let Some((specular, r4)) = parse_vec3(r3) {
                    if let Some((specular_factor, r5)) = parse_float(r4) {
                        if let Some((ambient, r6)) = parse_vec3(r5) {
                            if let Some((edge_color, r7)) = parse_vec4(r6) {
                                if let Some((edge_size, r8)) = parse_float(r7) {
                                    if let Some((texture_factor, r9)) = parse_vec4(r8) {
                                        if let Some((sphere_texture_factor, r10)) = parse_vec4(r9) {
                                            if let Some((toon_texture_factor, r11)) = parse_vec4(r10) {
                                                Some((MaterialMorph {
        index,
        formula,
        diffuse,
        specular,
        specular_factor,
        ambient,
        edge_color,
        edge_size,
        texture_factor,
        sphere_texture_factor,
        toon_texture_factor,
    }, r11))
                                            } else {
                                                None
                                            }
                                        } else {
                                            None
                                        }
                                    } else {
                                        None
                                    }
                                } else {
                                    None
                                }
                            } else {
                                None
                            }
                        } else {
                            None
                        }
                    } else {
                        None
                    }
                } else {
                    None
                }
            } else {
                None
            }
        } else {
            None
        }
    } else {
        None
    }
}

/// One morph entry of the kind given by `kind`; codes above eight are not kinds.
pub open spec fn parse_morph_entry(
    kind: u8,
    s_vertex_index: u8,
    s_bone_index: u8,
    s_material_index: u8,
    s_morph_index: u8,
    bytes: Seq<u8>,
) -> Option<(MorphTypes, Seq<u8>)> {
    if kind == 0 {
    if let Some((index, r1)) = parse_sized(s_morph_index, bytes) {
        if let Some((morph_factor, r2)) = parse_float(r1) {
            Some((MorphTypes::Group(GroupMorph { index, morph_factor }), r2))
        } else {
            None
        }
    } else {
        None
    }
    } else if kind == 1 {
    if let Some((index, r1)) = parse_sized(s_vertex_index, bytes) {
        if let Some((offset, r2)) = parse_vec3(r1) {
            Some((MorphTypes::Vertex(VertexMorph { index, offset }), r2))
        } else {
            None
        }
    } else {
        None
    }
    } else if kind == 2 {
    if let Some((index, r1)) = parse_sized(s_bone_index, bytes) {
        if let Some((translates, r2)) = parse_vec3(r1) {
            if let Some((rotates, r3)) = parse_vec4(r2) {
                Some((MorphTypes::Bone(BoneMorph { index, translates, rotates }), r3))
            } else {
                None
            }
        } else {
            None
        }
    } else {
        None
    }
    } else if 3 <= kind <= 7 {
        if let Some((m, r1)) = parse_uv_morph(s_vertex_index, bytes) {
            Some(
                (
                    if kind == 3 {
                        MorphTypes::UV(m)
                    } else if kind == 4 {
                        MorphTypes::UV1(m)
                    } else if kind == 5 {
                        MorphTypes::UV2(m)
                    } else if kind == 6 {
                        MorphTypes::UV3(m)
                    } else {
                        MorphTypes::UV4(m)
                    },
                    r1,
                ),
            )
        } else {
            None
        }
    } else if kind == 8 {
        if let Some((m, r1)) = parse_material_morph(s_material_index, bytes) {
            Some((MorphTypes::Material(m), r1))
        } else {
            None
        }
    } else {
        None
    }
}

/// `n` morph entries of the kind given by `kind`.
pub open spec fn parse_morph_entries(
    kind: u8,
    s_vertex_index: u8,
    s_bone_index: u8,
    s_material_index: u8,
    s_morph_index: u8,
    bytes: Seq<u8>,
    n: nat,
) -> Option<(Seq<MorphTypes>, Seq<u8>)>
    decreases n,
{
    if n == 0 {
        Some((seq![], bytes))
    } else {
        if let Some((init, r1)) = parse_morph_entries(
            kind,
            s_vertex_index,
            s_bone_index,
            s_material_index,
            s_morph_index,
            bytes,
            (n - 1) as nat,
        ) {
            if let Some((e, r2)) = parse_morph_entry(
                kind,
                s_vertex_index,
                s_bone_index,
                s_material_index,
                s_morph_index,
                r1,
            ) {
                Some((init.push(e), r2))
            } else {
                None
            }
        } else {
            None
        }
    }
}

/// A morph; its kind byte decides how its entries are read.
pub open spec fn parse_morph(
    s_vertex_index: u8,
    s_bone_index: u8,
    s_material_index: u8,
    s_morph_index: u8,
    bytes: Seq<u8>,
) -> Option<(PMXMorphView, Seq<u8>)> {
    if let Some((name, r1)) = parse_text(bytes) {
        if let Some((english_name, r2)) = parse_text(r1) {
            if let Some((category, r3)) = parse_u8(r2) {
                if let Some((morph_type, r4)) = parse_u8(r3) {
                    if let Some((count, r5)) = parse_count(r4) {
                        if let Some((morph_data, r6)) = parse_morph_entries(morph_type, s_vertex_index, s_bone_index, s_material_index, s_morph_index, r5, count) {
                            Some((PMXMorphView { name, english_name, category, morph_type, morph_data }, r6))
                        } else {
                            None
                        }
                    } else {
                        None
                    }
                } else {
                    None
                }
            } else {
                None
            }
        } else {
            None
        }
    } else {
        None
    }
}

/// Whether a face reads back as itself: its indices fit in `s_vertex_index` bytes.
pub open spec fn face_fits(s_vertex_index: u8, face: PMXFace) -> bool {
    &&& vertex_index_fits(s_vertex_index, face.vertices[0])
    &&& vertex_index_fits(s_vertex_index, face.vertices[1])
    &&& vertex_index_fits(s_vertex_index, face.vertices[2])
}

/// Whether a material reads back as itself: its texts and texture indices fit.
pub open spec fn material_fits(s_texture_index: u8, m: PMXMaterialView) -> bool {
    &&& text_fits(m.name)
    &&& text_fits(m.english_name)
    &&& sized_fits(s_texture_index, m.texture_index)
    &&& sized_fits(s_texture_index, m.sphere_mode_texture_index)
    &&& match m.toon_mode {
        PMXToonMode::Separate => sized_fits(s_texture_index, m.toon_texture_index),
        PMXToonMode::Common => sized_fits(1, m.toon_texture_index),
    }
    &&& text_fits(m.memo)
}

/// Whether a vertex weight reads back as itself: its bone indices fit.
pub open spec fn weight_fits(s_bone_index: u8, w: PMXVertexWeight) -> bool {
    match w {
        PMXVertexWeight::BDEF1(index) => sized_fits(s_bone_index, index),
        PMXVertexWeight::BDEF2 { bone_index_1, bone_index_2, .. } => sized_fits(
            s_bone_index,
            bone_index_1,
        ) && sized_fits(s_bone_index, bone_index_2),
        PMXVertexWeight::BDEF4 { bone_index_1, bone_index_2, bone_index_3, bone_index_4, .. } => {
            &&& sized_fits(s_bone_index, bone_index_1)
            &&& sized_fits(s_bone_index, bone_index_2)
            &&& sized_fits(s_bone_index, bone_index_3)
            &&& sized_fits(s_bone_index, bone_index_4)
        },
        PMXVertexWeight::SDEF { bone_index_1, bone_index_2, .. } => sized_fits(
            s_bone_index,
            bone_index_1,
        ) && sized_fits(s_bone_index, bone_index_2),
        PMXVertexWeight::QDEF { bone_index_1, bone_index_2, bone_index_3, bone_index_4, .. } => {
            &&& sized_fits(s_bone_index, bone_index_1)
            &&& sized_fits(s_bone_index, bone_index_2)
            &&& sized_fits(s_bone_index, bone_index_3)
            &&& sized_fits(s_bone_index, bone_index_4)
        },
    }
}

/// Whether a vertex reads back as itself: at most four additional UV sets,
/// the unused UV slots zero, and its bone indices fit.
pub open spec fn vertex_fits(additional_uvs: u8, v: PMXVertex, s_bone_index: u8) -> bool {
    &&& additional_uvs <= 4
    &&& forall|i: int| additional_uvs <= i < 4 ==> v.add_uv[i] == [0u32, 0, 0, 0]
    &&& weight_fits(s_bone_index, v.weight_type)
}

/// Whether an IK link reads back as itself: its bone index fits, and its
/// limits are zero when they are not written.
pub open spec fn ik_link_fits(s_bone_index: u8, link: PMXIKLink) -> bool {
    &&& sized_fits(s_bone_index, link.ik_bone_index)
    &&& link.enable_limit != 1 ==> link.limit_min == [0u32, 0, 0] && link.limit_max == [
        0u32,
        0,
        0,
    ]
}

/// The three components `[0, 0, 0]`.
pub open spec fn zero3() -> Vec3 {
    [0u32, 0, 0]
}

/// Whether a bone reads back as itself: its texts and indices fit, the fields
/// that its flags leave out are zero, and its IK links fit.
pub open spec fn bone_fits(s_bone_index: u8, b: PMXBoneView) -> bool {
    &&& text_fits(b.name)
    &&& text_fits(b.english_name)
    &&& sized_fits(s_bone_index, b.parent)
    &&& if has_all(b.boneflag, BONE_FLAG_TARGET_SHOW_MODE_MASK) {
        sized_fits(s_bone_index, b.child) && b.offset == zero3()
    } else {
        b.child == 0
    }
    &&& if has_any(b.boneflag, BONE_FLAG_APPEND_ROTATE_MASK | BONE_FLAG_APPEND_TRANSLATE_MASK) {
        sized_fits(s_bone_index, b.append_bone_index)
    } else {
        b.append_bone_index == 0 && b.append_weight == 0
    }
    &&& !has_all(b.boneflag, BONE_FLAG_FIXED_AXIS_MASK) ==> b.fixed_axis == zero3()
    &&& !has_all(b.boneflag, BONE_FLAG_LOCAL_AXIS_MASK) ==> b.local_axis_x == zero3()
        && b.local_axis_z == zero3()
    &&& !has_any(b.boneflag, BONE_FLAG_DEFORM_OUTER_PARENT_MASK) ==> b.key_value == 0
    &&& if has_all(b.boneflag, BONE_FLAG_IK_MASK) {
        &&& sized_fits(s_bone_index, b.ik_target_index)
        &&& b.ik_links.len() < 0x8000_0000
        &&& forall|i: int|
            0 <= i < b.ik_links.len() ==> ik_link_fits(s_bone_index, #[trigger] b.ik_links[i])
    } else {
        &&& b.ik_target_index == 0
        &&& b.ik_iter_count == 0
        &&& b.ik_limit == 0
        &&& b.ik_links.len() == 0
    }
}

/// Whether a morph entry reads back as itself in a morph of kind `kind`: it
/// is of that kind and its index fits.
pub open spec fn morph_entry_fits(
    kind: u8,
    s_vertex_index: u8,
    s_bone_index: u8,
    s_material_index: u8,
    s_morph_index: u8,
    e: MorphTypes,
) -> bool {
    &&& morph_kind(e) == kind
    &&& match e {
        MorphTypes::Vertex(m) => sized_fits(s_vertex_index, m.index),
        MorphTypes::UV(m) => sized_fits(s_vertex_index, m.index),
        MorphTypes::UV1(m) => sized_fits(s_vertex_index, m.index),
        MorphTypes::UV2(m) => sized_fits(s_vertex_index, m.index),
        MorphTypes::UV3(m) => sized_fits(s_vertex_index, m.index),
        MorphTypes::UV4(m) => sized_fits(s_vertex_index, m.index),
        MorphTypes::Bone(m) => sized_fits(s_bone_index, m.index),
        MorphTypes::Material(m) => sized_fits(s_material_index, m.index),
        MorphTypes::Group(m) => sized_fits(s_morph_index, m.index),
    }
}

/// Whether a morph reads back as itself: its texts fit, it has fewer than
/// `2^31` entries, and every entry is of the morph's kind with an index that fits.
pub open spec fn morph_fits(
    s_vertex_index: u8,
    s_bone_index: u8,
    s_material_index: u8,
    s_morph_index: u8,
    m: PMXMorphView,
) -> bool {
    &&& text_fits(m.name)
    &&& text_fits(m.english_name)
    &&& m.morph_data.len() < 0x8000_0000
    &&& forall|i: int|
        0 <= i < m.morph_data.len() ==> morph_entry_fits(
            m.morph_type,
            s_vertex_index,
            s_bone_index,
            s_material_index,
            s_morph_index,
            #[trigger] m.morph_data[i],
        )
}

/// Once an additional UV set fails to read, reading more of them fails too.
pub proof fn lemma_add_uvs_stop(bytes: Seq<u8>, i: nat, n: nat)
    requires
        i < n,
        parse_add_uvs(bytes, i) matches Some((_, r)) && parse_vec4(r) is None,
    ensures
        parse_add_uvs(bytes, n) is None,
    decreases n,
{
    if n > i + 1 {
        lemma_add_uvs_stop(bytes, i, (n - 1) as nat);
    }
}

/// Once an IK link fails to read, reading more of them fails too.
pub proof fn lemma_ik_links_stop(s_bone_index: u8, bytes: Seq<u8>, i: nat, n: nat)
    requires
        i < n,
        parse_ik_links(s_bone_index, bytes, i) matches Some((_, r)) && parse_ik_link(
            s_bone_index,
            r,
        ) is None,
    ensures
        parse_ik_links(s_bone_index, bytes, n) is None,
    decreases n,
{
    if n > i + 1 {
        lemma_ik_links_stop(s_bone_index, bytes, i, (n - 1) as nat);
    }
}

/// Once a morph entry fails to read, reading more of them fails too.
pub proof fn lemma_morph_entries_stop(
    kind: u8,
    s_vertex_index: u8,
    s_bone_index: u8,
    s_material_index: u8,
    s_morph_index: u8,
    bytes: Seq<u8>,
    i: nat,
    n: nat,
)
    requires
        i < n,
        parse_morph_entries(
            kind,
            s_vertex_index,
            s_bone_index,
            s_material_index,
            s_morph_index,
            bytes,
            i,
        ) matches Some((_, r)) && parse_morph_entry(
            kind,
            s_vertex_index,
            s_bone_index,
            s_material_index,
            s_morph_index,
            r,
        ) is None,
    ensures
        parse_morph_entries(
            kind,
            s_vertex_index,
            s_bone_index,
            s_material_index,
            s_morph_index,
            bytes,
            n,
        ) is None,
    decreases n,
{
    if n > i + 1 {
        lemma_morph_entries_stop(
            kind,
            s_vertex_index,
            s_bone_index,
            s_material_index,
            s_morph_index,
            bytes,
            i,
            (n - 1) as nat,
        );
    }
}

} // verus!
