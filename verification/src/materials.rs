//! The material decoders: standard material definitions with their
//! texture layers, and shader materials with their typed property
//! lists.

use vstd::prelude::*;

use crate::codec::Reader;
use crate::model::{
    ActorView, XacActorFile, XacActorMaterial, XacActorMaterialLayer, XacBoolProperty, XacError,
    XacFloatProperty, XacIntProperty, XacShaderMaterial, XacStringProperty,
};
use crate::spec_format::{
    sp_bool_prop_run, sp_float_prop_run, sp_int_prop_run, sp_layer, sp_layer_run,
    sp_material_definition, sp_shader_material, sp_string_prop_run,
};

verus! {

/// A material-definition chunk: four colors, four scalars, two flags,
/// the layer count, the material name, then the layers in encounter
/// order. The finished material is appended to the actor.
#[verifier::loop_isolation(false)]
#[verifier::rlimit(100)]
pub fn read_material_definition(r: &mut Reader, xac: &mut XacActorFile) -> (res: Result<
    (),
    XacError,
>)
    requires
        old(r).wf(),
    ensures
        final(r).wf(),
        final(r).data == old(r).data,
        (match res {
            Ok(_) => sp_material_definition(old(r).bytes(), old(r).pos as int, old(xac)@) == Ok::<
                (ActorView, int),
                XacError,
            >((final(xac)@, final(r).pos as int)),
            Err(e) => sp_material_definition(old(r).bytes(), old(r).pos as int, old(xac)@) == Err::<
                (ActorView, int),
                XacError,
            >(e),
        }),
{
    proof {
        reveal(sp_material_definition);
    }
    let ghost s = old(r).bytes();
    let ambient_color = match r.read_vec4() {
        Ok(v) => v,
        Err(e) => {
            return Err(e);
        },
    };
    let diffuse_color = match r.read_vec4() {
        Ok(v) => v,
        Err(e) => {
            return Err(e);
        },
    };
    let specular_color = match r.read_vec4() {
        Ok(v) => v,
        Err(e) => {
            return Err(e);
        },
    };
    let emissive_color = match r.read_vec4() {
        Ok(v) => v,
        Err(e) => {
            return Err(e);
        },
    };
    let shine = match r.read_u32() {
        Ok(v) => v,
        Err(e) => {
            return Err(e);
        },
    };
    let shine_strength = match r.read_u32() {
        Ok(v) => v,
        Err(e) => {
            return Err(e);
        },
    };
    let opacity = match r.read_u32() {
        Ok(v) => v,
        Err(e) => {
            return Err(e);
        },
    };
    let ior = match r.read_u32() {
        Ok(v) => v,
        Err(e) => {
            return Err(e);
        },
    };
    let double_sided = match r.read_bool() {
        Ok(v) => v,
        Err(e) => {
            return Err(e);
        },
    };
    let wireframe = match r.read_bool() {
        Ok(v) => v,
        Err(e) => {
            return Err(e);
        },
    };
    match r.skip(1) {
        Ok(_) => {},
        Err(e) => {
            return Err(e);
        },
    };
    let num_layers = match r.read_u8() {
        Ok(v) => v,
        Err(e) => {
            return Err(e);
        },
    };
    let name = match r.read_string() {
        Ok(v) => v,
        Err(e) => {
            return Err(e);
        },
    };
    let ghost layer_start = r.pos as int;
    let n: usize = num_layers as usize;
    let mut layers: Vec<XacActorMaterialLayer> = Vec::new();
    let mut i: usize = 0;
    proof {
        assert(layers@.map_values(|l: XacActorMaterialLayer| l@) =~= Seq::empty());
    }
    while i < n
        invariant
            i <= n,
            r.wf(),
            r.bytes() == s,
            r.data == old(r).data,
            sp_layer_run(s, layer_start, Seq::empty(), n as int) == sp_layer_run(
                s,
                r.pos as int,
                layers@.map_values(|l: XacActorMaterialLayer| l@),
                n - i,
            ),
        decreases n - i,
    {
        let ghost p_it = r.pos as int;
        let ghost acc_it = layers@.map_values(|l: XacActorMaterialLayer| l@);
        let amount = match r.read_u32() {
            Ok(v) => v,
            Err(e) => {
                return Err(e);
            },
        };
        let u_offset = match r.read_u32() {
            Ok(v) => v,
            Err(e) => {
                return Err(e);
            },
        };
        let v_offset = match r.read_u32() {
            Ok(v) => v,
            Err(e) => {
                return Err(e);
            },
        };
        let u_tiling = match r.read_u32() {
            Ok(v) => v,
            Err(e) => {
                return Err(e);
            },
        };
        let v_tiling = match r.read_u32() {
            Ok(v) => v,
            Err(e) => {
                return Err(e);
            },
        };
        let rotation = match r.read_u32() {
            Ok(v) => v,
            Err(e) => {
                return Err(e);
            },
        };
        let material_id = match r.read_i16() {
            Ok(v) => v,
            Err(e) => {
                return Err(e);
            },
        };
        let map_type = match r.read_u8() {
            Ok(v) => v,
            Err(e) => {
                return Err(e);
            },
        };
        match r.skip(1) {
            Ok(_) => {},
            Err(e) => {
                return Err(e);
            },
        };
        let texture = match r.read_string() {
            Ok(v) => v,
            Err(e) => {
                return Err(e);
            },
        };
        let layer = XacActorMaterialLayer {
            name: texture,
            amount,
            u_offset,
            v_offset,
            u_tiling,
            v_tiling,
            rotation,
            material_id,
            map_type,
        };
        proof {
            assert(sp_layer(s, p_it) == Ok::<_, XacError>((layer@, r.pos as int)));
        }
        layers.push(layer);
        proof {
            assert(layers@.map_values(|l: XacActorMaterialLayer| l@) =~= acc_it.push(layer@));
        }
        i = i + 1;
    }
    let ghost old_materials = xac@.materials;
    let material = XacActorMaterial {
        name,
        ambient_color,
        diffuse_color,
        specular_color,
        emissive_color,
        shine,
        shine_strength,
        opacity,
        ior,
        double_sided,
        wireframe,
        layers,
    };
    xac.materials.push(material);
    proof {
        assert(xac.materials@.map_values(|m: XacActorMaterial| m@) =~= old_materials.push(
            xac.materials@[xac.materials@.len() - 1]@,
        ));
    }
    Ok(())
}

/// A shader-material chunk: counts, flag, the two names, then in fixed
/// order the integer, float and boolean properties, a skipped reserved
/// block, and the string properties. The result is appended to the
/// actor.
#[verifier::loop_isolation(false)]
#[verifier::rlimit(100)]
pub fn read_shader_material(r: &mut Reader, xac: &mut XacActorFile) -> (res: Result<(), XacError>)
    requires
        old(r).wf(),
    ensures
        final(r).wf(),
        final(r).data == old(r).data,
        (match res {
            Ok(_) => sp_shader_material(old(r).bytes(), old(r).pos as int, old(xac)@) == Ok::<
                (ActorView, int),
                XacError,
            >((final(xac)@, final(r).pos as int)),
            Err(e) => sp_shader_material(old(r).bytes(), old(r).pos as int, old(xac)@) == Err::<
                (ActorView, int),
                XacError,
            >(e),
        }),
{
    proof {
        reveal(sp_shader_material);
    }
    let ghost s = old(r).bytes();
    let num_int = match r.read_i32() {
        Ok(v) => v,
        Err(e) => {
            return Err(e);
        },
    };
    let num_float = match r.read_i32() {
        Ok(v) => v,
        Err(e) => {
            return Err(e);
        },
    };
    match r.skip(4) {
        Ok(_) => {},
        Err(e) => {
            return Err(e);
        },
    };
    let num_bool = match r.read_i32() {
        Ok(v) => v,
        Err(e) => {
            return Err(e);
        },
    };
    let flag = match r.read_i32() {
        Ok(v) => v,
        Err(e) => {
            return Err(e);
        },
    };
    let num_string = match r.read_i32() {
        Ok(v) => v,
        Err(e) => {
            return Err(e);
        },
    };
    let name_material = match r.read_string() {
        Ok(v) => v,
        Err(e) => {
            return Err(e);
        },
    };
    let name_shader = match r.read_string() {
        Ok(v) => v,
        Err(e) => {
            return Err(e);
        },
    };

    // Integer properties.
    let ghost int_start = r.pos as int;
    let ghost mi = num_int as int;
    let ni: usize = if num_int < 0 {
        0
    } else {
        num_int as usize
    };
    let mut int_property: Vec<XacIntProperty> = Vec::new();
    let mut i: usize = 0;
    proof {
        assert(int_property@.map_values(|p: XacIntProperty| p@) =~= Seq::empty());
    }
    while i < ni
        invariant
            i <= ni,
            r.wf(),
            r.bytes() == s,
            r.data == old(r).data,
            sp_int_prop_run(s, int_start, Seq::empty(), mi) == sp_int_prop_run(
                s,
                r.pos as int,
                int_property@.map_values(|p: XacIntProperty| p@),
                mi - i,
            ),
        decreases ni - i,
    {
        let ghost acc_it = int_property@.map_values(|p: XacIntProperty| p@);
        let pname = match r.read_string() {
            Ok(v) => v,
            Err(e) => {
                return Err(e);
            },
        };
        let value = match r.read_i32() {
            Ok(v) => v,
            Err(e) => {
                return Err(e);
            },
        };
        let prop = XacIntProperty { name_properties: pname, value };
        int_property.push(prop);
        proof {
            assert(int_property@.map_values(|p: XacIntProperty| p@) =~= acc_it.push(
                int_property@[int_property@.len() - 1]@,
            ));
        }
        i = i + 1;
    }

    // Float properties.
    let ghost float_start = r.pos as int;
    let ghost mf = num_float as int;
    let nf: usize = if num_float < 0 {
        0
    } else {
        num_float as usize
    };
    let mut float_property: Vec<XacFloatProperty> = Vec::new();
    let mut j: usize = 0;
    proof {
        assert(float_property@.map_values(|p: XacFloatProperty| p@) =~= Seq::empty());
    }
    while j < nf
        invariant
            j <= nf,
            r.wf(),
            r.bytes() == s,
            r.data == old(r).data,
            sp_float_prop_run(s, float_start, Seq::empty(), mf) == sp_float_prop_run(
                s,
                r.pos as int,
                float_property@.map_values(|p: XacFloatProperty| p@),
                mf - j,
            ),
        decreases nf - j,
    {
        let ghost acc_it = float_property@.map_values(|p: XacFloatProperty| p@);
        let pname = match r.read_string() {
            Ok(v) => v,
            Err(e) => {
                return Err(e);
            },
        };
        let value = match r.read_u32() {
            Ok(v) => v,
            Err(e) => {
                return Err(e);
            },
        };
        let prop = XacFloatProperty { name_properties: pname, value };
        float_property.push(prop);
        proof {
            assert(float_property@.map_values(|p: XacFloatProperty| p@) =~= acc_it.push(
                float_property@[float_property@.len() - 1]@,
            ));
        }
        j = j + 1;
    }

    // Boolean properties.
    let ghost bool_start = r.pos as int;
    let ghost mb = num_bool as int;
    let nb: usize = if num_bool < 0 {
        0
    } else {
        num_bool as usize
    };
    let mut bool_property: Vec<XacBoolProperty> = Vec::new();
    let mut k: usize = 0;
    proof {
        assert(bool_property@.map_values(|p: XacBoolProperty| p@) =~= Seq::empty());
    }
    while k < nb
        invariant
            k <= nb,
            r.wf(),
            r.bytes() == s,
            r.data == old(r).data,
            sp_bool_prop_run(s, bool_start, Seq::empty(), mb) == sp_bool_prop_run(
                s,
                r.pos as int,
                bool_property@.map_values(|p: XacBoolProperty| p@),
                mb - k,
            ),
        decreases nb - k,
    {
        let ghost acc_it = bool_property@.map_values(|p: XacBoolProperty| p@);
        let pname = match r.read_string() {
            Ok(v) => v,
            Err(e) => {
                return Err(e);
            },
        };
        let value = match r.read_u8() {
            Ok(v) => v,
            Err(e) => {
                return Err(e);
            },
        };
        let prop = XacBoolProperty { name_properties: pname, value };
        bool_property.push(prop);
        proof {
            assert(bool_property@.map_values(|p: XacBoolProperty| p@) =~= acc_it.push(
                bool_property@[bool_property@.len() - 1]@,
            ));
        }
        k = k + 1;
    }

    // Reserved byte block: length then raw bytes to skip.
    let reserved = match r.read_i32() {
        Ok(v) => v,
        Err(e) => {
            return Err(e);
        },
    };
    let skip_count: u64 = if reserved < 0 {
        0
    } else {
        reserved as u64
    };
    match r.skip(skip_count) {
        Ok(_) => {},
        Err(e) => {
            return Err(e);
        },
    };

    // String properties.
    let ghost string_start = r.pos as int;
    let ghost ms = num_string as int;
    let ns: usize = if num_string < 0 {
        0
    } else {
        num_string as usize
    };
    let mut string_property: Vec<XacStringProperty> = Vec::new();
    let mut l: usize = 0;
    proof {
        assert(string_property@.map_values(|p: XacStringProperty| p@) =~= Seq::empty());
    }
    while l < ns
        invariant
            l <= ns,
            r.wf(),
            r.bytes() == s,
            r.data == old(r).data,
            sp_string_prop_run(s, string_start, Seq::empty(), ms) == sp_string_prop_run(
                s,
                r.pos as int,
                string_property@.map_values(|p: XacStringProperty| p@),
                ms - l,
            ),
        decreases ns - l,
    {
        let ghost acc_it = string_property@.map_values(|p: XacStringProperty| p@);
        let pname = match r.read_string() {
            Ok(v) => v,
            Err(e) => {
                return Err(e);
            },
        };
        let value = match r.read_string() {
            Ok(v) => v,
            Err(e) => {
                return Err(e);
            },
        };
        let prop = XacStringProperty { name_properties: pname, value };
        string_property.push(prop);
        proof {
            assert(string_property@.map_values(|p: XacStringProperty| p@) =~= acc_it.push(
                string_property@[string_property@.len() - 1]@,
            ));
        }
        l = l + 1;
    }

    let ghost old_shader_materials = xac@.shader_materials;
    let shader_material = XacShaderMaterial {
        num_int,
        num_float,
        num_bool,
        num_string,
        flag,
        name_material,
        name_shader,
        int_property,
        float_property,
        bool_property,
        string_property,
    };
    xac.shader_materials.push(shader_material);
    proof {
        assert(xac.shader_materials@.map_values(|m: XacShaderMaterial| m@)
            =~= old_shader_materials.push(
            xac.shader_materials@[xac.shader_materials@.len() - 1]@,
        ));
    }
    Ok(())
}

} // verus!
