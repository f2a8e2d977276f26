use vstd::prelude::*;

use crate::texture::Texture;

verus! {

/// Bit pattern of the single-precision float `1.0`.
pub const F32_ONE: u32 = 0x3f80_0000;

/// Bit pattern of the single-precision float negative infinity.
pub const F32_NEG_INFINITY: u32 = 0xff80_0000;

/// Bit pattern of the smallest negative single-precision float (`-0.0`).
pub const F32_NEG_ZERO: u32 = 0x8000_0000;

/// Shader flag: the material samples its normal map to perturb the surface normal.
/// It must match the flag of the same name in the shaders.
pub const USE_NORMAL_MAP: u32 = 1;

/// No shader flag set.
pub const MATERIAL_FLAGS_NONE: u32 = 0;

/// The float with bit pattern `bits` equals `1.0`.
pub open spec fn f32_is_one(bits: u32) -> bool {
    bits == F32_ONE
}

/// The float with bit pattern `bits` compares less than `1.0`: every non-negative float
/// below one, every negative float down to negative infinity, and no NaN.
pub open spec fn f32_below_one(bits: u32) -> bool {
    bits < F32_ONE || (F32_NEG_ZERO <= bits && bits <= F32_NEG_INFINITY)
}

/// Placement of an object: translation, rotation quaternion and scale, each component
/// the bit pattern of a single-precision float.
#[derive(Debug, Clone, Copy)]
pub struct Transform {
    pub translation: [u32; 3],
    pub rotation: [u32; 4],
    pub scale: [u32; 3],
}

/// The transforms of the copies of a mesh that are drawn with one instanced draw call.
#[derive(Debug, Clone)]
pub struct Instances(pub Vec<Transform>);

/// Surface parameters of a sub-mesh. Scalars are single-precision bit patterns.
#[derive(Debug, Clone)]
pub struct Material {
    pub name: String,
    pub base_color: [u32; 4],
    pub alpha: u32,
    pub gloss: u32,
    pub specular: [u32; 3],
    pub diffuse_texture: Texture,
    pub normal_texture: Option<Texture>,
    pub specular_texture: Option<Texture>,
}

/// The values uploaded to a material's uniform buffer (scalars as bit patterns).
#[derive(Debug, Clone, Copy)]
pub struct MaterialUniform {
    pub base_color: [u32; 4],
    pub alpha: u32,
    pub gloss: u32,
    pub specular: [u32; 3],
    pub flags: u32,
}

/// The material used where a model names none: white, fully opaque, glossy, with a white
/// diffuse texture and no other maps.
pub open spec fn is_default_material(r: Material) -> bool {
    &&& r.name@ == "Default Material"@
    &&& r.base_color == [F32_ONE, F32_ONE, F32_ONE, F32_ONE]
    &&& r.alpha == F32_ONE
    &&& r.gloss == F32_ONE
    &&& r.specular == [F32_ONE, F32_ONE, F32_ONE]
    &&& r.diffuse_texture.wf()
    &&& crate::texture::is_white_placeholder(r.diffuse_texture)
    &&& r.normal_texture is None
    &&& r.specular_texture is None
}

/// The materials of a loaded model: those it has, or the default material alone when it
/// has none.
pub fn materials_or_default(materials: Vec<Material>) -> (r: Vec<Material>)
    ensures
        materials@.len() > 0 ==> r@ == materials@,
        materials@.len() == 0 ==> r@.len() == 1 && is_default_material(r@[0]),
{
    let mut r = materials;
    if r.len() == 0 {
        r.push(Material::default());
    }
    r
}

/// The shader flags that describe a material.
pub open spec fn flags_of(m: Material) -> u32 {
    if m.normal_texture is Some {
        USE_NORMAL_MAP
    } else {
        MATERIAL_FLAGS_NONE
    }
}

/// The uniform that describes a material.
pub open spec fn uniform_of(m: Material) -> MaterialUniform {
    MaterialUniform {
        base_color: m.base_color,
        alpha: m.alpha,
        gloss: m.gloss,
        specular: m.specular,
        flags: flags_of(m),
    }
}

impl Material {
    /// Drawn by the opaque pass: alpha is exactly one.
    pub open spec fn opaque(&self) -> bool {
        f32_is_one(self.alpha)
    }

    /// Drawn by the transparent pass: alpha is below one.
    pub open spec fn translucent(&self) -> bool {
        f32_below_one(self.alpha)
    }

    pub fn is_opaque(&self) -> (r: bool)
        ensures
            r == self.opaque(),
    {
        self.alpha == F32_ONE
    }

    pub fn is_translucent(&self) -> (r: bool)
        ensures
            r == self.translucent(),
    {
        self.alpha < F32_ONE || (F32_NEG_ZERO <= self.alpha && self.alpha <= F32_NEG_INFINITY)
    }

    pub fn flags(&self) -> (r: u32)
        ensures
            r == flags_of(*self),
    {
        if self.normal_texture.is_some() {
            USE_NORMAL_MAP
        } else {
            MATERIAL_FLAGS_NONE
        }
    }

    pub fn uniform(&self) -> (r: MaterialUniform)
        ensures
            r == uniform_of(*self),
    {
        MaterialUniform {
            base_color: self.base_color,
            alpha: self.alpha,
            gloss: self.gloss,
            specular: self.specular,
            flags: self.flags(),
        }
    }

    /// The texture bound as normal map: the material's own, else `placeholder`.
    pub fn normal_texture_or<'a>(&'a self, placeholder: &'a Texture) -> (r: &'a Texture)
        ensures
            r == (match self.normal_texture {
                Some(t) => t,
                None => *placeholder,
            }),
    {
        match &self.normal_texture {
            Some(t) => t,
            None => placeholder,
        }
    }

    /// The texture bound as specular map: the material's own, else `placeholder`.
    pub fn specular_texture_or<'a>(&'a self, placeholder: &'a Texture) -> (r: &'a Texture)
        ensures
            r == (match self.specular_texture {
                Some(t) => t,
                None => *placeholder,
            }),
    {
        match &self.specular_texture {
            Some(t) => t,
            None => placeholder,
        }
    }

    /// A white, fully opaque material with a white diffuse texture and no other maps.
    pub fn default() -> (r: Material)
        ensures
            is_default_material(r),
    {
        Material {
            name: "Default Material".to_owned(),
            base_color: [F32_ONE, F32_ONE, F32_ONE, F32_ONE],
            alpha: F32_ONE,
            gloss: F32_ONE,
            specular: [F32_ONE, F32_ONE, F32_ONE],
            diffuse_texture: Texture::default_white(),
            normal_texture: None,
            specular_texture: None,
        }
    }
}

/// One drawable part of a model: an indexed triangle list and the material it uses.
/// Its vertex and index data live in GPU buffers kept beside the model.
#[derive(Debug, Clone)]
pub struct ModelMesh {
    pub name: String,
    /// Number of indices drawn.
    pub num_elements: u32,
    pub material_id: Option<usize>,
}

impl ModelMesh {
    /// The material a mesh is drawn with: its own index, the first material without one.
    pub open spec fn material_index(&self) -> nat {
        match self.material_id {
            Some(i) => i as nat,
            None => 0,
        }
    }

    pub fn material(&self) -> (r: usize)
        ensures
            r == self.material_index(),
    {
        match self.material_id {
            Some(i) => i,
            None => 0,
        }
    }
}

/// A set of meshes and the materials they refer to.
#[derive(Debug, Clone)]
pub struct Model {
    pub meshes: Vec<ModelMesh>,
    pub materials: Vec<Material>,
}

impl Model {
    /// The material of mesh `i`, when its index names one.
    pub open spec fn mesh_material(&self, i: int) -> Option<Material> {
        let k = self.meshes@[i].material_index();
        if k < self.materials@.len() {
            Some(self.materials@[k as int])
        } else {
            None
        }
    }
}

} // verus!
