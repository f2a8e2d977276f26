use vstd::prelude::*;

use crate::model::{f32_below_one, f32_is_one, F32_NEG_INFINITY, F32_NEG_ZERO, F32_ONE};
use crate::passes::PassKind;
use crate::scene::{placement_rows, synced_from, Scene, SceneEntity};

verus! {

/// One indexed draw: mesh `mesh` of entity `entity`, its `index_count` indices, instances
/// `0..instances`, with material bind group `material` when the pass binds one.
#[derive(Debug, Clone, Copy, PartialEq, Eq, Structural)]
pub struct DrawCall {
    pub entity: usize,
    pub mesh: usize,
    pub material: Option<usize>,
    pub index_count: u32,
    pub instances: u32,
}

/// Number of instances drawn for an entity: the rows of its instance buffer.
pub open spec fn instance_count(e: SceneEntity) -> Option<u32> {
    match e.instance_buffer {
        Some(b) => if b.rows <= u32::MAX {
            Some(b.rows as u32)
        } else {
            None
        },
        None => None,
    }
}

/// The entity takes part in the opaque and transparent passes: a model, its instance
/// buffer (with a count one draw call can carry) and material bundles, no light, no
/// transparent marker.
pub open spec fn in_material_passes(e: SceneEntity) -> bool {
    &&& e.model is Some
    &&& instance_count(e) is Some
    &&& e.gpu_materials is Some
    &&& e.light is None
    &&& !e.transparent
}

/// The material bundle index of mesh `j`, when a bundle exists for it.
pub open spec fn bundle_index(e: SceneEntity, j: int) -> Option<nat> {
    let k = e.model->0.meshes@[j].material_index();
    if k < e.gpu_materials->0.data@.len() {
        Some(k)
    } else {
        None
    }
}

/// Mesh `j` of `e` is drawn by `pass`.
pub open spec fn mesh_drawn(e: SceneEntity, pass: PassKind, j: int) -> bool {
    match pass {
        PassKind::Opaque => in_material_passes(e) && bundle_index(e, j) is Some
            && f32_is_one(e.gpu_materials->0.data@[bundle_index(e, j)->0 as int].uniform.alpha),
        PassKind::Transparent => in_material_passes(e) && bundle_index(e, j) is Some
            && f32_below_one(e.gpu_materials->0.data@[bundle_index(e, j)->0 as int].uniform.alpha),
        PassKind::Light => e.light is Some && e.model is Some,
        PassKind::Wireframe => e.wireframe && e.model is Some && instance_count(e) is Some && e.light is None,
        _ => false,
    }
}

/// The draw call for mesh `j` of entity `idx` in `pass`.
pub open spec fn draw_of(e: SceneEntity, idx: usize, pass: PassKind, j: int) -> DrawCall {
    DrawCall {
        entity: idx,
        mesh: j as usize,
        material: match pass {
            PassKind::Opaque | PassKind::Transparent => Some(bundle_index(e, j)->0 as usize),
            _ => None,
        },
        index_count: e.model->0.meshes@[j].num_elements,
        instances: match pass {
            PassKind::Light => 1,
            _ => instance_count(e)->0,
        },
    }
}

/// The draws of the first `m` meshes of `e`.
pub open spec fn mesh_draws(e: SceneEntity, idx: usize, pass: PassKind, m: nat) -> Seq<DrawCall>
    decreases m,
{
    if m == 0 {
        Seq::empty()
    } else {
        let prev = mesh_draws(e, idx, pass, (m - 1) as nat);
        if mesh_drawn(e, pass, m - 1) {
            prev.push(draw_of(e, idx, pass, m - 1))
        } else {
            prev
        }
    }
}

pub open spec fn entity_draws(e: SceneEntity, idx: usize, pass: PassKind) -> Seq<DrawCall> {
    match e.model {
        Some(m) => mesh_draws(e, idx, pass, m.meshes@.len()),
        None => Seq::empty(),
    }
}

/// The draws of the first `n` entities, in entity order.
pub open spec fn scene_draws(s: Seq<SceneEntity>, pass: PassKind, n: nat) -> Seq<DrawCall>
    decreases n,
{
    if n == 0 {
        Seq::empty()
    } else {
        scene_draws(s, pass, (n - 1) as nat) + entity_draws(s[n - 1], (n - 1) as usize, pass)
    }
}

fn instance_count_of(e: &SceneEntity) -> (r: Option<u32>)
    ensures
        r == instance_count(*e),
{
    match e.instance_buffer {
        Some(b) => if b.rows <= u32::MAX as usize {
            Some(b.rows as u32)
        } else {
            None
        },
        None => None,
    }
}

fn alpha_is_one(bits: u32) -> (r: bool)
    ensures
        r == f32_is_one(bits),
{
    bits == F32_ONE
}

fn alpha_below_one(bits: u32) -> (r: bool)
    ensures
        r == f32_below_one(bits),
{
    bits < F32_ONE || (F32_NEG_ZERO <= bits && bits <= F32_NEG_INFINITY)
}

fn is_mesh_drawn(e: &SceneEntity, pass: PassKind, j: usize) -> (r: bool)
    requires
        e.model is Some,
        j < e.model->0.meshes@.len(),
    ensures
        r == mesh_drawn(*e, pass, j as int),
{
    match pass {
        PassKind::Opaque | PassKind::Transparent => {
            let count = instance_count_of(e);
            if e.light.is_some() || e.transparent || count.is_none() {
                return false;
            }
            match (&e.model, &e.gpu_materials) {
                (Some(m), Some(g)) => {
                    let k = m.meshes[j].material();
                    if k >= g.data.len() {
                        return false;
                    }
                    let alpha = g.data[k].uniform.alpha;
                    match pass {
                        PassKind::Opaque => alpha_is_one(alpha),
                        _ => alpha_below_one(alpha),
                    }
                },
                _ => false,
            }
        },
        PassKind::Light => e.light.is_some(),
        PassKind::Wireframe => e.wireframe && e.light.is_none() && instance_count_of(e).is_some(),
        _ => false,
    }
}

fn draw_call(e: &SceneEntity, idx: usize, pass: PassKind, j: usize) -> (r: DrawCall)
    requires
        e.model is Some,
        j < e.model->0.meshes@.len(),
        mesh_drawn(*e, pass, j as int),
    ensures
        r == draw_of(*e, idx, pass, j as int),
{
    let m = match &e.model {
        Some(m) => m,
        None => { return DrawCall { entity: idx, mesh: j, material: None, index_count: 0, instances: 0 }; },
    };
    let mesh = &m.meshes[j];
    let material = match pass {
        PassKind::Opaque | PassKind::Transparent => Some(mesh.material()),
        _ => None,
    };
    let instances = match pass {
        PassKind::Light => 1,
        _ => match instance_count_of(e) {
            Some(c) => c,
            None => 0,
        },
    };
    DrawCall { entity: idx, mesh: j, material, index_count: mesh.num_elements, instances }
}

fn plan_entity(e: &SceneEntity, idx: usize, pass: PassKind, out: &mut Vec<DrawCall>)
    ensures
        final(out)@ == old(out)@ + entity_draws(*e, idx, pass),
{
    let m = match &e.model {
        Some(m) => m,
        None => {
            assert(old(out)@ + entity_draws(*e, idx, pass) =~= old(out)@);
            return;
        },
    };
    let n = m.meshes.len();
    let mut j: usize = 0;
    while j < n
        invariant
            e.model == Some(*m),
            n == m.meshes@.len(),
            j <= n,
            out@ == old(out)@ + mesh_draws(*e, idx, pass, j as nat),
        decreases n - j,
    {
        if is_mesh_drawn(e, pass, j) {
            out.push(draw_call(e, idx, pass, j));
        }
        assert(out@ =~= old(out)@ + mesh_draws(*e, idx, pass, (j + 1) as nat));
        j = j + 1;
    }
}

impl Scene {
    /// The draw calls of `pass`, entity by entity and mesh by mesh.
    pub fn plan_draws(&self, pass: PassKind) -> (r: Vec<DrawCall>)
        ensures
            r@ == scene_draws(self.entities@, pass, self.entities@.len()),
    {
        let mut r: Vec<DrawCall> = Vec::new();
        let n = self.entities.len();
        let mut i: usize = 0;
        while i < n
            invariant
                n == self.entities@.len(),
                i <= n,
                r@ == scene_draws(self.entities@, pass, i as nat),
            decreases n - i,
        {
            plan_entity(&self.entities[i], i, pass, &mut r);
            i = i + 1;
        }
        r
    }
}

/// No sub-mesh is drawn by both the opaque and the transparent pass: alpha equal to one
/// and alpha below one exclude each other.
pub proof fn lemma_opaque_transparent_exclusive(e: SceneEntity, j: int)
    ensures
        !(mesh_drawn(e, PassKind::Opaque, j) && mesh_drawn(e, PassKind::Transparent, j)),
{
}

/// After synchronization, every draw of an entity with a model and a placement issues
/// instances `0..N`, with N one for a transform and the number of instances otherwise (when
/// N fits a draw call).
pub proof fn lemma_draw_instances_follow_placement(before: SceneEntity, after: SceneEntity, idx: usize, pass: PassKind, j: int)
    requires
        synced_from(after, before),
        before.model is Some,
        placement_rows(before) matches Some(n) && n <= u32::MAX,
        pass != PassKind::Light,
    ensures
        instance_count(after) == Some(placement_rows(before)->0 as u32),
        draw_of(after, idx, pass, j).instances == placement_rows(before)->0,
{
}

} // verus!
