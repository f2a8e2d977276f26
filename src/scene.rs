use vstd::prelude::*;

use crate::light::Light;
use crate::model::{uniform_of, Instances, Material, MaterialUniform, Model, Transform, USE_NORMAL_MAP};

verus! {

/// What the synchronizer does to a GPU resource of an entity.
#[derive(Debug, Clone, Copy, PartialEq, Eq, Structural)]
pub enum BufferAction {
    /// Allocate it for the first time and fill it.
    Create,
    /// Its shape changed: drop it, allocate a new one and fill it.
    Recreate,
    /// Rewrite its contents in place; same allocation, same size.
    Write,
}

/// One GPU operation asked of the caller by [`Scene::sync`].
#[derive(Debug, Clone, Copy, PartialEq, Eq, Structural)]
pub enum SyncOp {
    /// The instance buffer of `entity`, holding `rows` raw transforms.
    InstanceBuffer { entity: usize, action: BufferAction, rows: usize },
    /// The material bundles (uniform, textures, bind group) of `entity`, one per material.
    Materials { entity: usize, action: BufferAction, count: usize },
}

/// The instance buffer of an entity, by the number of raw transforms it holds.
#[derive(Debug, Clone, Copy, PartialEq, Eq, Structural)]
pub struct InstanceBuffer {
    pub rows: usize,
}

/// The GPU-side description of one material.
#[derive(Debug, Clone, Copy)]
pub struct MaterialBundle {
    pub uniform: MaterialUniform,
    /// The normal map slot is bound to the 1x1 white placeholder.
    pub normal_placeholder: bool,
    /// The specular map slot is bound to the 1x1 white placeholder.
    pub specular_placeholder: bool,
}

/// The material bundles of an entity's model, in the order of its materials.
#[derive(Debug, Clone)]
pub struct GpuModelMaterials {
    pub data: Vec<MaterialBundle>,
}

/// Where an entity stands in its life: no model yet, a model without its GPU resources,
/// or ready to be drawn.
#[derive(Debug, Clone, Copy, PartialEq, Eq, Structural)]
pub enum Lifecycle {
    Unloaded,
    Loaded,
    GpuResourcesReady,
}

/// The components of one entity, with the change marks of its model and placement and
/// the GPU resources derived from them.
#[derive(Debug, Clone)]
pub struct SceneEntity {
    pub model: Option<Model>,
    pub transform: Option<Transform>,
    pub instances: Option<Instances>,
    pub light: Option<Light>,
    pub wireframe: bool,
    pub transparent: bool,
    /// The model was added or changed since the last synchronization.
    pub model_changed: bool,
    /// The transform or the instances were added or changed since the last synchronization.
    pub placement_changed: bool,
    pub instance_buffer: Option<InstanceBuffer>,
    pub gpu_materials: Option<GpuModelMaterials>,
}

/// The bundle derived from a material.
pub open spec fn bundle_of(m: Material) -> MaterialBundle {
    MaterialBundle {
        uniform: uniform_of(m),
        normal_placeholder: m.normal_texture is None,
        specular_placeholder: m.specular_texture is None,
    }
}

/// A bundle is exactly what `bundle_of` derives from the material.
pub open spec fn bundle_matches(b: MaterialBundle, m: Material) -> bool {
    b == bundle_of(m)
}

/// Bundles whose texture slots fit the materials one for one.
pub open spec fn layout_matches(g: Seq<MaterialBundle>, ms: Seq<Material>) -> bool {
    &&& g.len() == ms.len()
    &&& forall|i: int| 0 <= i < g.len() ==> #[trigger] placeholders_fit(g[i], ms[i])
}

/// A bundle binds placeholders exactly where the material has no map.
pub open spec fn placeholders_fit(b: MaterialBundle, m: Material) -> bool {
    &&& b.normal_placeholder == (m.normal_texture is None)
    &&& b.specular_placeholder == (m.specular_texture is None)
}

/// Number of raw transforms the entity's placement needs: one for a transform (which takes
/// precedence), one per instance otherwise.
pub open spec fn placement_rows(e: SceneEntity) -> Option<nat> {
    match e.transform {
        Some(_) => Some(1),
        None => match e.instances {
            Some(v) => Some(v.0@.len()),
            None => None,
        },
    }
}

/// What happens to the instance buffer.
pub open spec fn instance_action(e: SceneEntity) -> Option<BufferAction> {
    match placement_rows(e) {
        None => None,
        Some(n) => match e.instance_buffer {
            None => if e.model is Some {
                Some(BufferAction::Create)
            } else {
                None
            },
            Some(b) => if b.rows != n {
                Some(BufferAction::Recreate)
            } else if e.placement_changed {
                Some(BufferAction::Write)
            } else {
                None
            },
        },
    }
}

/// What happens to the material bundles.
pub open spec fn material_action(e: SceneEntity) -> Option<BufferAction> {
    match e.model {
        None => None,
        Some(m) => match e.gpu_materials {
            None => Some(BufferAction::Create),
            Some(g) => if !layout_matches(g.data@, m.materials@) {
                Some(BufferAction::Recreate)
            } else if e.model_changed {
                Some(BufferAction::Write)
            } else {
                None
            },
        },
    }
}

/// The operations the synchronizer emits for entity `idx`: instance buffer first.
pub open spec fn entity_ops(e: SceneEntity, idx: usize) -> Seq<SyncOp> {
    let a = match instance_action(e) {
        Some(act) => seq![SyncOp::InstanceBuffer { entity: idx, action: act, rows: placement_rows(e)->0 as usize }],
        None => Seq::empty(),
    };
    let b = match material_action(e) {
        Some(act) => seq![SyncOp::Materials { entity: idx, action: act, count: e.model->0.materials@.len() as usize }],
        None => Seq::empty(),
    };
    a + b
}

/// The operations for the first `n` entities, in entity order.
pub open spec fn scene_ops(s: Seq<SceneEntity>, n: nat) -> Seq<SyncOp>
    decreases n,
{
    if n == 0 {
        Seq::empty()
    } else {
        scene_ops(s, (n - 1) as nat) + entity_ops(s[n - 1], (n - 1) as usize)
    }
}

/// `new` is `old` after synchronization: components kept, change marks cleared, GPU
/// resources brought up to date.
pub open spec fn synced_from(new: SceneEntity, old: SceneEntity) -> bool {
    &&& new.model == old.model
    &&& new.transform == old.transform
    &&& new.instances == old.instances
    &&& new.light == old.light
    &&& new.wireframe == old.wireframe
    &&& new.transparent == old.transparent
    &&& !new.model_changed
    &&& !new.placement_changed
    &&& new.instance_buffer == (if instance_action(old) is Some {
        Some(InstanceBuffer { rows: placement_rows(old)->0 as usize })
    } else {
        old.instance_buffer
    })
    &&& if material_action(old) is Some {
        &&& new.gpu_materials is Some
        &&& new.gpu_materials->0.data@.len() == old.model->0.materials@.len()
        &&& forall|i: int|
            0 <= i < new.gpu_materials->0.data@.len() ==> bundle_matches(
                #[trigger] new.gpu_materials->0.data@[i],
                old.model->0.materials@[i],
            )
    } else {
        new.gpu_materials == old.gpu_materials
    }
}

pub open spec fn lifecycle_of(e: SceneEntity) -> Lifecycle {
    if e.model is None {
        Lifecycle::Unloaded
    } else if e.instance_buffer is Some && e.gpu_materials is Some {
        Lifecycle::GpuResourcesReady
    } else {
        Lifecycle::Loaded
    }
}

impl SceneEntity {
    /// An entity with no components.
    pub fn empty() -> (r: SceneEntity)
        ensures
            r.model is None,
            r.transform is None,
            r.instances is None,
            r.light is None,
            !r.wireframe,
            !r.transparent,
            !r.model_changed,
            !r.placement_changed,
            r.instance_buffer is None,
            r.gpu_materials is None,
    {
        SceneEntity {
            model: None,
            transform: None,
            instances: None,
            light: None,
            wireframe: false,
            transparent: false,
            model_changed: false,
            placement_changed: false,
            instance_buffer: None,
            gpu_materials: None,
        }
    }

    pub fn lifecycle(&self) -> (r: Lifecycle)
        ensures
            r == lifecycle_of(*self),
    {
        if self.model.is_none() {
            Lifecycle::Unloaded
        } else if self.instance_buffer.is_some() && self.gpu_materials.is_some() {
            Lifecycle::GpuResourcesReady
        } else {
            Lifecycle::Loaded
        }
    }

    pub fn placement_rows(&self) -> (r: Option<usize>)
        ensures
            r == (match placement_rows(*self) {
                Some(n) => Some(n as usize),
                None => None,
            }),
            r matches Some(n) ==> placement_rows(*self) == Some(n as nat),
    {
        match &self.transform {
            Some(_) => Some(1),
            None => match &self.instances {
                Some(v) => Some(v.0.len()),
                None => None,
            },
        }
    }
}

pub fn material_bundle(m: &Material) -> (r: MaterialBundle)
    ensures
        bundle_matches(r, *m),
{
    MaterialBundle {
        uniform: m.uniform(),
        normal_placeholder: m.normal_texture.is_none(),
        specular_placeholder: m.specular_texture.is_none(),
    }
}

fn material_bundles(ms: &Vec<Material>) -> (r: Vec<MaterialBundle>)
    ensures
        r@.len() == ms@.len(),
        forall|i: int| 0 <= i < r@.len() ==> bundle_matches(#[trigger] r@[i], ms@[i]),
{
    let mut r: Vec<MaterialBundle> = Vec::new();
    let mut i: usize = 0;
    while i < ms.len()
        invariant
            i <= ms@.len(),
            r@.len() == i,
            forall|j: int| 0 <= j < i ==> bundle_matches(#[trigger] r@[j], ms@[j]),
        decreases ms@.len() - i,
    {
        r.push(material_bundle(&ms[i]));
        i = i + 1;
    }
    r
}

fn layout_fits(g: &Vec<MaterialBundle>, ms: &Vec<Material>) -> (r: bool)
    ensures
        r == layout_matches(g@, ms@),
{
    if g.len() != ms.len() {
        return false;
    }
    let mut i: usize = 0;
    while i < g.len()
        invariant
            g@.len() == ms@.len(),
            i <= g@.len(),
            forall|j: int| 0 <= j < i ==> #[trigger] placeholders_fit(g@[j], ms@[j]),
        decreases g@.len() - i,
    {
        let b = g[i];
        let m = &ms[i];
        let no_normal = m.normal_texture.is_none();
        let no_specular = m.specular_texture.is_none();
        assert(b == g@[i as int] && *m == ms@[i as int]);
        if b.normal_placeholder != no_normal || b.specular_placeholder != no_specular {
            assert(!layout_matches(g@, ms@)) by {
                if layout_matches(g@, ms@) {
                    assert(placeholders_fit(g@[i as int], ms@[i as int]));
                }
            }
            return false;
        }
        assert(placeholders_fit(g@[i as int], ms@[i as int]));
        i = i + 1;
    }
    true
}

fn sync_entity(e: &mut SceneEntity, idx: usize) -> (ops: Vec<SyncOp>)
    ensures
        synced_from(*final(e), *old(e)),
        ops@ == entity_ops(*old(e), idx),
{
    let mut ops: Vec<SyncOp> = Vec::new();
    let rows = e.placement_rows();
    let action = match rows {
        None => None,
        Some(n) => match e.instance_buffer {
            None => if e.model.is_some() {
                Some(BufferAction::Create)
            } else {
                None
            },
            Some(b) => if b.rows != n {
                Some(BufferAction::Recreate)
            } else if e.placement_changed {
                Some(BufferAction::Write)
            } else {
                None
            },
        },
    };
    if let Some(act) = action {
        let n = rows.unwrap();
        e.instance_buffer = Some(InstanceBuffer { rows: n });
        ops.push(SyncOp::InstanceBuffer { entity: idx, action: act, rows: n });
    }
    e.placement_changed = false;

    let maction = match &e.model {
        None => None,
        Some(m) => match &e.gpu_materials {
            None => Some(BufferAction::Create),
            Some(g) => if !layout_fits(&g.data, &m.materials) {
                Some(BufferAction::Recreate)
            } else if e.model_changed {
                Some(BufferAction::Write)
            } else {
                None
            },
        },
    };
    if let Some(act) = maction {
        let (data, count) = match &e.model {
            Some(m) => (material_bundles(&m.materials), m.materials.len()),
            None => (Vec::new(), 0),
        };
        e.gpu_materials = Some(GpuModelMaterials { data });
        ops.push(SyncOp::Materials { entity: idx, action: act, count });
    }
    e.model_changed = false;
    assert(ops@ =~= entity_ops(*old(e), idx));
    ops
}

/// The entity store: records are only appended, so an entity's index stays valid.
#[derive(Debug, Clone)]
pub struct Scene {
    pub entities: Vec<SceneEntity>,
}

impl Scene {
    pub fn new() -> (r: Scene)
        ensures
            r.entities@.len() == 0,
    {
        Scene { entities: Vec::new() }
    }

    /// Adds an entity with no components and returns its index.
    pub fn spawn(&mut self) -> (r: usize)
        requires
            old(self).entities@.len() < usize::MAX,
        ensures
            r == old(self).entities@.len(),
            final(self).entities@ == old(self).entities@.push(final(self).entities@[r as int]),
            final(self).entities@[r as int].model is None,
            final(self).entities@[r as int].transform is None,
            final(self).entities@[r as int].instances is None,
            final(self).entities@[r as int].light is None,
            !final(self).entities@[r as int].wireframe,
            !final(self).entities@[r as int].transparent,
            !final(self).entities@[r as int].model_changed,
            !final(self).entities@[r as int].placement_changed,
            final(self).entities@[r as int].instance_buffer is None,
            final(self).entities@[r as int].gpu_materials is None,
    {
        let r = self.entities.len();
        self.entities.push(SceneEntity::empty());
        r
    }

    /// Synchronizes the GPU resources of every entity with its components, and returns
    /// the GPU operations that do so, in entity order.
    pub fn sync(&mut self) -> (ops: Vec<SyncOp>)
        ensures
            final(self).entities@.len() == old(self).entities@.len(),
            forall|i: int|
                0 <= i < old(self).entities@.len() ==> synced_from(
                    #[trigger] final(self).entities@[i],
                    old(self).entities@[i],
                ),
            ops@ == scene_ops(old(self).entities@, old(self).entities@.len()),
    {
        let mut ops: Vec<SyncOp> = Vec::new();
        let mut i: usize = 0;
        let n = self.entities.len();
        while i < n
            invariant
                n == old(self).entities@.len(),
                self.entities@.len() == n,
                i <= n,
                forall|j: int| 0 <= j < i ==> synced_from(#[trigger] self.entities@[j], old(self).entities@[j]),
                forall|j: int| i <= j < n ==> #[trigger] self.entities@[j] == old(self).entities@[j],
                ops@ == scene_ops(old(self).entities@, i as nat),
            decreases n - i,
        {
            let mut step = sync_entity(&mut self.entities[i], i);
            ops.append(&mut step);
            i = i + 1;
        }
        ops
    }
}


impl Scene {
    /// Gives entity `e` a model (added or replaced) and marks it changed. False when `e`
    /// names no entity.
    pub fn set_model(&mut self, e: usize, model: Model) -> (r: bool)
        ensures
            r == (e < old(self).entities@.len()),
            r ==> final(self).entities@ == old(self).entities@.update(
                e as int,
                SceneEntity { model: Some(model), model_changed: true, ..old(self).entities@[e as int] },
            ),
            !r ==> final(self).entities@ == old(self).entities@,
    {
        if e >= self.entities.len() {
            return false;
        }
        self.entities[e].model = Some(model);
        self.entities[e].model_changed = true;
        true
    }

    /// Gives entity `e` a transform (added or replaced) and marks its placement changed.
    pub fn set_transform(&mut self, e: usize, t: Transform) -> (r: bool)
        ensures
            r == (e < old(self).entities@.len()),
            r ==> final(self).entities@ == old(self).entities@.update(
                e as int,
                SceneEntity { transform: Some(t), placement_changed: true, ..old(self).entities@[e as int] },
            ),
            !r ==> final(self).entities@ == old(self).entities@,
    {
        if e >= self.entities.len() {
            return false;
        }
        self.entities[e].transform = Some(t);
        self.entities[e].placement_changed = true;
        true
    }

    /// Gives entity `e` a list of instances (added or replaced) and marks its placement
    /// changed.
    pub fn set_instances(&mut self, e: usize, v: Instances) -> (r: bool)
        ensures
            r == (e < old(self).entities@.len()),
            r ==> final(self).entities@ == old(self).entities@.update(
                e as int,
                SceneEntity { instances: Some(v), placement_changed: true, ..old(self).entities@[e as int] },
            ),
            !r ==> final(self).entities@ == old(self).entities@,
    {
        if e >= self.entities.len() {
            return false;
        }
        self.entities[e].instances = Some(v);
        self.entities[e].placement_changed = true;
        true
    }

    /// Adds or removes the light of entity `e`.
    pub fn set_light(&mut self, e: usize, light: Option<Light>) -> (r: bool)
        ensures
            r == (e < old(self).entities@.len()),
            r ==> final(self).entities@ == old(self).entities@.update(
                e as int,
                SceneEntity { light: light, ..old(self).entities@[e as int] },
            ),
            !r ==> final(self).entities@ == old(self).entities@,
    {
        if e >= self.entities.len() {
            return false;
        }
        self.entities[e].light = light;
        true
    }

    /// Sets or clears the wireframe marker of entity `e`.
    pub fn set_wireframe(&mut self, e: usize, on: bool) -> (r: bool)
        ensures
            r == (e < old(self).entities@.len()),
            r ==> final(self).entities@ == old(self).entities@.update(
                e as int,
                SceneEntity { wireframe: on, ..old(self).entities@[e as int] },
            ),
            !r ==> final(self).entities@ == old(self).entities@,
    {
        if e >= self.entities.len() {
            return false;
        }
        self.entities[e].wireframe = on;
        true
    }

    /// Sets or clears the transparent marker of entity `e`.
    pub fn set_transparent(&mut self, e: usize, on: bool) -> (r: bool)
        ensures
            r == (e < old(self).entities@.len()),
            r ==> final(self).entities@ == old(self).entities@.update(
                e as int,
                SceneEntity { transparent: on, ..old(self).entities@[e as int] },
            ),
            !r ==> final(self).entities@ == old(self).entities@,
    {
        if e >= self.entities.len() {
            return false;
        }
        self.entities[e].transparent = on;
        true
    }
}

proof fn lemma_synced_entity_quiet(after: SceneEntity, before: SceneEntity)
    requires
        synced_from(after, before),
    ensures
        instance_action(after) is None,
        material_action(after) is None,
{
    assert(placement_rows(after) == placement_rows(before));
    if let Some(v) = before.instances {
        vstd::std_specs::vec::axiom_spec_len(&v.0);
    }
    if material_action(before) is Some {
        let g = after.gpu_materials->0.data@;
        let ms = after.model->0.materials@;
        assert forall|i: int| 0 <= i < g.len() implies #[trigger] placeholders_fit(g[i], ms[i]) by {
            assert(bundle_matches(g[i], ms[i]));
        }
    }
}

proof fn lemma_quiet_ops(s: Seq<SceneEntity>, n: nat)
    requires
        n <= s.len(),
        forall|i: int| 0 <= i < n ==> instance_action(#[trigger] s[i]) is None && material_action(s[i]) is None,
    ensures
        scene_ops(s, n) == Seq::<SyncOp>::empty(),
    decreases n,
{
    if n > 0 {
        lemma_quiet_ops(s, (n - 1) as nat);
        assert(instance_action(s[n - 1]) is None && material_action(s[n - 1]) is None);
        assert(entity_ops(s[n - 1], (n - 1) as usize) =~= Seq::<SyncOp>::empty());
        assert(scene_ops(s, n) =~= Seq::<SyncOp>::empty());
    }
}

/// Synchronizing twice in a row is the same as once: the second pass, with no change to
/// any component in between, asks for no GPU operation.
pub proof fn lemma_sync_idempotent(before: Seq<SceneEntity>, after: Seq<SceneEntity>)
    requires
        after.len() == before.len(),
        forall|i: int| 0 <= i < before.len() ==> synced_from(#[trigger] after[i], before[i]),
    ensures
        scene_ops(after, after.len()) == Seq::<SyncOp>::empty(),
{
    assert forall|i: int| 0 <= i < after.len() implies instance_action(#[trigger] after[i]) is None
        && material_action(after[i]) is None by {
        lemma_synced_entity_quiet(after[i], before[i]);
    }
    lemma_quiet_ops(after, after.len());
}

/// An entity with a model and exactly one of a transform and a list of instances has,
/// after one synchronization, an instance buffer of one row for the transform or one row
/// per instance.
pub proof fn lemma_instance_buffer_sized(before: SceneEntity, after: SceneEntity)
    requires
        synced_from(after, before),
        before.model is Some,
        (before.transform is Some) != (before.instances is Some),
    ensures
        after.instance_buffer == Some(InstanceBuffer {
            rows: match before.instances {
                Some(v) if before.transform is None => v.0@.len() as usize,
                _ => 1,
            },
        }),
{
}

/// Changing the content of a synchronized entity's placement without changing how many
/// transforms it holds leads to an in-place rewrite of the same instance buffer, of the same
/// size.
pub proof fn lemma_content_change_in_place(
    before: SceneEntity,
    after: SceneEntity,
    changed: SceneEntity,
    again: SceneEntity,
)
    requires
        synced_from(after, before),
        before.model is Some,
        placement_rows(before) is Some,
        changed == (SceneEntity { transform: changed.transform, instances: changed.instances, placement_changed: true, ..after }),
        placement_rows(changed) == placement_rows(after),
        synced_from(again, changed),
    ensures
        instance_action(changed) == Some(BufferAction::Write),
        again.instance_buffer == after.instance_buffer,
{
    if let Some(v) = before.instances {
        vstd::std_specs::vec::axiom_spec_len(&v.0);
    }
}

/// A model that is new, or changed since the last synchronization, has after the next one
/// exactly one bundle per material, each derived from its material; an entity without a
/// model keeps the bundles it had.
pub proof fn lemma_bundles_follow_model(before: SceneEntity, after: SceneEntity)
    requires
        synced_from(after, before),
    ensures
        (before.model_changed || before.gpu_materials is None) ==> (before.model matches Some(m) ==> {
            &&& after.gpu_materials matches Some(g)
            &&& g.data@.len() == m.materials@.len()
            &&& forall|i: int| 0 <= i < g.data@.len() ==> bundle_matches(#[trigger] g.data@[i], m.materials@[i])
        }),
        before.model is None ==> after.gpu_materials == before.gpu_materials,
{
}

/// A material without a normal map gets a bundle whose normal-map flag is clear and whose
/// normal slot holds the white placeholder; a material with one gets the flag and its own map.
pub proof fn lemma_normal_map_flag(m: Material)
    ensures
        m.normal_texture is None ==> bundle_of(m).uniform.flags & USE_NORMAL_MAP == 0
            && bundle_of(m).normal_placeholder,
        m.normal_texture is Some ==> bundle_of(m).uniform.flags & USE_NORMAL_MAP == USE_NORMAL_MAP
            && !bundle_of(m).normal_placeholder,
{
    assert(0u32 & 1u32 == 0u32) by (bit_vector);
    assert(1u32 & 1u32 == 1u32) by (bit_vector);
}

} // verus!
