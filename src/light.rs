use vstd::prelude::*;

use crate::scene::{Scene, SceneEntity};

verus! {

/// A point light. Components are single-precision bit patterns.
#[derive(Debug, Clone, Copy)]
pub struct Light {
    pub position: [u32; 3],
    pub color: [u32; 3],
}

/// The light as laid out in its uniform buffer: position and colour, each padded to
/// sixteen bytes with a zero word.
#[derive(Debug, Clone, Copy)]
pub struct LightUniform {
    pub words: [u32; 8],
}

impl LightUniform {
    pub open spec fn packs(&self, position: [u32; 3], color: [u32; 3]) -> bool {
        self.words@ == seq![position[0], position[1], position[2], 0u32, color[0], color[1], color[2], 0u32]
    }

    pub fn new(position: [u32; 3], color: [u32; 3]) -> (r: LightUniform)
        ensures
            r.packs(position, color),
    {
        let r = LightUniform {
            words: [position[0], position[1], position[2], 0, color[0], color[1], color[2], 0],
        };
        assert(r.words@ =~= seq![position[0], position[1], position[2], 0u32, color[0], color[1], color[2], 0u32]);
        r
    }

    pub fn from(light: &Light) -> (r: LightUniform)
        ensures
            r.packs(light.position, light.color),
    {
        LightUniform::new(light.position, light.color)
    }
}


/// The index of the first entity that carries a light, among the first `n`.
pub open spec fn first_light(s: Seq<SceneEntity>, n: nat) -> Option<nat>
    decreases n,
{
    if n == 0 {
        None
    } else {
        match first_light(s, (n - 1) as nat) {
            Some(i) => Some(i),
            None => if s[n - 1].light is Some {
                Some((n - 1) as nat)
            } else {
                None
            },
        }
    }
}

impl Scene {
    /// The light uniform for this frame. One light is supported: the first entity that
    /// carries one; `None` when no entity does.
    pub fn light_uniform(&self) -> (r: Option<LightUniform>)
        ensures
            r is None <==> first_light(self.entities@, self.entities@.len()) is None,
            r matches Some(u) ==> {
                let l = self.entities@[first_light(self.entities@, self.entities@.len())->0 as int].light->0;
                u.packs(l.position, l.color)
            },
    {
        let n = self.entities.len();
        let mut i: usize = 0;
        while i < n
            invariant
                n == self.entities@.len(),
                i <= n,
                first_light(self.entities@, i as nat) is None,
            decreases n - i,
        {
            if let Some(l) = &self.entities[i].light {
                proof { lemma_first_light_stays(self.entities@, (i + 1) as nat, n as nat); }
                return Some(LightUniform::from(l));
            }
            i = i + 1;
        }
        None
    }
}

proof fn lemma_first_light_stays(s: Seq<SceneEntity>, k: nat, n: nat)
    requires
        k <= n <= s.len(),
        first_light(s, k) is Some,
    ensures
        first_light(s, n) == first_light(s, k),
    decreases n - k,
{
    if k < n {
        lemma_first_light_stays(s, k, (n - 1) as nat);
    }
}

} // verus!
