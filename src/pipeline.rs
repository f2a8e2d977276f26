use vstd::prelude::*;

use crate::passes::{pass_config, BlendMode, DepthMode, FillMode, PassKind};

verus! {

/// What a render pipeline is built from besides its shader: the multisample count baked
/// into it and the pass state it was built for.
#[derive(Debug, Clone, Copy, PartialEq, Eq, Structural)]
pub struct PipelineKey {
    pub sample_count: u32,
    pub blend: BlendMode,
    pub depth: DepthMode,
    pub fill: FillMode,
    pub pass: PassKind,
}

/// Where a pass's pipeline is, and whether it must be built now.
#[derive(Debug, Clone, Copy, PartialEq, Eq, Structural)]
pub struct PipelineSlot {
    pub index: usize,
    pub build: bool,
}

/// The pipelines built so far, by key. Pipelines never change once built; a change of the
/// multisample count drops them all.
#[derive(Debug, Clone)]
pub struct PipelineCache {
    pub sample_count: u32,
    pub keys: Vec<PipelineKey>,
}

pub open spec fn key_for(pass: PassKind, sample_count: u32) -> PipelineKey {
    PipelineKey {
        sample_count,
        blend: pass_config(pass).blend,
        depth: pass_config(pass).depth,
        fill: pass_config(pass).fill,
        pass,
    }
}

impl PipelineCache {
    /// Keys are distinct and all carry the cache's multisample count.
    pub open spec fn wf(&self) -> bool {
        &&& forall|i: int| 0 <= i < self.keys@.len() ==> (#[trigger] self.keys@[i]).sample_count == self.sample_count
        &&& forall|i: int, j: int| 0 <= i < j < self.keys@.len() ==> self.keys@[i] != self.keys@[j]
    }

    pub fn new(sample_count: u32) -> (r: PipelineCache)
        ensures
            r.wf(),
            r.sample_count == sample_count,
            r.keys@.len() == 0,
    {
        PipelineCache { sample_count, keys: Vec::new() }
    }

    /// The slot of `pass`'s pipeline: the one built before for the same key, or a new slot
    /// at the end, to be built now.
    pub fn pipeline_for(&mut self, pass: PassKind) -> (r: PipelineSlot)
        requires
            old(self).wf(),
        ensures
            final(self).wf(),
            final(self).sample_count == old(self).sample_count,
            r.index < final(self).keys@.len(),
            final(self).keys@[r.index as int] == key_for(pass, old(self).sample_count),
            r.build <==> !old(self).keys@.contains(key_for(pass, old(self).sample_count)),
            r.build ==> final(self).keys@ == old(self).keys@.push(key_for(pass, old(self).sample_count)),
            !r.build ==> final(self).keys@ == old(self).keys@,
    {
        let cfg = pass.config();
        let key = PipelineKey {
            sample_count: self.sample_count,
            blend: cfg.blend,
            depth: cfg.depth,
            fill: cfg.fill,
            pass,
        };
        let mut i: usize = 0;
        while i < self.keys.len()
            invariant
                self.wf(),
                i <= self.keys@.len(),
                key == key_for(pass, self.sample_count),
                forall|j: int| 0 <= j < i ==> self.keys@[j] != key,
            decreases self.keys@.len() - i,
        {
            if self.keys[i] == key {
                return PipelineSlot { index: i, build: false };
            }
            i = i + 1;
        }
        assert(!self.keys@.contains(key));
        self.keys.push(key);
        PipelineSlot { index: self.keys.len() - 1, build: true }
    }

    /// A new multisample count. When it differs, every pipeline is dropped (they all have
    /// the old count baked in); returns whether that happened.
    pub fn set_sample_count(&mut self, sample_count: u32) -> (r: bool)
        requires
            old(self).wf(),
        ensures
            final(self).wf(),
            final(self).sample_count == sample_count,
            r == (sample_count != old(self).sample_count),
            r ==> final(self).keys@.len() == 0,
            !r ==> final(self).keys@ == old(self).keys@,
    {
        if sample_count == self.sample_count {
            return false;
        }
        self.sample_count = sample_count;
        self.keys = Vec::new();
        true
    }
}

} // verus!
