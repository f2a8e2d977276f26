use vstd::prelude::*;

use crate::camera::Projection;

verus! {

/// Picks the surface format, given for each supported format (in the surface's order)
/// whether it is sRGB: the first sRGB one, else the first one.
pub fn choose_surface_format(srgb: &Vec<bool>) -> (r: Option<usize>)
    ensures
        r is None <==> srgb@.len() == 0,
        r matches Some(i) ==> i < srgb@.len(),
        r matches Some(i) ==> srgb@[i as int] || forall|j: int| 0 <= j < srgb@.len() ==> !srgb@[j],
        r matches Some(i) ==> srgb@[i as int] || i == 0,
        r matches Some(i) ==> forall|j: int| 0 <= j < i ==> !srgb@[j],
{
    if srgb.len() == 0 {
        return None;
    }
    let mut i: usize = 0;
    while i < srgb.len()
        invariant
            i <= srgb@.len(),
            forall|j: int| 0 <= j < i ==> !srgb@[j],
        decreases srgb@.len() - i,
    {
        if srgb[i] {
            return Some(i);
        }
        i = i + 1;
    }
    Some(0)
}

/// A multisampled colour target.
#[derive(Debug, Clone, Copy, PartialEq, Eq, Structural)]
pub struct MultisampleTarget {
    pub width: u32,
    pub height: u32,
    pub samples: u32,
}

/// What a resize did.
#[derive(Debug, Clone, Copy, PartialEq, Eq, Structural)]
pub enum ResizeOutcome {
    /// A zero dimension (minimized window): the previous configuration stays.
    Skipped,
    /// Surface, depth texture, multisampled target, camera aspect and interface size now
    /// follow the new size.
    Applied,
}

/// The sizes of everything that must follow the surface: the surface configuration, the
/// depth texture, the multisampled colour target, the camera's aspect ratio and the size
/// the interface draws for, with the multisample count they share.
#[derive(Debug, Clone, Copy, PartialEq, Eq, Structural)]
pub struct RenderTargets {
    pub surface_width: u32,
    pub surface_height: u32,
    pub sample_count: u32,
    pub depth_width: u32,
    pub depth_height: u32,
    pub depth_samples: u32,
    pub msaa_target: Option<MultisampleTarget>,
    pub projection: Projection,
    pub ui_width: u32,
    pub ui_height: u32,
    /// The camera changed since its uniform was last derived.
    pub camera_changed: bool,
}

impl RenderTargets {
    /// Every dependent resource matches the surface size and the multisample count.
    pub open spec fn coherent(&self) -> bool {
        &&& self.sample_count >= 1
        &&& self.depth_width == self.surface_width
        &&& self.depth_height == self.surface_height
        &&& self.depth_samples == self.sample_count
        &&& self.msaa_target == (if self.sample_count > 1 {
            Some(MultisampleTarget {
                width: self.surface_width,
                height: self.surface_height,
                samples: self.sample_count,
            })
        } else {
            None
        })
        &&& self.projection.aspect_width == self.surface_width
        &&& self.projection.aspect_height == self.surface_height
        &&& self.ui_width == self.surface_width
        &&& self.ui_height == self.surface_height
    }

    fn msaa_for(width: u32, height: u32, samples: u32) -> (r: Option<MultisampleTarget>)
        ensures
            r == (if samples > 1 {
                Some(MultisampleTarget { width, height, samples })
            } else {
                None
            }),
    {
        if samples > 1 {
            Some(MultisampleTarget { width, height, samples })
        } else {
            None
        }
    }

    /// Targets for a surface of `width` x `height`; a sample count of zero is taken as one.
    pub fn new(width: u32, height: u32, sample_count: u32) -> (r: RenderTargets)
        ensures
            r.coherent(),
            r.surface_width == width,
            r.surface_height == height,
            r.sample_count == (if sample_count == 0 { 1 } else { sample_count }),
            r.camera_changed,
    {
        let samples = if sample_count == 0 { 1 } else { sample_count };
        RenderTargets {
            surface_width: width,
            surface_height: height,
            sample_count: samples,
            depth_width: width,
            depth_height: height,
            depth_samples: samples,
            msaa_target: RenderTargets::msaa_for(width, height, samples),
            projection: Projection::new(width, height),
            ui_width: width,
            ui_height: height,
            camera_changed: true,
        }
    }

    /// Applies a window resize. A zero dimension keeps the previous configuration; any other
    /// size moves the surface, the depth texture, the multisampled target, the camera's
    /// aspect ratio and the interface size to it together, and marks the camera changed.
    pub fn resize(&mut self, width: u32, height: u32) -> (r: ResizeOutcome)
        requires
            old(self).coherent(),
        ensures
            final(self).coherent(),
            r == (if width == 0 || height == 0 {
                ResizeOutcome::Skipped
            } else {
                ResizeOutcome::Applied
            }),
            r == ResizeOutcome::Skipped ==> *final(self) == *old(self),
            r == ResizeOutcome::Applied ==> {
                &&& final(self).surface_width == width
                &&& final(self).surface_height == height
                &&& final(self).depth_width == width
                &&& final(self).depth_height == height
                &&& final(self).projection.aspect_width == width
                &&& final(self).projection.aspect_height == height
                &&& final(self).ui_width == width
                &&& final(self).ui_height == height
                &&& final(self).sample_count == old(self).sample_count
                &&& final(self).camera_changed
            },
    {
        if width == 0 || height == 0 {
            return ResizeOutcome::Skipped;
        }
        self.surface_width = width;
        self.surface_height = height;
        self.depth_width = width;
        self.depth_height = height;
        self.msaa_target = RenderTargets::msaa_for(width, height, self.sample_count);
        self.projection.resize(width, height);
        self.ui_width = width;
        self.ui_height = height;
        self.camera_changed = true;
        ResizeOutcome::Applied
    }

    /// Changes the multisample count. Returns whether it changed, in which case the depth
    /// texture and the multisampled target follow it, and every pipeline must be rebuilt.
    /// A count of zero is refused and changes nothing.
    pub fn set_sample_count(&mut self, samples: u32) -> (r: bool)
        requires
            old(self).coherent(),
        ensures
            final(self).coherent(),
            r == (samples != 0 && samples != old(self).sample_count),
            !r ==> *final(self) == *old(self),
            r ==> {
                &&& final(self).sample_count == samples
                &&& final(self).surface_width == old(self).surface_width
                &&& final(self).surface_height == old(self).surface_height
                &&& final(self).camera_changed == old(self).camera_changed
            },
    {
        if samples == 0 || samples == self.sample_count {
            return false;
        }
        self.sample_count = samples;
        self.depth_samples = samples;
        self.msaa_target = RenderTargets::msaa_for(self.surface_width, self.surface_height, samples);
        true
    }

    /// Whether the camera uniform must be derived again; clears the mark.
    pub fn take_camera_change(&mut self) -> (r: bool)
        ensures
            r == old(self).camera_changed,
            *final(self) == (RenderTargets { camera_changed: false, ..*old(self) }),
    {
        let r = self.camera_changed;
        self.camera_changed = false;
        r
    }

    /// Marks the camera changed (it moved or turned).
    pub fn camera_moved(&mut self)
        ensures
            *final(self) == (RenderTargets { camera_changed: true, ..*old(self) }),
    {
        self.camera_changed = true;
    }
}

} // verus!
