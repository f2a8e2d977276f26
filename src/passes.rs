use vstd::prelude::*;

verus! {

/// The passes of a frame.
#[derive(Debug, Clone, Copy, PartialEq, Eq, Structural)]
pub enum PassKind {
    /// Fully opaque sub-meshes; clears the targets.
    Opaque,
    /// Sub-meshes with alpha below one, blended over the opaque ones.
    Transparent,
    /// The small meshes that mark where the lights are.
    Light,
    /// Line rendering of the entities marked for it.
    Wireframe,
    /// The 2D user interface, on top of everything.
    Ui,
    /// Debug view of the depth buffer on a fullscreen quad.
    DepthView,
}

/// What a pass does with an attachment's previous contents.
#[derive(Debug, Clone, Copy, PartialEq, Eq, Structural)]
pub enum LoadOp {
    /// Overwrite with the clear value (clear colour, or depth one, the far plane).
    Clear,
    /// Keep what earlier passes wrote.
    Load,
}

/// Depth state of a pass's pipeline; the test, when on, passes fragments nearer than the
/// stored depth (compare function `Less`).
#[derive(Debug, Clone, Copy, PartialEq, Eq, Structural)]
pub enum DepthMode {
    /// No depth attachment.
    Off,
    /// Test against, and write, the depth buffer.
    TestWrite,
    /// Test against the depth buffer, leave it unchanged.
    TestOnly,
}

#[derive(Debug, Clone, Copy, PartialEq, Eq, Structural)]
pub enum BlendMode {
    /// The fragment replaces the stored colour.
    Replace,
    /// Source-over blending by the fragment's alpha.
    Alpha,
    /// Source-over blending of colours already multiplied by their alpha.
    PremultipliedAlpha,
}

#[derive(Debug, Clone, Copy, PartialEq, Eq, Structural)]
pub enum FillMode {
    Fill,
    Line,
}

/// The fixed-function state and attachment use of one pass.
#[derive(Debug, Clone, Copy, PartialEq, Eq, Structural)]
pub struct PassConfig {
    pub color_load: LoadOp,
    /// `None`: the pass has no depth attachment.
    pub depth_load: Option<LoadOp>,
    pub depth: DepthMode,
    pub blend: BlendMode,
    pub fill: FillMode,
    /// Back faces are culled (front faces wind counter-clockwise).
    pub cull_back: bool,
    /// Bind group slot 1 holds the material of each draw.
    pub material_slot: bool,
    /// Vertex buffer slot 1 holds the entity's instance transforms.
    pub instance_slot: bool,
}

pub open spec fn pass_config(k: PassKind) -> PassConfig {
    match k {
        PassKind::Opaque => PassConfig {
            color_load: LoadOp::Clear,
            depth_load: Some(LoadOp::Clear),
            depth: DepthMode::TestWrite,
            blend: BlendMode::Replace,
            fill: FillMode::Fill,
            cull_back: true,
            material_slot: true,
            instance_slot: true,
        },
        PassKind::Transparent => PassConfig {
            color_load: LoadOp::Load,
            depth_load: Some(LoadOp::Load),
            depth: DepthMode::TestOnly,
            blend: BlendMode::Alpha,
            fill: FillMode::Fill,
            cull_back: true,
            material_slot: true,
            instance_slot: true,
        },
        PassKind::Light => PassConfig {
            color_load: LoadOp::Load,
            depth_load: Some(LoadOp::Load),
            depth: DepthMode::TestOnly,
            blend: BlendMode::Replace,
            fill: FillMode::Fill,
            cull_back: true,
            material_slot: false,
            instance_slot: false,
        },
        PassKind::Wireframe => PassConfig {
            color_load: LoadOp::Load,
            depth_load: Some(LoadOp::Load),
            depth: DepthMode::TestOnly,
            blend: BlendMode::Replace,
            fill: FillMode::Line,
            cull_back: false,
            material_slot: false,
            instance_slot: true,
        },
        PassKind::Ui => PassConfig {
            color_load: LoadOp::Load,
            depth_load: None,
            depth: DepthMode::Off,
            blend: BlendMode::PremultipliedAlpha,
            fill: FillMode::Fill,
            cull_back: false,
            material_slot: false,
            instance_slot: false,
        },
        PassKind::DepthView => PassConfig {
            color_load: LoadOp::Load,
            depth_load: None,
            depth: DepthMode::Off,
            blend: BlendMode::Replace,
            fill: FillMode::Fill,
            cull_back: false,
            material_slot: false,
            instance_slot: false,
        },
    }
}

impl PassKind {
    pub fn config(self) -> (r: PassConfig)
        ensures
            r == pass_config(self),
    {
        match self {
            PassKind::Opaque => PassConfig {
                color_load: LoadOp::Clear,
                depth_load: Some(LoadOp::Clear),
                depth: DepthMode::TestWrite,
                blend: BlendMode::Replace,
                fill: FillMode::Fill,
                cull_back: true,
                material_slot: true,
                instance_slot: true,
            },
            PassKind::Transparent => PassConfig {
                color_load: LoadOp::Load,
                depth_load: Some(LoadOp::Load),
                depth: DepthMode::TestOnly,
                blend: BlendMode::Alpha,
                fill: FillMode::Fill,
                cull_back: true,
                material_slot: true,
                instance_slot: true,
            },
            PassKind::Light => PassConfig {
                color_load: LoadOp::Load,
                depth_load: Some(LoadOp::Load),
                depth: DepthMode::TestOnly,
                blend: BlendMode::Replace,
                fill: FillMode::Fill,
                cull_back: true,
                material_slot: false,
                instance_slot: false,
            },
            PassKind::Wireframe => PassConfig {
                color_load: LoadOp::Load,
                depth_load: Some(LoadOp::Load),
                depth: DepthMode::TestOnly,
                blend: BlendMode::Replace,
                fill: FillMode::Line,
                cull_back: false,
                material_slot: false,
                instance_slot: true,
            },
            PassKind::Ui => PassConfig {
                color_load: LoadOp::Load,
                depth_load: None,
                depth: DepthMode::Off,
                blend: BlendMode::PremultipliedAlpha,
                fill: FillMode::Fill,
                cull_back: false,
                material_slot: false,
                instance_slot: false,
            },
            PassKind::DepthView => PassConfig {
                color_load: LoadOp::Load,
                depth_load: None,
                depth: DepthMode::Off,
                blend: BlendMode::Replace,
                fill: FillMode::Fill,
                cull_back: false,
                material_slot: false,
                instance_slot: false,
            },
        }
    }
}

/// The passes of a frame, in the order they run: the 3D passes, the interface, and the
/// depth view last when it is shown.
pub open spec fn pass_sequence(show_depth: bool) -> Seq<PassKind> {
    let main = seq![PassKind::Opaque, PassKind::Transparent, PassKind::Light, PassKind::Wireframe, PassKind::Ui];
    if show_depth {
        main.push(PassKind::DepthView)
    } else {
        main
    }
}

pub fn frame_passes(show_depth: bool) -> (r: Vec<PassKind>)
    ensures
        r@ == pass_sequence(show_depth),
{
    let mut r: Vec<PassKind> = Vec::new();
    r.push(PassKind::Opaque);
    r.push(PassKind::Transparent);
    r.push(PassKind::Light);
    r.push(PassKind::Wireframe);
    r.push(PassKind::Ui);
    if show_depth {
        r.push(PassKind::DepthView);
    }
    assert(r@ =~= pass_sequence(show_depth));
    r
}

/// In every frame the opaque pass runs first and alone clears colour and depth, so every
/// later pass draws over what the earlier ones left; it alone writes depth, and the
/// transparent pass runs after it, testing against that depth.
pub proof fn lemma_pass_order(show_depth: bool)
    ensures
        pass_sequence(show_depth)[0] == PassKind::Opaque,
        pass_sequence(show_depth)[1] == PassKind::Transparent,
        pass_config(PassKind::Opaque).color_load == LoadOp::Clear,
        pass_config(PassKind::Opaque).depth_load == Some(LoadOp::Clear),
        forall|i: int|
            1 <= i < pass_sequence(show_depth).len() ==> {
                &&& pass_config(#[trigger] pass_sequence(show_depth)[i]).color_load == LoadOp::Load
                &&& pass_config(pass_sequence(show_depth)[i]).depth_load != Some(LoadOp::Clear)
                &&& pass_config(pass_sequence(show_depth)[i]).depth != DepthMode::TestWrite
            },
        pass_config(PassKind::Transparent).depth == DepthMode::TestOnly,
{
    let s = pass_sequence(show_depth);
    assert forall|i: int| 1 <= i < s.len() implies {
        &&& pass_config(#[trigger] s[i]).color_load == LoadOp::Load
        &&& pass_config(s[i]).depth_load != Some(LoadOp::Clear)
        &&& pass_config(s[i]).depth != DepthMode::TestWrite
    } by {
        assert(s[i] != PassKind::Opaque);
    }
}

/// A colour target of the frame.
#[derive(Debug, Clone, Copy, PartialEq, Eq, Structural)]
pub enum ColorTarget {
    /// The texture acquired from the surface, which is presented.
    Swapchain,
    /// The multisampled off-screen texture.
    Multisampled,
}

/// Where the passes render and what they resolve into.
#[derive(Debug, Clone, Copy, PartialEq, Eq, Structural)]
pub struct ColorAttachment {
    pub view: ColorTarget,
    pub resolve_target: Option<ColorTarget>,
}

/// With multisampling the passes render into the multisampled target and resolve into the
/// surface texture; without, they render into the surface texture directly.
pub fn color_attachment(sample_count: u32) -> (r: ColorAttachment)
    ensures
        sample_count > 1 ==> r == (ColorAttachment {
            view: ColorTarget::Multisampled,
            resolve_target: Some(ColorTarget::Swapchain),
        }),
        sample_count <= 1 ==> r == (ColorAttachment { view: ColorTarget::Swapchain, resolve_target: None }),
{
    if sample_count > 1 {
        ColorAttachment { view: ColorTarget::Multisampled, resolve_target: Some(ColorTarget::Swapchain) }
    } else {
        ColorAttachment { view: ColorTarget::Swapchain, resolve_target: None }
    }
}

} // verus!
