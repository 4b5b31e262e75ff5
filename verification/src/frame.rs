//! The render side of the compute effect: the target image and its binding
//! layout, the two queued pipelines, the per-frame mirror of the image
//! reference, the binding set built from it, and the frame that ties them to
//! the dispatch node.

use vstd::prelude::*;
use crate::dispatch::{
    both_ready, groups_for, lemma_init_exactly_once, newly_failed, next_state, none_ready,
    reports_failure, run_node, stage_at, stage_run, state_after, ComputeStage, DispatchCommand,
    NodeState, PipelineStatus, Poll, Workgroups, SIZE, WORKGROUP_SIZE,
};
use crate::materials::{Materials, RepeatedMaterial, TextureId};

verus! {

/// Path of the compute shader, relative to the asset directory.
pub const COMPUTE_SHADER: &'static str = "shaders/kuwahara_filter_compute.wgsl";

/// Entry point of the stage that fills the image once.
pub const INIT_ENTRY: &'static str = "init";

/// Entry point of the stage that runs every frame.
pub const UPDATE_ENTRY: &'static str = "update";

/// A reference to an image resource. Copying it copies no pixel.
#[derive(Clone, Copy, Debug, Hash, PartialEq, Eq, Structural)]
pub struct ImageHandle(pub u64);

/// Names a pipeline that was queued for compilation.
#[derive(Clone, Copy, Debug, Hash, PartialEq, Eq, Structural)]
pub struct PipelineId(pub usize);

/// Pixel format of the compute target.
#[derive(Clone, Copy, Debug, PartialEq, Eq, Structural)]
pub enum TextureFormat {
    /// Four channels of eight bits, normalised.
    Rgba8Unorm,
}

/// How a shader may touch a storage image.
#[derive(Clone, Copy, Debug, PartialEq, Eq, Structural)]
pub enum StorageAccess {
    ReadWrite,
}

/// The shader stages that see a binding.
#[derive(Clone, Copy, Debug, PartialEq, Eq, Structural)]
pub enum Visibility {
    Compute,
}

/// The shape of an image view.
#[derive(Clone, Copy, Debug, PartialEq, Eq, Structural)]
pub enum ViewDimension {
    D2,
}

/// One pixel: red, green, blue and opacity, eight bits each.
#[derive(Clone, Copy, Debug, PartialEq, Eq, Structural)]
pub struct Rgba {
    pub r: u8,
    pub g: u8,
    pub b: u8,
    pub a: u8,
}

/// What an image may be used for.
#[derive(Clone, Copy, Debug, PartialEq, Eq, Structural)]
pub struct ImageUsages {
    pub copy_dst: bool,
    pub storage_binding: bool,
    pub texture_binding: bool,
}

/// Description of a two-dimensional image: its size, the pixel that fills it
/// at creation, its format and its uses.
#[derive(Clone, Copy, Debug, PartialEq, Eq, Structural)]
pub struct ImageResource {
    pub width: u32,
    pub height: u32,
    pub fill: Rgba,
    pub format: TextureFormat,
    pub usage: ImageUsages,
}

/// The one binding slot that both compute stages expect.
#[derive(Clone, Copy, Debug, PartialEq, Eq, Structural)]
pub struct BindingLayout {
    pub binding: u32,
    pub visibility: Visibility,
    pub access: StorageAccess,
    pub format: TextureFormat,
    pub view_dimension: ViewDimension,
}

/// What is handed to the pipeline cache to queue one compute pipeline.
#[derive(Clone, Copy, Debug)]
pub struct ComputePipelineRequest {
    pub layout: BindingLayout,
    pub shader: &'static str,
    pub entry_point: &'static str,
}

/// The binding layout and the two queued pipelines of the effect.
#[derive(Clone, Copy, Debug, PartialEq, Eq, Structural)]
pub struct KuwaharaPipeline {
    pub texture_bind_group_layout: BindingLayout,
    pub init_pipeline: PipelineId,
    pub update_pipeline: PipelineId,
}

/// A live image attached to the slot of the layout.
#[derive(Clone, Copy, Debug, PartialEq, Eq, Structural)]
pub struct BindingSet {
    pub layout: BindingLayout,
    pub image: ImageHandle,
}

/// What one frame appends to the command stream.
#[derive(Clone, Copy, Debug, PartialEq, Eq, Structural)]
pub enum FrameCommand {
    Idle,
    Dispatch { pipeline: PipelineId, bind_group: BindingSet, groups: Workgroups },
}

/// What one execution of the node hands back: the command, and for each
/// pipeline whether its failure is to be reported now.
#[derive(Clone, Copy, Debug, PartialEq, Eq, Structural)]
pub struct FrameReport {
    pub command: FrameCommand,
    pub init_failed: bool,
    pub update_failed: bool,
}

/// What setup creates: the materials registry, the compute target, and the
/// size of the surface that shows it.
#[derive(Debug)]
pub struct ShaderSetup {
    pub materials: Materials,
    pub image: ImageResource,
    pub surface: (u32, u32),
}

/// The layout of the effect: slot 0, a read-write storage image in two
/// dimensions, seen by compute stages only.
pub open spec fn storage_image_layout() -> BindingLayout {
    BindingLayout {
        binding: 0,
        visibility: Visibility::Compute,
        access: StorageAccess::ReadWrite,
        format: TextureFormat::Rgba8Unorm,
        view_dimension: ViewDimension::D2,
    }
}

/// The compute target: opaque black, writable by copies and by compute
/// stages, and readable by samplers.
pub open spec fn compute_target() -> ImageResource {
    ImageResource {
        width: SIZE.0,
        height: SIZE.1,
        fill: Rgba { r: 0, g: 0, b: 0, a: 255 },
        format: TextureFormat::Rgba8Unorm,
        usage: ImageUsages { copy_dst: true, storage_binding: true, texture_binding: true },
    }
}

impl BindingLayout {
    /// Builds the layout of the effect.
    pub fn storage_image() -> (layout: BindingLayout)
        ensures
            layout == storage_image_layout(),
    {
        BindingLayout {
            binding: 0,
            visibility: Visibility::Compute,
            access: StorageAccess::ReadWrite,
            format: TextureFormat::Rgba8Unorm,
            view_dimension: ViewDimension::D2,
        }
    }
}

impl ImageResource {
    /// Builds the description of the compute target.
    pub fn target() -> (image: ImageResource)
        ensures
            image == compute_target(),
    {
        ImageResource {
            width: SIZE.0,
            height: SIZE.1,
            fill: Rgba { r: 0, g: 0, b: 0, a: 255 },
            format: TextureFormat::Rgba8Unorm,
            usage: ImageUsages { copy_dst: true, storage_binding: true, texture_binding: true },
        }
    }
}

/// Setup of the shader resources: the registry with the glow and sky-dome
/// materials over their textures and an empty variant cache, the compute
/// target, and a surface of the target's size.
pub fn setup_shader(glowy_interior: TextureId, sky: TextureId) -> (setup: ShaderSetup)
    ensures
        setup.materials.wf(),
        setup.materials.glowy.env_texture == glowy_interior,
        setup.materials.skydome.env_texture == sky,
        setup.materials.repeated@ == Seq::<RepeatedMaterial>::empty(),
        setup.image == compute_target(),
        setup.surface == SIZE,
{
    ShaderSetup {
        materials: Materials::new(glowy_interior, sky),
        image: ImageResource::target(),
        surface: SIZE,
    }
}

impl KuwaharaPipeline {
    /// The two requests to queue, init first. Both name the same shader and
    /// the same layout; they differ in the entry point alone.
    pub fn requests() -> (pair: (ComputePipelineRequest, ComputePipelineRequest))
        ensures
            pair.0.layout == storage_image_layout(),
            pair.1.layout == storage_image_layout(),
            pair.0.shader@ == COMPUTE_SHADER@,
            pair.1.shader@ == COMPUTE_SHADER@,
            pair.0.entry_point@ == INIT_ENTRY@,
            pair.1.entry_point@ == UPDATE_ENTRY@,
    {
        let layout: BindingLayout = BindingLayout::storage_image();
        (
            ComputePipelineRequest { layout, shader: COMPUTE_SHADER, entry_point: INIT_ENTRY },
            ComputePipelineRequest { layout, shader: COMPUTE_SHADER, entry_point: UPDATE_ENTRY },
        )
    }

    /// The pipelines as queued: the shared layout and the two identifiers
    /// that the cache returned.
    pub fn from_queued(init_pipeline: PipelineId, update_pipeline: PipelineId) -> (pipeline: KuwaharaPipeline)
        ensures
            pipeline == (KuwaharaPipeline {
                texture_bind_group_layout: storage_image_layout(),
                init_pipeline,
                update_pipeline,
            }),
    {
        KuwaharaPipeline {
            texture_bind_group_layout: BindingLayout::storage_image(),
            init_pipeline,
            update_pipeline,
        }
    }

    /// The identifier of the pipeline that runs a stage.
    pub open spec fn id_of(self, stage: ComputeStage) -> PipelineId {
        match stage {
            ComputeStage::Init => self.init_pipeline,
            ComputeStage::Update => self.update_pipeline,
        }
    }
}

/// The render side's state of the effect.
#[derive(Clone, Copy, Debug, PartialEq, Eq, Structural)]
pub struct RenderWorld {
    pub pipeline: KuwaharaPipeline,
    /// The mirror of the canonical image reference, as of the last extraction.
    pub image: Option<ImageHandle>,
    /// The binding set of the current frame.
    pub bind_group: Option<BindingSet>,
    pub node: NodeState,
    /// The statuses that the node resolved last.
    pub seen: Poll,
}

impl RenderWorld {
    /// The world after the extraction of `canonical`: the mirror holds it,
    /// and the binding set of the frame before is gone.
    pub open spec fn extracted(self, canonical: ImageHandle) -> RenderWorld {
        RenderWorld { image: Some(canonical), bind_group: None, ..self }
    }

    /// The world after the binding set was built from the mirror.
    pub open spec fn bound(self) -> RenderWorld
        recommends
            self.image is Some,
    {
        RenderWorld {
            bind_group: Some(
                BindingSet { layout: self.pipeline.texture_bind_group_layout, image: self.image.unwrap() },
            ),
            ..self
        }
    }

    /// The world after the node ran with the given statuses.
    pub open spec fn ran(self, init: PipelineStatus, update: PipelineStatus) -> RenderWorld {
        RenderWorld { node: next_state(self.node, init, update), seen: Poll { init, update }, ..self }
    }

    /// The command that the node issues with the given statuses.
    pub open spec fn command(self, init: PipelineStatus, update: PipelineStatus) -> FrameCommand
        recommends
            self.bind_group is Some,
    {
        match stage_run(self.node, init, update) {
            Some(stage) => FrameCommand::Dispatch {
                pipeline: self.pipeline.id_of(stage),
                bind_group: self.bind_group.unwrap(),
                groups: groups_for(SIZE.0, SIZE.1, WORKGROUP_SIZE),
            },
            None => FrameCommand::Idle,
        }
    }

    /// What the node hands back with the given statuses.
    pub open spec fn report(self, init: PipelineStatus, update: PipelineStatus) -> FrameReport
        recommends
            self.bind_group is Some,
    {
        FrameReport {
            command: self.command(init, update),
            init_failed: newly_failed(self.seen.init, init),
            update_failed: newly_failed(self.seen.update, update),
        }
    }

    /// The world after one whole frame.
    pub open spec fn after_frame(self, canonical: ImageHandle, init: PipelineStatus, update: PipelineStatus) -> RenderWorld {
        self.extracted(canonical).bound().ran(init, update)
    }

    /// What one whole frame hands back.
    pub open spec fn frame_report(self, canonical: ImageHandle, init: PipelineStatus, update: PipelineStatus) -> FrameReport {
        self.extracted(canonical).bound().report(init, update)
    }

    /// The render world at start: nothing mirrored, nothing bound, the node
    /// loading, both pipelines queued.
    pub fn new(pipeline: KuwaharaPipeline) -> (world: RenderWorld)
        ensures
            world == (RenderWorld {
                pipeline,
                image: None,
                bind_group: None,
                node: NodeState::Loading,
                seen: Poll { init: PipelineStatus::Queued, update: PipelineStatus::Queued },
            }),
    {
        RenderWorld {
            pipeline,
            image: None,
            bind_group: None,
            node: NodeState::Loading,
            seen: Poll { init: PipelineStatus::Queued, update: PipelineStatus::Queued },
        }
    }

    /// Start of a frame: mirrors the canonical image reference, whatever the
    /// mirror held, and drops the binding set of the frame before.
    pub fn extract(&mut self, canonical: ImageHandle)
        ensures
            *final(self) == old(self).extracted(canonical),
    {
        self.image = Some(canonical);
        self.bind_group = None;
    }

    /// Builds this frame's binding set: the mirrored image on the slot of
    /// the pipelines' layout. The extraction must have run.
    pub fn queue_bind_group(&mut self)
        requires
            old(self).image is Some,
        ensures
            *final(self) == old(self).bound(),
    {
        match self.image {
            Some(image) => {
                self.bind_group = Some(
                    BindingSet { layout: self.pipeline.texture_bind_group_layout, image },
                );
            },
            None => {},
        }
    }

    /// Runs the dispatch node against this frame's binding set, which must
    /// have been built.
    pub fn run(&mut self, init: PipelineStatus, update: PipelineStatus) -> (report: FrameReport)
        requires
            old(self).bind_group is Some,
        ensures
            *final(self) == old(self).ran(init, update),
            report == old(self).report(init, update),
    {
        let init_failed: bool = reports_failure(self.seen.init, init);
        let update_failed: bool = reports_failure(self.seen.update, update);
        let pipeline: KuwaharaPipeline = self.pipeline;
        let mut node: NodeState = self.node;
        let issued: DispatchCommand = run_node(&mut node, init, update, SIZE.0, SIZE.1);
        self.node = node;
        self.seen = Poll { init, update };
        let command: FrameCommand = match (issued, self.bind_group) {
            (DispatchCommand::Dispatch { stage, groups }, Some(bind_group)) => {
                let id: PipelineId = match stage {
                    ComputeStage::Init => pipeline.init_pipeline,
                    ComputeStage::Update => pipeline.update_pipeline,
                };
                FrameCommand::Dispatch { pipeline: id, bind_group, groups }
            },
            _ => FrameCommand::Idle,
        };
        FrameReport { command, init_failed, update_failed }
    }

    /// One whole frame in its fixed order: extraction, binding set, node.
    /// A dispatch of this frame is bound to `canonical` and to nothing older.
    pub fn frame(&mut self, canonical: ImageHandle, init: PipelineStatus, update: PipelineStatus) -> (report: FrameReport)
        ensures
            *final(self) == old(self).after_frame(canonical, init, update),
            report == old(self).frame_report(canonical, init, update),
            final(self).image == Some(canonical),
            final(self).bind_group == Some(
                (BindingSet { layout: old(self).pipeline.texture_bind_group_layout, image: canonical }),
            ),
            report.command matches FrameCommand::Dispatch { bind_group, .. } ==> bind_group.image
                == canonical,
            report.command is Idle <==> stage_run(old(self).node, init, update) is None,
    {
        self.extract(canonical);
        self.queue_bind_group();
        self.run(init, update)
    }
}

/// Every binding set reflects the extraction of its own frame: after two
/// frames with the references `earlier` and `later`, the binding set is the
/// one built from `later`, and a dispatch of the second frame is bound to
/// `later`, whether or not the reference changed between the frames.
pub proof fn lemma_binding_follows_extraction(
    world: RenderWorld,
    earlier: ImageHandle,
    later: ImageHandle,
    first: Poll,
    second: Poll,
)
    ensures
        ({
            let between = world.after_frame(earlier, first.init, first.update);
            let after = between.after_frame(later, second.init, second.update);
            let report = between.frame_report(later, second.init, second.update);
            &&& after.image == Some(later)
            &&& after.bind_group == Some(
                (BindingSet { layout: world.pipeline.texture_bind_group_layout, image: later }),
            )
            &&& (report.command matches FrameCommand::Dispatch { bind_group, .. } ==> bind_group.image
                == later)
        }),
{
}

/// The binding set that a dispatch uses is never older than the frame's
/// extraction: extraction leaves no binding set behind, so the node can only
/// run against one built after it.
pub proof fn lemma_no_stale_binding(world: RenderWorld, canonical: ImageHandle)
    ensures
        world.extracted(canonical).bind_group is None,
        world.extracted(canonical).bound().bind_group == Some(
            (BindingSet { layout: world.pipeline.texture_bind_group_layout, image: canonical }),
        ),
{
}

/// What one frame is given: the canonical image reference, and the statuses
/// that the pipeline cache resolves.
pub struct FrameInput {
    pub canonical: ImageHandle,
    pub poll: Poll,
}

/// The statuses of a run of frames.
pub open spec fn polls_of(frames: Seq<FrameInput>) -> Seq<Poll> {
    Seq::new(frames.len(), |i: int| frames[i].poll)
}

/// The world after a run of frames.
pub open spec fn world_after(world: RenderWorld, frames: Seq<FrameInput>) -> RenderWorld
    decreases frames.len(),
{
    if frames.len() == 0 {
        world
    } else {
        world_after(world, frames.drop_last()).after_frame(
            frames.last().canonical,
            frames.last().poll.init,
            frames.last().poll.update,
        )
    }
}

/// The command of frame `i` of a run.
pub open spec fn command_at(world: RenderWorld, frames: Seq<FrameInput>, i: int) -> FrameCommand
    recommends
        0 <= i < frames.len(),
{
    world_after(world, frames.take(i)).frame_report(
        frames[i].canonical,
        frames[i].poll.init,
        frames[i].poll.update,
    ).command
}

/// Over a run of frames the world keeps its pipelines, and its node is where
/// the statuses of the run take it.
pub proof fn lemma_world_follows_node(world: RenderWorld, frames: Seq<FrameInput>)
    ensures
        world_after(world, frames).pipeline == world.pipeline,
        world_after(world, frames).node == state_after(world.node, polls_of(frames)),
    decreases frames.len(),
{
    if frames.len() > 0 {
        lemma_world_follows_node(world, frames.drop_last());
        assert(polls_of(frames).drop_last() =~= polls_of(frames.drop_last()));
    }
}

/// A run of frames from a loading node: every frame before the first that
/// finds both pipelines ready issues nothing; that frame dispatches the init
/// pipeline, once; every later frame dispatches the update pipeline. Each
/// dispatch covers the whole target and is bound to the image reference
/// extracted in its own frame.
pub proof fn lemma_run_of_frames(world: RenderWorld, frames: Seq<FrameInput>, first: int, i: int)
    requires
        world.node == NodeState::Loading,
        0 <= first < frames.len(),
        0 <= i < frames.len(),
        none_ready(polls_of(frames), first),
        both_ready(frames[first].poll.init, frames[first].poll.update),
    ensures
        i < first ==> command_at(world, frames, i) == FrameCommand::Idle,
        i >= first ==> command_at(world, frames, i) == (FrameCommand::Dispatch {
            pipeline: if i == first {
                world.pipeline.init_pipeline
            } else {
                world.pipeline.update_pipeline
            },
            bind_group: BindingSet {
                layout: world.pipeline.texture_bind_group_layout,
                image: frames[i].canonical,
            },
            groups: groups_for(SIZE.0, SIZE.1, WORKGROUP_SIZE),
        }),
{
    lemma_world_follows_node(world, frames.take(i));
    assert(polls_of(frames.take(i)) =~= polls_of(frames).take(i));
    lemma_init_exactly_once(polls_of(frames), first, i);
    assert(stage_at(polls_of(frames), i) == stage_run(
        world_after(world, frames.take(i)).node,
        frames[i].poll.init,
        frames[i].poll.update,
    ));
}

} // verus!
