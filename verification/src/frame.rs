//! The commands of one frame, and what makes a list of commands a frame.
//!
//! A frame is recorded and submitted in a fixed order: a view of the acquired image
//! and a command encoder are created, one render pass is recorded and ended, the
//! recording is finished, submitted, and the image presented. Inside the pass the
//! pipeline, both bind groups and the vertex buffer are bound before the one draw.
use vstd::prelude::*;
use crate::pipeline::{LayoutId, CAMERA_GROUP, TEXTURE_GROUP};

verus! {

/// Bit pattern of the 64-bit float 1.0.
pub const ONE_F64: u64 = 0x3FF0_0000_0000_0000;

/// A colour, each channel the bit pattern of a 64-bit float.
#[derive(Clone, Copy, Debug, PartialEq, Eq, Structural)]
pub struct Color {
    pub r: u64,
    pub g: u64,
    pub b: u64,
    pub a: u64,
}

/// One step of drawing a frame, in the order the host performs them.
#[derive(Clone, Copy, Debug, PartialEq, Eq)]
pub enum RenderCommand {
    /// Create a view of the acquired image.
    CreateView { label: &'static str },
    /// Start recording commands.
    CreateEncoder { label: &'static str },
    /// Begin the one render pass, onto the view, with no depth attachment.
    BeginRenderPass { label: &'static str, clear: Color, store: bool },
    /// Bind the render pipeline.
    SetPipeline,
    /// Bind a bind group to a slot, with no dynamic offsets.
    SetBindGroup { index: u32, group: LayoutId },
    /// Bind the whole vertex buffer to a slot.
    SetVertexBuffer { slot: u32 },
    /// Draw vertices `first_vertex .. end_vertex` for instances
    /// `first_instance .. end_instance`, without indices.
    Draw { first_vertex: u32, end_vertex: u32, first_instance: u32, end_instance: u32 },
    /// End the render pass.
    EndRenderPass,
    /// Finish recording.
    Finish,
    /// Submit the recorded commands to the queue.
    Submit,
    /// Present the acquired image.
    Present,
}

/// The background of every frame: opaque red.
pub open spec fn clear_color() -> Color {
    Color { r: ONE_F64, g: 0, b: 0, a: ONE_F64 }
}

/// The commands of one frame that draws `vertex_count` vertices: one pass that
/// clears the target, binds the pipeline, the texture group at slot 0, the camera
/// group at slot 1 and the vertex buffer, and draws once; the pass ends and the
/// recording is finished before anything is submitted, and the image is presented
/// last.
pub open spec fn frame_commands(vertex_count: u32) -> Seq<RenderCommand> {
    seq![
        RenderCommand::CreateView { label: "Main output view" },
        RenderCommand::CreateEncoder { label: "Render Encoder" },
        RenderCommand::BeginRenderPass { label: "Render pass", clear: clear_color(), store: true },
        RenderCommand::SetPipeline,
        RenderCommand::SetBindGroup { index: TEXTURE_GROUP, group: LayoutId::Texture },
        RenderCommand::SetBindGroup { index: CAMERA_GROUP, group: LayoutId::Camera },
        RenderCommand::SetVertexBuffer { slot: 0 },
        RenderCommand::Draw {
            first_vertex: 0,
            end_vertex: vertex_count,
            first_instance: 0,
            end_instance: 1,
        },
        RenderCommand::EndRenderPass,
        RenderCommand::Finish,
        RenderCommand::Submit,
        RenderCommand::Present,
    ]
}

/// Records the commands of one frame that draws `vertex_count` vertices.
pub fn record_frame(vertex_count: u32) -> (r: Vec<RenderCommand>)
    ensures
        r@ == frame_commands(vertex_count),
{
    let clear = Color { r: ONE_F64, g: 0, b: 0, a: ONE_F64 };
    let commands = vec![
        RenderCommand::CreateView { label: "Main output view" },
        RenderCommand::CreateEncoder { label: "Render Encoder" },
        RenderCommand::BeginRenderPass { label: "Render pass", clear, store: true },
        RenderCommand::SetPipeline,
        RenderCommand::SetBindGroup { index: TEXTURE_GROUP, group: LayoutId::Texture },
        RenderCommand::SetBindGroup { index: CAMERA_GROUP, group: LayoutId::Camera },
        RenderCommand::SetVertexBuffer { slot: 0 },
        RenderCommand::Draw {
            first_vertex: 0,
            end_vertex: vertex_count,
            first_instance: 0,
            end_instance: 1,
        },
        RenderCommand::EndRenderPass,
        RenderCommand::Finish,
        RenderCommand::Submit,
        RenderCommand::Present,
    ];
    assert(commands@ =~= frame_commands(vertex_count));
    commands
}

/// How far a frame has come.
#[derive(Clone, Copy, Debug, PartialEq, Eq, Structural)]
pub enum Stage {
    /// The image is acquired and nothing else is done.
    Acquired,
    /// There is a view of the image.
    Viewed,
    /// There is an encoder, and no pass is open.
    Recording,
    /// The render pass is open.
    InPass,
    /// The render pass has ended.
    PassEnded,
    /// The recording is finished: there is a command buffer.
    Finished,
    /// The command buffer is submitted.
    Submitted,
    /// The image is presented.
    Presented,
}

/// What has been done of a frame so far.
#[derive(Clone, Copy, Debug, PartialEq, Eq, Structural)]
pub struct Progress {
    pub stage: Stage,
    /// The pipeline is bound.
    pub pipeline: bool,
    /// The texture group is bound at its slot.
    pub texture_group: bool,
    /// The camera group is bound at its slot.
    pub camera_group: bool,
    /// The vertex buffer is bound.
    pub vertex_buffer: bool,
    /// The draw is recorded.
    pub drawn: bool,
}

impl Progress {
    /// Nothing done yet.
    pub open spec fn start() -> Progress {
        Progress {
            stage: Stage::Acquired,
            pipeline: false,
            texture_group: false,
            camera_group: false,
            vertex_buffer: false,
            drawn: false,
        }
    }

    /// The progress after `command`, or `None` where the command is out of place.
    /// Commands of the pass are in place only while the pass is open; a bind group
    /// must go to its own slot; the draw needs the pipeline, both groups and the
    /// vertex buffer bound, covers the vertices from 0 up to `vertex_count` for one
    /// instance, and comes once; recording and submission never overlap.
    pub open spec fn step(self, command: RenderCommand, vertex_count: u32) -> Option<Progress> {
        match command {
            RenderCommand::CreateView { .. } => if self.stage == Stage::Acquired {
                Some(Progress { stage: Stage::Viewed, ..self })
            } else {
                None
            },
            RenderCommand::CreateEncoder { .. } => if self.stage == Stage::Viewed {
                Some(Progress { stage: Stage::Recording, ..self })
            } else {
                None
            },
            RenderCommand::BeginRenderPass { .. } => if self.stage == Stage::Recording {
                Some(Progress { stage: Stage::InPass, ..self })
            } else {
                None
            },
            RenderCommand::SetPipeline => if self.stage == Stage::InPass {
                Some(Progress { pipeline: true, ..self })
            } else {
                None
            },
            RenderCommand::SetBindGroup { index, group } => if self.stage == Stage::InPass
                && index == TEXTURE_GROUP && group == LayoutId::Texture {
                Some(Progress { texture_group: true, ..self })
            } else if self.stage == Stage::InPass && index == CAMERA_GROUP && group
                == LayoutId::Camera {
                Some(Progress { camera_group: true, ..self })
            } else {
                None
            },
            RenderCommand::SetVertexBuffer { slot } => if self.stage == Stage::InPass && slot
                == 0 {
                Some(Progress { vertex_buffer: true, ..self })
            } else {
                None
            },
            RenderCommand::Draw { first_vertex, end_vertex, first_instance, end_instance } => if {
                &&& self.stage == Stage::InPass
                &&& self.pipeline
                &&& self.texture_group
                &&& self.camera_group
                &&& self.vertex_buffer
                &&& !self.drawn
                &&& first_vertex == 0
                &&& end_vertex == vertex_count
                &&& first_instance == 0
                &&& end_instance == 1
            } {
                Some(Progress { drawn: true, ..self })
            } else {
                None
            },
            RenderCommand::EndRenderPass => if self.stage == Stage::InPass {
                Some(Progress { stage: Stage::PassEnded, ..self })
            } else {
                None
            },
            RenderCommand::Finish => if self.stage == Stage::PassEnded {
                Some(Progress { stage: Stage::Finished, ..self })
            } else {
                None
            },
            RenderCommand::Submit => if self.stage == Stage::Finished {
                Some(Progress { stage: Stage::Submitted, ..self })
            } else {
                None
            },
            RenderCommand::Present => if self.stage == Stage::Submitted {
                Some(Progress { stage: Stage::Presented, ..self })
            } else {
                None
            },
        }
    }

    /// The frame is complete: drawn, submitted and presented.
    pub open spec fn complete(self) -> bool {
        self.stage == Stage::Presented && self.drawn
    }

    /// Takes one command, if it is in place.
    pub fn advance(&self, command: &RenderCommand, vertex_count: u32) -> (r: Option<Progress>)
        ensures
            r == self.step(*command, vertex_count),
    {
        let mut next = *self;
        let in_place = match command {
            RenderCommand::CreateView { .. } => {
                next.stage = Stage::Viewed;
                self.stage == Stage::Acquired
            },
            RenderCommand::CreateEncoder { .. } => {
                next.stage = Stage::Recording;
                self.stage == Stage::Viewed
            },
            RenderCommand::BeginRenderPass { .. } => {
                next.stage = Stage::InPass;
                self.stage == Stage::Recording
            },
            RenderCommand::SetPipeline => {
                next.pipeline = true;
                self.stage == Stage::InPass
            },
            RenderCommand::SetBindGroup { index, group } => {
                if *index == TEXTURE_GROUP && *group == LayoutId::Texture {
                    next.texture_group = true;
                    self.stage == Stage::InPass
                } else if *index == CAMERA_GROUP && *group == LayoutId::Camera {
                    next.camera_group = true;
                    self.stage == Stage::InPass
                } else {
                    false
                }
            },
            RenderCommand::SetVertexBuffer { slot } => {
                next.vertex_buffer = true;
                self.stage == Stage::InPass && *slot == 0
            },
            RenderCommand::Draw { first_vertex, end_vertex, first_instance, end_instance } => {
                next.drawn = true;
                self.stage == Stage::InPass && self.pipeline && self.texture_group
                    && self.camera_group && self.vertex_buffer && !self.drawn && *first_vertex
                    == 0 && *end_vertex == vertex_count && *first_instance == 0 && *end_instance
                    == 1
            },
            RenderCommand::EndRenderPass => {
                next.stage = Stage::PassEnded;
                self.stage == Stage::InPass
            },
            RenderCommand::Finish => {
                next.stage = Stage::Finished;
                self.stage == Stage::PassEnded
            },
            RenderCommand::Submit => {
                next.stage = Stage::Submitted;
                self.stage == Stage::Finished
            },
            RenderCommand::Present => {
                next.stage = Stage::Presented;
                self.stage == Stage::Submitted
            },
        };
        if in_place {
            Some(next)
        } else {
            None
        }
    }
}

/// The progress after the first `n` of `commands`, or `None` where one of them is
/// out of place.
pub open spec fn progress_after(commands: Seq<RenderCommand>, n: int, vertex_count: u32) -> Option<
    Progress,
>
    decreases n,
{
    if n <= 0 {
        Some(Progress::start())
    } else {
        match progress_after(commands, n - 1, vertex_count) {
            Some(progress) => progress.step(commands[n - 1], vertex_count),
            None => None,
        }
    }
}

/// `commands` are a frame that draws `vertex_count` vertices: every command is in
/// place and the frame is complete at the end.
pub open spec fn is_frame(commands: Seq<RenderCommand>, vertex_count: u32) -> bool {
    match progress_after(commands, commands.len() as int, vertex_count) {
        Some(progress) => progress.complete(),
        None => false,
    }
}

/// Whether `commands` are a frame that draws `vertex_count` vertices.
pub fn check_frame(commands: &[RenderCommand], vertex_count: u32) -> (r: bool)
    ensures
        r == is_frame(commands@, vertex_count),
{
    let mut progress = Progress {
        stage: Stage::Acquired,
        pipeline: false,
        texture_group: false,
        camera_group: false,
        vertex_buffer: false,
        drawn: false,
    };
    let mut i: usize = 0;
    while i < commands.len()
        invariant
            i <= commands@.len(),
            progress_after(commands@, i as int, vertex_count) == Some(progress),
        decreases commands@.len() - i,
    {
        match progress.advance(&commands[i], vertex_count) {
            Some(next) => {
                progress = next;
            },
            None => {
                proof {
                    lemma_misplaced_command_spoils_frame(
                        commands@,
                        i + 1,
                        commands@.len() as int,
                        vertex_count,
                    );
                }
                return false;
            },
        }
        i += 1;
    }
    progress.stage == Stage::Presented && progress.drawn
}

/// Once a command is out of place, no later command mends the list.
pub proof fn lemma_misplaced_command_spoils_frame(
    commands: Seq<RenderCommand>,
    m: int,
    n: int,
    vertex_count: u32,
)
    requires
        0 <= m <= n,
        progress_after(commands, m, vertex_count).is_none(),
    ensures
        progress_after(commands, n, vertex_count).is_none(),
    decreases n - m,
{
    if m < n {
        lemma_misplaced_command_spoils_frame(commands, m, n - 1, vertex_count);
    }
}

/// What `record_frame` records is a frame.
pub proof fn lemma_frame_is_valid(vertex_count: u32)
    ensures
        is_frame(frame_commands(vertex_count), vertex_count),
{
    let c = frame_commands(vertex_count);
    reveal_with_fuel(progress_after, 13);
    assert(progress_after(c, 12, vertex_count).is_some());
}

/// The shape of every frame: exactly one draw, of the vertices from 0 up to the
/// count, for one instance; exactly two bind groups, the texture group at slot 0
/// and the camera group at slot 1, both bound before the draw; and the pass is
/// ended before the recording is finished, which comes before the submission,
/// which comes before the image is presented.
pub proof fn lemma_frame_shape(vertex_count: u32)
    ensures
        forall|i: int|
            0 <= i < frame_commands(vertex_count).len() ==> (
            #[trigger] frame_commands(vertex_count)[i] is Draw <==> i == 7),
        frame_commands(vertex_count)[7] == (RenderCommand::Draw {
            first_vertex: 0,
            end_vertex: vertex_count,
            first_instance: 0,
            end_instance: 1,
        }),
        forall|i: int|
            0 <= i < frame_commands(vertex_count).len() ==> (
            #[trigger] frame_commands(vertex_count)[i] is SetBindGroup <==> i == 4 || i == 5),
        frame_commands(vertex_count)[4] == (RenderCommand::SetBindGroup {
            index: 0,
            group: LayoutId::Texture,
        }),
        frame_commands(vertex_count)[5] == (RenderCommand::SetBindGroup {
            index: 1,
            group: LayoutId::Camera,
        }),
        frame_commands(vertex_count)[8] == RenderCommand::EndRenderPass,
        frame_commands(vertex_count)[9] == RenderCommand::Finish,
        frame_commands(vertex_count)[10] == RenderCommand::Submit,
        frame_commands(vertex_count)[11] == RenderCommand::Present,
        frame_commands(vertex_count).len() == 12,
{
}

} // verus!
