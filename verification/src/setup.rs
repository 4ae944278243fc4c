//! The order of the outside work that prepares the GPU, and what a failure
//! of any piece of it means.
//!
//! The work is one straight line: each step needs what the step before it
//! produced. A [`Setup`] says which step is due and with which parameters; the
//! caller does the work and reports whether it succeeded. A failure is final.

use crate::device::{
    adapter_options, device_options, instance_options, AdapterOptions, DeviceOptions,
    InstanceOptions,
};
use crate::pipeline::{
    pipeline_layout_options, render_pipeline_options, PipelineLayoutOptions,
    RenderPipelineOptions, VERTEX_ENTRY_POINT,
};
use crate::surface::{
    configuration_for, surface_configuration, SurfaceConfiguration, WindowSize,
};
use vstd::prelude::*;

verus! {

/// The pieces of outside work, in the order in which they are done.
#[derive(Clone, Copy, Debug, PartialEq, Eq, Structural)]
pub enum Step {
    Instance,
    Surface,
    Adapter,
    Device,
    SurfaceConfiguration,
    ShaderModule,
    PipelineLayout,
    RenderPipeline,
}

/// Number of steps from the first to the last.
pub const STEP_COUNT: usize = 8;

impl Step {
    /// Place of the step in the order, counted from zero.
    pub open spec fn position(self) -> nat {
        match self {
            Step::Instance => 0,
            Step::Surface => 1,
            Step::Adapter => 2,
            Step::Device => 3,
            Step::SurfaceConfiguration => 4,
            Step::ShaderModule => 5,
            Step::PipelineLayout => 6,
            Step::RenderPipeline => 7,
        }
    }

    /// The step that follows, if any does.
    pub open spec fn successor(self) -> Option<Step> {
        match self {
            Step::Instance => Some(Step::Surface),
            Step::Surface => Some(Step::Adapter),
            Step::Adapter => Some(Step::Device),
            Step::Device => Some(Step::SurfaceConfiguration),
            Step::SurfaceConfiguration => Some(Step::ShaderModule),
            Step::ShaderModule => Some(Step::PipelineLayout),
            Step::PipelineLayout => Some(Step::RenderPipeline),
            Step::RenderPipeline => None,
        }
    }

    /// What the process says when it gives up because this step failed.
    pub open spec fn diagnostic(self) -> Seq<char> {
        match self {
            Step::Instance => "Failed to create instance"@,
            Step::Surface => "Failed to create surface"@,
            Step::Adapter => "Failed to find appropriate adapter"@,
            Step::Device => "Failed to create device"@,
            Step::SurfaceConfiguration => "Failed to configure surface"@,
            Step::ShaderModule => "Failed to create shader module"@,
            Step::PipelineLayout => "Failed to create pipeline layout"@,
            Step::RenderPipeline => "Failed to create render pipeline"@,
        }
    }

    /// The step that follows this one, or `None` after the last.
    pub fn next(self) -> (following: Option<Step>)
        ensures
            following == self.successor(),
            following matches Some(step) ==> step.position() == self.position() + 1,
            following is None <==> self.position() + 1 == STEP_COUNT,
    {
        match self {
            Step::Instance => Some(Step::Surface),
            Step::Surface => Some(Step::Adapter),
            Step::Adapter => Some(Step::Device),
            Step::Device => Some(Step::SurfaceConfiguration),
            Step::SurfaceConfiguration => Some(Step::ShaderModule),
            Step::ShaderModule => Some(Step::PipelineLayout),
            Step::PipelineLayout => Some(Step::RenderPipeline),
            Step::RenderPipeline => None,
        }
    }

    /// The message to abort with when this step failed. It is never empty.
    pub fn failure_message(self) -> (message: &'static str)
        ensures
            message@ == self.diagnostic(),
            message@.len() > 0,
    {
        proof {
            lemma_diagnostic_is_not_empty(self);
        }
        match self {
            Step::Instance => "Failed to create instance",
            Step::Surface => "Failed to create surface",
            Step::Adapter => "Failed to find appropriate adapter",
            Step::Device => "Failed to create device",
            Step::SurfaceConfiguration => "Failed to configure surface",
            Step::ShaderModule => "Failed to create shader module",
            Step::PipelineLayout => "Failed to create pipeline layout",
            Step::RenderPipeline => "Failed to create render pipeline",
        }
    }
}

/// Every step has a diagnostic of at least one character.
pub proof fn lemma_diagnostic_is_not_empty(step: Step)
    ensures
        step.diagnostic().len() > 0,
{
    reveal_strlit("Failed to create instance");
    reveal_strlit("Failed to create surface");
    reveal_strlit("Failed to find appropriate adapter");
    reveal_strlit("Failed to create device");
    reveal_strlit("Failed to configure surface");
    reveal_strlit("Failed to create shader module");
    reveal_strlit("Failed to create pipeline layout");
    reveal_strlit("Failed to create render pipeline");
}

/// How far the setup has come.
#[derive(Clone, Copy, Debug, PartialEq, Eq, Structural)]
pub enum Progress {
    /// The step is due: its work is to be done now.
    Pending(Step),
    /// Every step succeeded; the event loop can start.
    Ready,
    /// The step failed, and the setup with it.
    Aborted(Step),
}

/// What the caller reports of the work it was told to do. Work that has no
/// way to tell its caller of a failure is reported as completed.
#[derive(Clone, Copy, Debug, PartialEq, Eq, Structural)]
pub enum Reply {
    Completed,
    Failed,
}

/// What the caller is told to do next.
#[derive(Debug, PartialEq)]
pub enum Action {
    CreateInstance(InstanceOptions),
    /// Bind the window to a surface of the instance.
    CreateSurface,
    RequestAdapter(AdapterOptions),
    RequestDevice(DeviceOptions),
    ConfigureSurface(SurfaceConfiguration),
    /// Compile the embedded shader source.
    CreateShaderModule,
    CreatePipelineLayout(PipelineLayoutOptions),
    CreateRenderPipeline(RenderPipelineOptions),
    /// The setup is complete: run the window's event loop.
    EnterEventLoop,
    /// Give up, with the diagnostic of the step that failed.
    Abort(Step),
}

impl Progress {
    /// Holds when no reply can change the progress any more.
    pub open spec fn is_settled(self) -> bool {
        !(self is Pending)
    }

    /// Progress after one more reply. A failed step aborts the setup, a
    /// completed one makes the next step due, and a settled setup stays as
    /// it is.
    pub open spec fn after(self, reply: Reply) -> Progress {
        match self {
            Progress::Pending(step) => match reply {
                Reply::Failed => Progress::Aborted(step),
                Reply::Completed => match step.successor() {
                    Some(following) => Progress::Pending(following),
                    None => Progress::Ready,
                },
            },
            _ => self,
        }
    }
}

/// What a [`Setup`] stands for: how far it has come, and the inner size that
/// the window had when it was started.
pub struct SetupView {
    pub progress: Progress,
    pub size: WindowSize,
}

impl SetupView {
    /// A setup that was just started for a window of `size`.
    pub open spec fn start(size: WindowSize) -> SetupView {
        SetupView { progress: Progress::Pending(Step::Instance), size }
    }

    /// The setup after one more reply.
    pub open spec fn after(self, reply: Reply) -> SetupView {
        SetupView { progress: self.progress.after(reply), size: self.size }
    }

    /// The setup after `replies`, taken one after the other.
    pub open spec fn after_all(self, replies: Seq<Reply>) -> SetupView
        decreases replies.len(),
    {
        if replies.len() == 0 {
            self
        } else {
            self.after_all(replies.drop_last()).after(replies.last())
        }
    }

    /// Holds when `action` is what the setup tells its caller to do.
    pub open spec fn calls_for(self, action: Action) -> bool {
        match self.progress {
            Progress::Pending(Step::Instance) => action matches Action::CreateInstance(options)
                && options.is_metal_instance(),
            Progress::Pending(Step::Surface) => action == Action::CreateSurface,
            Progress::Pending(Step::Adapter) => action matches Action::RequestAdapter(options)
                && options.is_surface_adapter(),
            Progress::Pending(Step::Device) => action matches Action::RequestDevice(options)
                && options.is_featureless() && options.has_default_limits(),
            Progress::Pending(Step::SurfaceConfiguration) => action == Action::ConfigureSurface(
                configuration_for(self.size),
            ),
            Progress::Pending(Step::ShaderModule) => action == Action::CreateShaderModule,
            Progress::Pending(Step::PipelineLayout) => action matches Action::CreatePipelineLayout(
                options,
            ) && options.is_empty(),
            Progress::Pending(Step::RenderPipeline) => action matches Action::CreateRenderPipeline(
                options,
            ) && options.is_vertex_only(),
            Progress::Ready => action == Action::EnterEventLoop,
            Progress::Aborted(step) => action == Action::Abort(step),
        }
    }
}

/// A setup in progress.
#[derive(Clone, Copy, Debug, PartialEq, Eq)]
pub struct Setup {
    progress: Progress,
    size: WindowSize,
}

impl View for Setup {
    type V = SetupView;

    closed spec fn view(&self) -> SetupView {
        SetupView { progress: self.progress, size: self.size }
    }
}

impl Setup {
    /// Starts a setup for a window whose inner size was just measured as
    /// `size`. The first step is due.
    pub fn new(size: WindowSize) -> (setup: Setup)
        ensures
            setup@ == SetupView::start(size),
    {
        Setup { progress: Progress::Pending(Step::Instance), size }
    }

    /// How far the setup has come.
    pub fn progress(&self) -> (progress: Progress)
        ensures
            progress == self@.progress,
    {
        self.progress
    }

    /// The size the setup was started with.
    pub fn window_size(&self) -> (size: WindowSize)
        ensures
            size == self@.size,
    {
        self.size
    }

    /// Whether the setup has ended, in success or in failure.
    pub fn is_settled(&self) -> (settled: bool)
        ensures
            settled == self@.progress.is_settled(),
    {
        match self.progress {
            Progress::Pending(_) => false,
            _ => true,
        }
    }

    /// What the caller has to do now.
    pub fn action(&self) -> (action: Action)
        ensures
            self@.calls_for(action),
    {
        match self.progress {
            Progress::Pending(Step::Instance) => Action::CreateInstance(instance_options()),
            Progress::Pending(Step::Surface) => Action::CreateSurface,
            Progress::Pending(Step::Adapter) => Action::RequestAdapter(adapter_options()),
            Progress::Pending(Step::Device) => Action::RequestDevice(device_options()),
            Progress::Pending(Step::SurfaceConfiguration) => Action::ConfigureSurface(
                surface_configuration(self.size),
            ),
            Progress::Pending(Step::ShaderModule) => Action::CreateShaderModule,
            Progress::Pending(Step::PipelineLayout) => Action::CreatePipelineLayout(
                pipeline_layout_options(),
            ),
            Progress::Pending(Step::RenderPipeline) => Action::CreateRenderPipeline(
                render_pipeline_options(),
            ),
            Progress::Ready => Action::EnterEventLoop,
            Progress::Aborted(step) => Action::Abort(step),
        }
    }

    /// Takes the caller's report on the work that [`Setup::action`] named.
    /// The window size that the setup was started with never changes.
    pub fn advance(&mut self, reply: Reply)
        ensures
            final(self)@ == old(self)@.after(reply),
            final(self)@.size == old(self)@.size,
    {
        match self.progress {
            Progress::Pending(step) => {
                match reply {
                    Reply::Failed => {
                        self.progress = Progress::Aborted(step);
                    },
                    Reply::Completed => {
                        match step.next() {
                            Some(following) => {
                                self.progress = Progress::Pending(following);
                            },
                            None => {
                                self.progress = Progress::Ready;
                            },
                        }
                    },
                }
            },
            _ => {},
        }
    }
}

/// Holds when each of the first `count` replies, as far as there are so
/// many, reports success.
pub open spec fn all_completed(replies: Seq<Reply>, count: int) -> bool {
    forall|i: int| 0 <= i < count && i < replies.len() ==> replies[i] == Reply::Completed
}

/// No reply changes the window size that a setup was started with.
pub proof fn lemma_size_is_kept(view: SetupView, replies: Seq<Reply>)
    ensures
        view.after_all(replies).size == view.size,
    decreases replies.len(),
{
    if replies.len() > 0 {
        lemma_size_is_kept(view, replies.drop_last());
    }
}

/// Where a setup stands is read off its replies. A step is due when exactly
/// the steps before it were reported, all as completed. The setup is ready
/// when the first eight replies all report success. It is aborted at a step
/// when that step's reply is the first that reports a failure.
pub proof fn lemma_progress_of_replies(size: WindowSize, replies: Seq<Reply>)
    ensures
        match SetupView::start(size).after_all(replies).progress {
            Progress::Pending(step) => {
                &&& step.position() == replies.len()
                &&& all_completed(replies, replies.len() as int)
            },
            Progress::Ready => {
                &&& replies.len() >= STEP_COUNT
                &&& all_completed(replies, STEP_COUNT as int)
            },
            Progress::Aborted(step) => {
                &&& step.position() < replies.len()
                &&& replies[step.position() as int] == Reply::Failed
                &&& all_completed(replies, step.position() as int)
            },
        },
    decreases replies.len(),
{
    if replies.len() > 0 {
        let earlier = replies.drop_last();
        lemma_progress_of_replies(size, earlier);
        assert(forall|i: int| 0 <= i < earlier.len() ==> earlier[i] == replies[i]);
    }
}

/// A setup never hangs: after eight replies it is ready or aborted,
/// whatever the replies were.
pub proof fn lemma_setup_settles(size: WindowSize, replies: Seq<Reply>)
    requires
        replies.len() >= STEP_COUNT,
    ensures
        SetupView::start(size).after_all(replies).progress.is_settled(),
{
    lemma_progress_of_replies(size, replies);
}

/// A setup that is ready or aborted stays so, whatever is reported to it.
pub proof fn lemma_settled_is_final(view: SetupView, replies: Seq<Reply>)
    requires
        view.progress.is_settled(),
    ensures
        view.after_all(replies) == view,
    decreases replies.len(),
{
    if replies.len() > 0 {
        lemma_settled_is_final(view, replies.drop_last());
    }
}

/// A step that is due ends in one of two ways and in no third: it is
/// reported as completed and the setup goes on, or it is reported as failed
/// and the setup is aborted, with a diagnostic that is not empty. This holds
/// of the requests for the adapter and for the device as of every other step.
pub proof fn lemma_step_succeeds_or_aborts(view: SetupView, step: Step, reply: Reply)
    requires
        view.progress == Progress::Pending(step),
    ensures
        reply == Reply::Completed ==> view.after(reply).progress == (match step.successor() {
            Some(following) => Progress::Pending(following),
            None => Progress::Ready,
        }),
        reply == Reply::Failed ==> view.after(reply).progress == Progress::Aborted(step),
        reply == Reply::Failed ==> view.after(reply).calls_for(Action::Abort(step)),
        step.diagnostic().len() > 0,
{
    lemma_diagnostic_is_not_empty(step);
}

/// Whenever a setup tells its caller to configure the surface, the width and
/// height to configure it with are those that the setup was started with.
pub proof fn lemma_surface_keeps_startup_size(
    size: WindowSize,
    replies: Seq<Reply>,
    action: Action,
)
    requires
        SetupView::start(size).after_all(replies).calls_for(action),
        action is ConfigureSurface,
    ensures
        action->ConfigureSurface_0.width == size.width,
        action->ConfigureSurface_0.height == size.height,
{
    lemma_size_is_kept(SetupView::start(size), replies);
}

/// Whenever a setup tells its caller to create the render pipeline, the
/// shader module was compiled successfully before, and the vertex entry
/// point that the pipeline is created with is set: it is `vs_main`.
pub proof fn lemma_pipeline_has_vertex_entry_point(
    size: WindowSize,
    replies: Seq<Reply>,
    action: Action,
)
    requires
        SetupView::start(size).after_all(replies).calls_for(action),
        action is CreateRenderPipeline,
    ensures
        replies.len() > Step::ShaderModule.position(),
        replies[Step::ShaderModule.position() as int] == Reply::Completed,
        action->CreateRenderPipeline_0.vertex_entry_point@ == VERTEX_ENTRY_POINT@,
        action->CreateRenderPipeline_0.vertex_entry_point@.len() > 0,
{
    lemma_progress_of_replies(size, replies);
    reveal_strlit("vs_main");
}

} // verus!
