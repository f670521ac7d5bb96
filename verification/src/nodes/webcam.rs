//! The capture node: the lifecycle of a camera and the frames it emits.
//!
//! The node does not touch a device or a channel itself. Each operation
//! ([`WebcamNode::on_init`], [`WebcamNode::on_update`],
//! [`WebcamNode::on_shutdown`]) answers with a [`Command`] that the host
//! carries out on the capture backend or the output channel; the host hands
//! the outcome back with [`WebcamNode::resume`] and gets the next command,
//! until the command is [`Command::Finished`] with the result of the
//! operation.
//!
//! An update of a node that was never initialized opens the device first. A
//! node whose device could not be opened fully gives the device up: it has
//! the device released and holds none when the operation ends.

use crate::error::{CaptureError, LifecycleMisuse, NodeError};
use crate::frame::{frame_result_ok, normalize_frame, ChannelOrder, FramePayload};
use crate::pixel::{PixelBuffer, PixelData};
use vstd::prelude::*;

verus! {

/// Which device to open and the frame size to ask of it.
#[derive(Clone, Copy, Debug, PartialEq, Eq, Structural)]
pub struct WebcamNodeConfig {
    pub device_index: i32,
    pub frame_width: u32,
    pub frame_height: u32,
}

/// The kinds of capture backend.
#[derive(Clone, Copy, Debug, PartialEq, Eq, Structural)]
pub enum BackendKind {
    /// A native camera that is read frame by frame.
    NativeSync,
    /// A native camera that streams from the moment it is opened.
    NativeAsyncStream,
    /// A camera of a browser, acquired through a promise.
    BrowserAsync,
}

/// The states of the lifecycle.
#[derive(Clone, Copy, Debug, PartialEq, Eq, Structural)]
pub enum LifecycleState {
    Uninitialized,
    Ready,
    Failed,
    ShutDown,
}

/// The steps by which a backend opens its device.
#[derive(Clone, Copy, Debug, PartialEq, Eq, Structural)]
pub enum OpenStep {
    OpenDevice,
    CheckOpened,
    SetFrameWidth,
    SetFrameHeight,
    StartStream,
    ProbeFrame,
    AcquireDevice,
}

/// What the node waits for.
#[derive(Clone, Copy, Debug, PartialEq, Eq, Structural)]
pub enum Pending {
    Nothing,
    /// The outcome of a step of opening; `then_read` if a frame is to be read
    /// once the device is open.
    Open { step: OpenStep, then_read: bool },
    /// The frame that was asked of the device.
    Read,
    /// The outcome of handing a frame to the output channel.
    Emit,
    /// The outcome of releasing the device.
    Release,
    /// The outcome of releasing a device that could not be opened fully;
    /// `error` is what the step that failed reports.
    Abandon { error: CaptureError },
}

/// What the host is to do next.
#[derive(Debug, PartialEq, Eq)]
pub enum Command {
    /// Open the device with this index.
    OpenDevice(i32),
    /// Ask the device whether it is open.
    CheckOpened,
    SetFrameWidth(u32),
    SetFrameHeight(u32),
    /// Start the continuous capture stream.
    StartStream,
    /// Read one frame to see that the device delivers; the frame is not used.
    ProbeFrame,
    /// Acquire the device and wait until the acquisition has settled.
    AcquireDevice(WebcamNodeConfig),
    /// Wait for the next frame and hand it back.
    ReadFrame,
    /// Send the frame on the output channel.
    Emit(PixelBuffer),
    /// Free the device.
    Release,
    /// Nothing more: the operation has ended with this result.
    Finished(Result<(), NodeError>),
}

/// A command with the frame taken by its view.
pub enum CommandData {
    OpenDevice(i32),
    CheckOpened,
    SetFrameWidth(u32),
    SetFrameHeight(u32),
    StartStream,
    ProbeFrame,
    AcquireDevice(WebcamNodeConfig),
    ReadFrame,
    Emit(PixelData),
    Release,
    Finished(Result<(), NodeError>),
}

impl View for Command {
    type V = CommandData;

    open spec fn view(&self) -> CommandData {
        match self {
            Command::OpenDevice(i) => CommandData::OpenDevice(*i),
            Command::CheckOpened => CommandData::CheckOpened,
            Command::SetFrameWidth(w) => CommandData::SetFrameWidth(*w),
            Command::SetFrameHeight(h) => CommandData::SetFrameHeight(*h),
            Command::StartStream => CommandData::StartStream,
            Command::ProbeFrame => CommandData::ProbeFrame,
            Command::AcquireDevice(c) => CommandData::AcquireDevice(*c),
            Command::ReadFrame => CommandData::ReadFrame,
            Command::Emit(img) => CommandData::Emit(img@),
            Command::Release => CommandData::Release,
            Command::Finished(r) => CommandData::Finished(*r),
        }
    }
}

/// What came of a command.
#[derive(Debug, PartialEq, Eq)]
pub enum Reply {
    /// The command was carried out.
    Done,
    /// The device or the channel answered, and the answer is no.
    Refused,
    /// The command failed.
    Failed,
    /// The frame that was read.
    Frame(FramePayload),
}

/// The command that ends an operation with a misuse error.
pub open spec fn misuse(m: LifecycleMisuse) -> CommandData {
    CommandData::Finished(Err(NodeError::Lifecycle(m)))
}

/// The command that ends an operation with a failure of the device.
pub open spec fn failure(e: CaptureError) -> CommandData {
    CommandData::Finished(Err(NodeError::Capture(e)))
}

impl BackendKind {
    /// The first step of opening.
    pub open spec fn first_step(self) -> OpenStep {
        match self {
            BackendKind::BrowserAsync => OpenStep::AcquireDevice,
            _ => OpenStep::OpenDevice,
        }
    }

    /// The step that follows `step`, or `None` after the last one.
    ///
    /// A native camera is opened, asked whether it is open, and told the
    /// frame size; a streaming one then starts its stream; and both must
    /// deliver one frame. A browser camera is acquired in one step.
    pub open spec fn step_after(self, step: OpenStep) -> Option<OpenStep> {
        match step {
            OpenStep::OpenDevice => Some(OpenStep::CheckOpened),
            OpenStep::CheckOpened => Some(OpenStep::SetFrameWidth),
            OpenStep::SetFrameWidth => Some(OpenStep::SetFrameHeight),
            OpenStep::SetFrameHeight => if self == BackendKind::NativeAsyncStream {
                Some(OpenStep::StartStream)
            } else {
                Some(OpenStep::ProbeFrame)
            },
            OpenStep::StartStream => Some(OpenStep::ProbeFrame),
            OpenStep::ProbeFrame => None,
            OpenStep::AcquireDevice => None,
        }
    }

    /// Whether the backend takes the step when it opens its device.
    pub open spec fn has_step(self, step: OpenStep) -> bool {
        match self {
            BackendKind::NativeSync => step != OpenStep::AcquireDevice && step
                != OpenStep::StartStream,
            BackendKind::NativeAsyncStream => step != OpenStep::AcquireDevice,
            BackendKind::BrowserAsync => step == OpenStep::AcquireDevice,
        }
    }

    pub fn first(self) -> (step: OpenStep)
        ensures
            step == self.first_step(),
    {
        match self {
            BackendKind::BrowserAsync => OpenStep::AcquireDevice,
            _ => OpenStep::OpenDevice,
        }
    }

    pub fn next(self, step: OpenStep) -> (next: Option<OpenStep>)
        ensures
            next == self.step_after(step),
    {
        match step {
            OpenStep::OpenDevice => Some(OpenStep::CheckOpened),
            OpenStep::CheckOpened => Some(OpenStep::SetFrameWidth),
            OpenStep::SetFrameWidth => Some(OpenStep::SetFrameHeight),
            OpenStep::SetFrameHeight => match self {
                BackendKind::NativeAsyncStream => Some(OpenStep::StartStream),
                _ => Some(OpenStep::ProbeFrame),
            },
            OpenStep::StartStream => Some(OpenStep::ProbeFrame),
            OpenStep::ProbeFrame => None,
            OpenStep::AcquireDevice => None,
        }
    }
}

impl OpenStep {
    /// The command that asks the host to take the step.
    pub open spec fn command_for(self, config: WebcamNodeConfig) -> CommandData {
        match self {
            OpenStep::OpenDevice => CommandData::OpenDevice(config.device_index),
            OpenStep::CheckOpened => CommandData::CheckOpened,
            OpenStep::SetFrameWidth => CommandData::SetFrameWidth(config.frame_width),
            OpenStep::SetFrameHeight => CommandData::SetFrameHeight(config.frame_height),
            OpenStep::StartStream => CommandData::StartStream,
            OpenStep::ProbeFrame => CommandData::ProbeFrame,
            OpenStep::AcquireDevice => CommandData::AcquireDevice(config),
        }
    }

    /// The error of a step that did not succeed: a device that was opened and
    /// does not stream or deliver is not ready; anything earlier is a failure
    /// to open.
    pub open spec fn failure_of(self) -> CaptureError {
        match self {
            OpenStep::StartStream | OpenStep::ProbeFrame => CaptureError::DeviceNotReady,
            _ => CaptureError::DeviceOpen,
        }
    }

    /// Whether the host holds a device once the step has succeeded and not before.
    pub open spec fn takes_device(self) -> bool {
        self == OpenStep::OpenDevice || self == OpenStep::AcquireDevice
    }

    /// Whether the reply says that the step succeeded. The probe may hand its
    /// frame back.
    pub open spec fn succeeded(self, reply: Reply) -> bool {
        reply is Done || (self == OpenStep::ProbeFrame && reply is Frame)
    }

    pub fn command(self, config: WebcamNodeConfig) -> (cmd: Command)
        ensures
            cmd@ == self.command_for(config),
    {
        match self {
            OpenStep::OpenDevice => Command::OpenDevice(config.device_index),
            OpenStep::CheckOpened => Command::CheckOpened,
            OpenStep::SetFrameWidth => Command::SetFrameWidth(config.frame_width),
            OpenStep::SetFrameHeight => Command::SetFrameHeight(config.frame_height),
            OpenStep::StartStream => Command::StartStream,
            OpenStep::ProbeFrame => Command::ProbeFrame,
            OpenStep::AcquireDevice => Command::AcquireDevice(config),
        }
    }

    pub fn failure(self) -> (e: CaptureError)
        ensures
            e == self.failure_of(),
    {
        match self {
            OpenStep::StartStream | OpenStep::ProbeFrame => CaptureError::DeviceNotReady,
            _ => CaptureError::DeviceOpen,
        }
    }

    pub fn has_succeeded(self, reply: &Reply) -> (b: bool)
        ensures
            b == self.succeeded(*reply),
    {
        match reply {
            Reply::Done => true,
            Reply::Frame(_) => match self {
                OpenStep::ProbeFrame => true,
                _ => false,
            },
            _ => false,
        }
    }
}

/// The state of a capture node.
#[derive(Clone, Copy, Debug, PartialEq, Eq, Structural)]
pub struct NodeData {
    pub state: LifecycleState,
    /// Whether the host holds a device that was opened and not released.
    pub device_held: bool,
    pub pending: Pending,
    pub backend: BackendKind,
    pub config: WebcamNodeConfig,
}

impl NodeData {
    /// A node as it is constructed.
    pub open spec fn fresh(config: WebcamNodeConfig, backend: BackendKind) -> NodeData {
        NodeData {
            state: LifecycleState::Uninitialized,
            device_held: false,
            pending: Pending::Nothing,
            backend,
            config,
        }
    }

    /// The node with another lifecycle state, waiting for nothing.
    pub open spec fn settled(self, state: LifecycleState, device_held: bool) -> NodeData {
        NodeData { state, device_held, pending: Pending::Nothing, ..self }
    }

    /// The node waiting for something else.
    pub open spec fn waiting(self, pending: Pending) -> NodeData {
        NodeData { pending, ..self }
    }

    /// What holds of every node: a ready node holds a device; a node that is
    /// shut down or was never opened holds none; a node holds a device
    /// between its opening and its release only; and the node waits only
    /// for what its state allows.
    pub open spec fn well_formed(self) -> bool {
        &&& self.state == LifecycleState::Ready ==> self.device_held
        &&& self.state == LifecycleState::ShutDown ==> !self.device_held
        &&& match self.pending {
            Pending::Nothing => self.state == LifecycleState::Uninitialized ==> !self.device_held,
            Pending::Open { step, then_read } => {
                &&& self.state == LifecycleState::Uninitialized
                &&& self.backend.has_step(step)
                &&& self.device_held == !step.takes_device()
            },
            Pending::Read | Pending::Emit => self.state == LifecycleState::Ready,
            Pending::Release => self.device_held,
            Pending::Abandon { error } => self.state == LifecycleState::Uninitialized
                && self.device_held,
        }
    }

    /// The node starts to open its device.
    pub open spec fn opening(self, then_read: bool) -> (NodeData, CommandData) {
        let step = self.backend.first_step();
        (self.waiting(Pending::Open { step, then_read }), step.command_for(self.config))
    }

    /// Initialization: allowed in the state `Uninitialized` only.
    pub open spec fn initialized(self) -> (NodeData, CommandData) {
        if self.pending != Pending::Nothing {
            (self, misuse(LifecycleMisuse::OutOfTurn))
        } else if self.state == LifecycleState::Uninitialized {
            self.opening(false)
        } else {
            (self, misuse(LifecycleMisuse::AlreadyInitialized))
        }
    }

    /// Update. Without a trigger it does nothing and succeeds. With one, a
    /// ready node reads a frame, a node that was never initialized opens its
    /// device first, and a node that has failed or is shut down is not ready.
    pub open spec fn updated(self, triggered: bool) -> (NodeData, CommandData) {
        if self.pending != Pending::Nothing {
            (self, misuse(LifecycleMisuse::OutOfTurn))
        } else if !triggered {
            (self, CommandData::Finished(Ok(())))
        } else {
            match self.state {
                LifecycleState::Uninitialized => self.opening(true),
                LifecycleState::Ready => (self.waiting(Pending::Read), CommandData::ReadFrame),
                _ => (self, misuse(LifecycleMisuse::NotReady)),
            }
        }
    }

    /// Shutdown: the device is released if the node holds one.
    pub open spec fn shut_down(self) -> (NodeData, CommandData) {
        if self.pending != Pending::Nothing {
            (self, misuse(LifecycleMisuse::OutOfTurn))
        } else if self.state == LifecycleState::ShutDown {
            (self, misuse(LifecycleMisuse::AlreadyShutDown))
        } else if !self.device_held {
            (self, misuse(LifecycleMisuse::NoActiveDevice))
        } else {
            (self.waiting(Pending::Release), CommandData::Release)
        }
    }

    /// The node after a step of opening. A step that succeeds is followed by
    /// the next one, and the last one makes the node ready. A step that fails
    /// fails the node with the error of the step; a device that an earlier
    /// step has taken is released first, so that the failed node keeps none.
    pub open spec fn opened(self, step: OpenStep, then_read: bool, reply: Reply) -> (
        NodeData,
        CommandData,
    ) {
        if !step.succeeded(reply) {
            if self.device_held {
                (
                    self.waiting(Pending::Abandon { error: step.failure_of() }),
                    CommandData::Release,
                )
            } else {
                (self.settled(LifecycleState::Failed, false), failure(step.failure_of()))
            }
        } else {
            let held = self.device_held || step.takes_device();
            match self.backend.step_after(step) {
                Some(next) => (
                    NodeData {
                        device_held: held,
                        pending: Pending::Open { step: next, then_read },
                        ..self
                    },
                    next.command_for(self.config),
                ),
                None => if then_read {
                    (
                        NodeData {
                            state: LifecycleState::Ready,
                            device_held: held,
                            pending: Pending::Read,
                            ..self
                        },
                        CommandData::ReadFrame,
                    )
                } else {
                    (self.settled(LifecycleState::Ready, held), CommandData::Finished(Ok(())))
                },
            }
        }
    }

    /// The node after the frame that was read has been normalized: an image
    /// is emitted, an error ends the update. The lifecycle state stays.
    pub open spec fn after_read(self, frame: Result<PixelData, NodeError>) -> (
        NodeData,
        CommandData,
    ) {
        match frame {
            Ok(img) => (self.waiting(Pending::Emit), CommandData::Emit(img)),
            Err(e) => (self.waiting(Pending::Nothing), CommandData::Finished(Err(e))),
        }
    }

    /// The node after a reply, but for the reply that brings a frame to a
    /// node that waits for one (see [`NodeData::after_read`]).
    pub open spec fn resumed(self, reply: Reply) -> (NodeData, CommandData) {
        match self.pending {
            Pending::Nothing => (self, misuse(LifecycleMisuse::OutOfTurn)),
            Pending::Open { step, then_read } => self.opened(step, then_read, reply),
            Pending::Read => (self.waiting(Pending::Nothing), failure(CaptureError::FrameRead)),
            Pending::Emit => if reply is Done {
                (self.waiting(Pending::Nothing), CommandData::Finished(Ok(())))
            } else {
                (self.waiting(Pending::Nothing), CommandData::Finished(Err(NodeError::Channel)))
            },
            Pending::Release => if reply is Done {
                (self.settled(LifecycleState::ShutDown, false), CommandData::Finished(Ok(())))
            } else {
                (
                    self.settled(LifecycleState::Failed, self.device_held),
                    failure(CaptureError::DeviceRelease),
                )
            },
            Pending::Abandon { error } => (
                self.settled(LifecycleState::Failed, false),
                failure(error),
            ),
        }
    }

    /// Whether `after` and `cmd` are what [`WebcamNode::resume`] makes of the
    /// reply.
    ///
    /// For a frame that a node waits for, they are what [`NodeData::after_read`]
    /// gives for a result of normalizing the frame; for every other reply
    /// they are what [`NodeData::resumed`] gives.
    pub open spec fn resumes_to(self, reply: Reply, after: NodeData, cmd: CommandData) -> bool {
        match (self.pending, reply) {
            (Pending::Read, Reply::Frame(payload)) => match cmd {
                CommandData::Emit(img) => frame_result_ok(payload, Ok(img)) && (after, cmd)
                    == self.after_read(Ok(img)),
                CommandData::Finished(Err(e)) => frame_result_ok(payload, Err(e)) && (after, cmd)
                    == self.after_read(Err(e)),
                _ => false,
            },
            _ => (after, cmd) == self.resumed(reply),
        }
    }
}

impl BackendKind {
    /// Number of steps by which the backend opens its device.
    pub open spec fn open_steps(self) -> nat {
        match self {
            BackendKind::NativeSync => 5,
            BackendKind::NativeAsyncStream => 6,
            BackendKind::BrowserAsync => 1,
        }
    }
}

impl NodeData {
    /// The node after `count` commands in a row were carried out.
    pub open spec fn after_done(self, count: nat) -> (NodeData, CommandData)
        recommends
            count > 0,
        decreases count,
    {
        if count <= 1 {
            self.resumed(Reply::Done)
        } else {
            self.resumed(Reply::Done).0.after_done((count - 1) as nat)
        }
    }
}

/// Every operation and every reply leaves a well-formed node well formed.
pub proof fn lemma_well_formed_is_kept(
    n: NodeData,
    triggered: bool,
    reply: Reply,
    frame: Result<PixelData, NodeError>,
)
    requires
        n.well_formed(),
    ensures
        n.initialized().0.well_formed(),
        n.updated(triggered).0.well_formed(),
        n.shut_down().0.well_formed(),
        n.resumed(reply).0.well_formed(),
        n.pending == Pending::Read ==> n.after_read(frame).0.well_formed(),
{
}

/// A triggered update of a node that was never initialized opens the device.
/// Whenever it is made it is answered with the first step of opening, and
/// never with `NotReady`. If every step of opening succeeds, the node is
/// ready and asks for a frame, and the frame that is read is emitted.
pub proof fn lemma_update_initializes_lazily(n: NodeData, img: PixelBuffer)
    requires
        n.well_formed(),
        n.state == LifecycleState::Uninitialized,
        n.pending == Pending::Nothing,
    ensures
        n.updated(true) == n.opening(true),
        n.updated(true).1 == n.backend.first_step().command_for(n.config),
        n.updated(true).1 != misuse(LifecycleMisuse::NotReady),
        n.updated(true).0.after_done(n.backend.open_steps()) == (
            NodeData {
                state: LifecycleState::Ready,
                device_held: true,
                pending: Pending::Read,
                ..n
            },
            CommandData::ReadFrame,
        ),
        n.updated(true).0.after_done(n.backend.open_steps()).0.resumes_to(
            Reply::Frame(FramePayload::Pixels(img)),
            NodeData { state: LifecycleState::Ready, device_held: true, pending: Pending::Emit, ..n },
            CommandData::Emit(img@),
        ),
{
    reveal_with_fuel(NodeData::after_done, 7);
}

/// An initialization whose steps all succeed makes the node ready. One of
/// whose steps fails makes it fail with the error of that step, and the
/// failed node holds no device: if one was taken (`held`), its release is
/// commanded before the operation ends, whatever comes of the release. A
/// shutdown of the failed node is then a misuse, and an update is refused.
pub proof fn lemma_initialization(
    n: NodeData,
    step: OpenStep,
    reply: Reply,
    held: bool,
    released: Reply,
)
    requires
        n.well_formed(),
        n.state == LifecycleState::Uninitialized,
        n.pending == Pending::Nothing,
    ensures
        n.initialized().0.after_done(n.backend.open_steps()) == (
            n.settled(LifecycleState::Ready, true),
            CommandData::Finished(Ok(())),
        ),
        !step.succeeded(reply) && !held ==> n.waiting(
            Pending::Open { step, then_read: false },
        ).resumed(reply) == (n.settled(LifecycleState::Failed, false), failure(step.failure_of())),
        !step.succeeded(reply) && held ==> {
            let (releasing, command) = NodeData {
                device_held: true,
                pending: Pending::Open { step, then_read: false },
                ..n
            }.resumed(reply);
            &&& command == CommandData::Release
            &&& releasing.resumed(released) == (
                n.settled(LifecycleState::Failed, false),
                failure(step.failure_of()),
            )
            &&& n.settled(LifecycleState::Failed, false).shut_down().1 == misuse(
                LifecycleMisuse::NoActiveDevice,
            )
            &&& n.settled(LifecycleState::Failed, false).updated(true).1 == misuse(
                LifecycleMisuse::NotReady,
            )
        },
{
    reveal_with_fuel(NodeData::after_done, 7);
}

/// The first of two shutdowns in a row releases the device and succeeds; the
/// second is a misuse and changes nothing.
pub proof fn lemma_second_shutdown_is_misuse(n: NodeData)
    requires
        n.well_formed(),
        n.pending == Pending::Nothing,
        n.device_held,
    ensures
        n.shut_down() == (n.waiting(Pending::Release), CommandData::Release),
        n.shut_down().0.resumed(Reply::Done) == (
            n.settled(LifecycleState::ShutDown, false),
            CommandData::Finished(Ok(())),
        ),
        n.settled(LifecycleState::ShutDown, false).shut_down() == (
            n.settled(LifecycleState::ShutDown, false),
            misuse(LifecycleMisuse::AlreadyShutDown),
        ),
{
}

/// A node commands the release of a device only if it holds one, and a node
/// that holds none answers a shutdown with a misuse.
pub proof fn lemma_release_needs_a_device(n: NodeData, triggered: bool, reply: Reply)
    requires
        n.well_formed(),
    ensures
        n.initialized().1 != CommandData::Release,
        n.updated(triggered).1 != CommandData::Release,
        n.resumed(reply).1 == CommandData::Release ==> n.device_held,
        n.shut_down().1 == CommandData::Release ==> n.device_held,
        !n.device_held ==> n.shut_down().1 is Finished && n.shut_down().0 == n,
{
}

/// Neither a frame that could not be read or normalized nor one that could
/// not be emitted changes the lifecycle state: the node stays ready.
pub proof fn lemma_update_failures_keep_state(
    n: NodeData,
    reply: Reply,
    frame: Result<PixelData, NodeError>,
)
    requires
        n.well_formed(),
        n.pending == Pending::Read || n.pending == Pending::Emit,
    ensures
        n.resumed(reply).0 == n.settled(LifecycleState::Ready, true),
        n.pending == Pending::Emit && !(reply is Done) ==> n.resumed(reply).1
            == CommandData::Finished(Err(NodeError::Channel)),
        n.after_read(frame).0.state == LifecycleState::Ready,
        n.after_read(frame).0.device_held,
{
}

/// A node that is shut down stays so, and a node that has failed can only
/// stay failed or be shut down.
pub proof fn lemma_terminal_states(n: NodeData, triggered: bool, reply: Reply)
    requires
        n.well_formed(),
        n.state == LifecycleState::ShutDown || n.state == LifecycleState::Failed,
    ensures
        n.initialized().0 == n,
        n.updated(triggered).0 == n,
        n.state == LifecycleState::ShutDown ==> n.shut_down().0 == n && n.resumed(reply).0 == n,
        n.shut_down().0.state == n.state,
        n.resumed(reply).0.state == LifecycleState::Failed || n.resumed(reply).0.state
            == LifecycleState::ShutDown,
        n.initialized().1 is Finished,
        triggered && n.pending == Pending::Nothing ==> n.updated(triggered).1 == misuse(
            LifecycleMisuse::NotReady,
        ),
{
}

/// A raw frame that fills its size is emitted with the size that the device
/// delivered, with the canonical layout of its channels, and well formed. A
/// device that delivers the configured size thus gives frames of that size.
pub proof fn lemma_emitted_frame_has_delivered_size(
    n: NodeData,
    order: ChannelOrder,
    width: u32,
    height: u32,
    data: Vec<u8>,
    after: NodeData,
    cmd: CommandData,
)
    requires
        n.well_formed(),
        n.pending == Pending::Read,
        data@.len() == width * height * order.channels_for(),
        n.resumes_to(Reply::Frame(FramePayload::Raw { order, width, height, data }), after, cmd),
    ensures
        after == n.waiting(Pending::Emit),
        cmd matches CommandData::Emit(img) && img.width == width && img.height == height
            && img.layout == order.layout_for() && img.well_formed(),
{
}

/// A capture node: the lifecycle state, whether a device is held, and the
/// configuration it was made with.
#[derive(Debug, PartialEq, Eq)]
pub struct WebcamNode {
    data: NodeData,
}

impl View for WebcamNode {
    type V = NodeData;

    closed spec fn view(&self) -> NodeData {
        self.data
    }
}

impl WebcamNode {
    #[verifier::type_invariant]
    pub closed spec fn inv(self) -> bool {
        self.data.well_formed()
    }

    /// A node for a native camera that is read frame by frame.
    pub fn new(value: WebcamNodeConfig) -> (node: WebcamNode)
        ensures
            node@ == NodeData::fresh(value, BackendKind::NativeSync),
    {
        WebcamNode::with_backend(value, BackendKind::NativeSync)
    }

    /// A node for a backend of the given kind.
    pub fn with_backend(value: WebcamNodeConfig, backend: BackendKind) -> (node: WebcamNode)
        ensures
            node@ == NodeData::fresh(value, backend),
    {
        WebcamNode {
            data: NodeData {
                state: LifecycleState::Uninitialized,
                device_held: false,
                pending: Pending::Nothing,
                backend,
                config: value,
            },
        }
    }

    pub fn state(&self) -> (s: LifecycleState)
        ensures
            s == self@.state,
            self@.well_formed(),
    {
        proof {
            use_type_invariant(self);
        }
        self.data.state
    }

    pub fn config(&self) -> (c: WebcamNodeConfig)
        ensures
            c == self@.config,
    {
        self.data.config
    }

    pub fn backend(&self) -> (b: BackendKind)
        ensures
            b == self@.backend,
    {
        self.data.backend
    }

    /// Whether the host holds a device that the node has yet to release.
    pub fn holds_device(&self) -> (b: bool)
        ensures
            b == self@.device_held,
    {
        self.data.device_held
    }

    /// Whether no operation is under way.
    pub fn is_idle(&self) -> (b: bool)
        ensures
            b == (self@.pending == Pending::Nothing),
    {
        match self.data.pending {
            Pending::Nothing => true,
            _ => false,
        }
    }

    fn open(&mut self, then_read: bool) -> (cmd: Command)
        requires
            old(self)@.pending == Pending::Nothing,
            old(self)@.state == LifecycleState::Uninitialized,
        ensures
            (final(self)@, cmd@) == old(self)@.opening(then_read),
    {
        proof {
            use_type_invariant(&*self);
        }
        let step = self.data.backend.first();
        self.data.pending = Pending::Open { step, then_read };
        step.command(self.data.config)
    }

    /// Starts the initialization of the node.
    pub fn on_init(&mut self) -> (cmd: Command)
        ensures
            (final(self)@, cmd@) == old(self)@.initialized(),
            final(self)@.well_formed(),
    {
        proof {
            use_type_invariant(&*self);
        }
        if !self.is_idle() {
            return Command::Finished(Err(NodeError::Lifecycle(LifecycleMisuse::OutOfTurn)));
        }
        match self.data.state {
            LifecycleState::Uninitialized => self.open(false),
            _ => Command::Finished(Err(NodeError::Lifecycle(LifecycleMisuse::AlreadyInitialized))),
        }
    }

    /// Starts an update. `triggered` says whether the input channel held a
    /// token for the node to consume.
    pub fn on_update(&mut self, triggered: bool) -> (cmd: Command)
        ensures
            (final(self)@, cmd@) == old(self)@.updated(triggered),
            final(self)@.well_formed(),
    {
        proof {
            use_type_invariant(&*self);
        }
        if !self.is_idle() {
            return Command::Finished(Err(NodeError::Lifecycle(LifecycleMisuse::OutOfTurn)));
        }
        if !triggered {
            return Command::Finished(Ok(()));
        }
        match self.data.state {
            LifecycleState::Uninitialized => self.open(true),
            LifecycleState::Ready => {
                self.data.pending = Pending::Read;
                Command::ReadFrame
            },
            _ => Command::Finished(Err(NodeError::Lifecycle(LifecycleMisuse::NotReady))),
        }
    }

    /// Starts the shutdown of the node.
    pub fn on_shutdown(&mut self) -> (cmd: Command)
        ensures
            (final(self)@, cmd@) == old(self)@.shut_down(),
            final(self)@.well_formed(),
    {
        proof {
            use_type_invariant(&*self);
        }
        if !self.is_idle() {
            return Command::Finished(Err(NodeError::Lifecycle(LifecycleMisuse::OutOfTurn)));
        }
        match self.data.state {
            LifecycleState::ShutDown => {
                return Command::Finished(
                    Err(NodeError::Lifecycle(LifecycleMisuse::AlreadyShutDown)),
                );
            },
            _ => {},
        }
        if !self.data.device_held {
            return Command::Finished(Err(NodeError::Lifecycle(LifecycleMisuse::NoActiveDevice)));
        }
        self.data.pending = Pending::Release;
        Command::Release
    }

    fn resume_open(&mut self, step: OpenStep, then_read: bool, reply: Reply) -> (cmd: Command)
        requires
            old(self)@.pending == (Pending::Open { step, then_read }),
        ensures
            (final(self)@, cmd@) == old(self)@.opened(step, then_read, reply),
    {
        proof {
            use_type_invariant(&*self);
        }
        let was = self.data;
        if !step.has_succeeded(&reply) {
            if was.device_held {
                self.data = NodeData { pending: Pending::Abandon { error: step.failure() }, ..was };
                return Command::Release;
            }
            self.data = NodeData {
                state: LifecycleState::Failed,
                device_held: false,
                pending: Pending::Nothing,
                ..was
            };
            return Command::Finished(Err(NodeError::Capture(step.failure())));
        }
        let held = match step {
            OpenStep::OpenDevice | OpenStep::AcquireDevice => true,
            _ => was.device_held,
        };
        match was.backend.next(step) {
            Some(next) => {
                self.data = NodeData {
                    device_held: held,
                    pending: Pending::Open { step: next, then_read },
                    ..was
                };
                next.command(was.config)
            },
            None => {
                if then_read {
                    self.data = NodeData {
                        state: LifecycleState::Ready,
                        device_held: held,
                        pending: Pending::Read,
                        ..was
                    };
                    Command::ReadFrame
                } else {
                    self.data = NodeData {
                        state: LifecycleState::Ready,
                        device_held: held,
                        pending: Pending::Nothing,
                        ..was
                    };
                    Command::Finished(Ok(()))
                }
            },
        }
    }

    fn resume_read(&mut self, reply: Reply) -> (cmd: Command)
        requires
            old(self)@.pending == Pending::Read,
        ensures
            old(self)@.resumes_to(reply, final(self)@, cmd@),
    {
        proof {
            use_type_invariant(&*self);
        }
        let was = self.data;
        match reply {
            Reply::Frame(payload) => match normalize_frame(payload) {
                Ok(img) => {
                    self.data = NodeData { pending: Pending::Emit, ..was };
                    Command::Emit(img)
                },
                Err(e) => {
                    self.data = NodeData { pending: Pending::Nothing, ..was };
                    Command::Finished(Err(e))
                },
            },
            _ => {
                self.data = NodeData { pending: Pending::Nothing, ..was };
                Command::Finished(Err(NodeError::Capture(CaptureError::FrameRead)))
            },
        }
    }

    /// Takes the outcome of the last command and answers with the next one.
    pub fn resume(&mut self, reply: Reply) -> (cmd: Command)
        ensures
            old(self)@.resumes_to(reply, final(self)@, cmd@),
            final(self)@.well_formed(),
    {
        proof {
            use_type_invariant(&*self);
        }
        let was = self.data;
        match was.pending {
            Pending::Nothing => Command::Finished(
                Err(NodeError::Lifecycle(LifecycleMisuse::OutOfTurn)),
            ),
            Pending::Open { step, then_read } => self.resume_open(step, then_read, reply),
            Pending::Read => self.resume_read(reply),
            Pending::Emit => {
                self.data = NodeData { pending: Pending::Nothing, ..was };
                match reply {
                    Reply::Done => Command::Finished(Ok(())),
                    _ => Command::Finished(Err(NodeError::Channel)),
                }
            },
            Pending::Release => match reply {
                Reply::Done => {
                    self.data = NodeData {
                        state: LifecycleState::ShutDown,
                        device_held: false,
                        pending: Pending::Nothing,
                        ..was
                    };
                    Command::Finished(Ok(()))
                },
                _ => {
                    self.data = NodeData {
                        state: LifecycleState::Failed,
                        pending: Pending::Nothing,
                        ..was
                    };
                    Command::Finished(Err(NodeError::Capture(CaptureError::DeviceRelease)))
                },
            },
            Pending::Abandon { error } => {
                self.data = NodeData {
                    state: LifecycleState::Failed,
                    device_held: false,
                    pending: Pending::Nothing,
                    ..was
                };
                Command::Finished(Err(NodeError::Capture(error)))
            },
        }
    }
}

} // verus!
