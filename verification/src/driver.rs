//! The frame loop driver: from window events to the actions that carry them
//! out.
//!
//! The driver performs nothing itself. For each input it answers with the
//! actions to perform, in order, and moves to its next state. Whoever runs
//! the loop performs each answer to its end before handing in the next
//! input, so a redraw always finds the surface as the last resize left it.
//!
//! A redraw takes two steps, because the surface decides in between: the
//! driver first asks for the frame, and goes on to record, submit and
//! present only when told that the frame is there. Told that it is not, it
//! ends the loop.

use crate::geometry::{triangle, TRIANGLE_VERTICES};
use crate::resources::UNIFORM_GROUP;
use crate::surface::Extent;
use vstd::prelude::*;

verus! {

/// Slot the vertex buffer is bound to.
pub const VERTEX_SLOT: u32 = 0;

/// Number of instances drawn.
pub const INSTANCES: u32 = 1;

/// Bit pattern of the 64-bit float `0.0`.
pub const CHANNEL_ZERO: u64 = 0x0000_0000_0000_0000;

/// Bit pattern of the 64-bit float `1.0`.
pub const CHANNEL_ONE: u64 = 0x3ff0_0000_0000_0000;

/// A color of four 64-bit floats, each held by its bit pattern.
#[derive(Clone, Copy, Debug, PartialEq, Eq, Structural)]
pub struct Color {
    pub r: u64,
    pub g: u64,
    pub b: u64,
    pub a: u64,
}

/// Opaque black.
pub open spec fn black() -> Color {
    Color { r: CHANNEL_ZERO, g: CHANNEL_ZERO, b: CHANNEL_ZERO, a: CHANNEL_ONE }
}

/// What the window reports.
#[derive(Clone, Copy, Debug, PartialEq, Eq, Structural)]
pub enum Event {
    /// The window has a new size; either side may be zero.
    Resized { width: u32, height: u32 },
    /// The window wants its content drawn.
    RedrawRequested,
    /// The window is to close.
    CloseRequested,
    /// Anything else.
    Other,
}

/// Why a frame could not be acquired.
#[derive(Clone, Copy, Debug, PartialEq, Eq, Structural)]
pub enum AcquireError {
    Timeout,
    Outdated,
    Lost,
    OutOfMemory,
    Other,
}

/// A failure of the frame loop. It is fatal: the loop does not go on.
#[derive(Clone, Copy, Debug, PartialEq, Eq, Structural)]
pub enum FrameError {
    /// The next frame could not be acquired.
    AcquireFailed(AcquireError),
}

/// What the driver is handed: an event of the window, or the outcome of
/// the acquisition it asked for.
#[derive(Clone, Copy, Debug, PartialEq, Eq, Structural)]
pub enum Input {
    /// The window reports an event.
    Window(Event),
    /// The frame that was asked for is there.
    FrameAcquired,
    /// The frame that was asked for could not be acquired.
    FrameFailed(AcquireError),
}

/// One thing to perform, towards the surface, the device, the queue or the
/// window.
#[derive(Clone, Copy, Debug, PartialEq, Eq, Structural)]
pub enum Action {
    /// Configure the surface with this size, its other settings unchanged.
    Configure { width: u32, height: u32 },
    /// Ask the window for a redraw.
    RequestRedraw,
    /// Acquire the next frame of the surface, which is configured with this
    /// size.
    AcquireFrame { width: u32, height: u32 },
    /// Create a view of the acquired frame's image.
    CreateView,
    /// Start recording a command buffer.
    BeginEncoding,
    /// Begin a render pass on the view, with no depth or stencil: the color
    /// target is cleared to `clear` and its result is stored.
    BeginRenderPass { clear: Color },
    /// Bind the pipeline.
    SetPipeline,
    /// Bind the whole vertex buffer at `slot`.
    SetVertexBuffer { slot: u32 },
    /// Bind the bind group of the transform at `group`.
    SetBindGroup { group: u32 },
    /// Draw `vertex_count` vertices from `first_vertex` on, for
    /// `instance_count` instances from `first_instance` on.
    Draw { first_vertex: u32, vertex_count: u32, first_instance: u32, instance_count: u32 },
    /// End the render pass.
    EndRenderPass,
    /// Finish the command buffer and submit it to the queue.
    Submit,
    /// Present the acquired frame.
    Present,
    /// Leave the event loop.
    Exit,
    /// End the process with this failure.
    Abort { error: FrameError },
}

/// Where the loop stands between two inputs.
#[derive(Clone, Copy, Debug, PartialEq, Eq, Structural)]
pub enum Phase {
    /// Waiting for the next event.
    Idle,
    /// In the middle of a redraw: the frame has been asked for, and its
    /// outcome is awaited.
    Dispatching,
    /// Ended; nothing is dispatched any more.
    Closed,
}

/// The state of the loop: its phase, and the size the surface was last
/// configured with.
#[derive(Clone, Copy, Debug, PartialEq, Eq, Structural)]
pub struct LoopState {
    pub phase: Phase,
    pub extent: Extent,
}

impl LoopState {
    /// The surface size is one a surface accepts.
    pub open spec fn valid(self) -> bool {
        self.extent.valid()
    }
}

/// What is recorded, submitted and presented once the frame is there: a
/// view, one command buffer that holds one render pass with one draw of the
/// triangle over a black background, its submission, the presentation.
pub open spec fn render_script() -> Seq<Action> {
    seq![
        Action::CreateView,
        Action::BeginEncoding,
        Action::BeginRenderPass { clear: black() },
        Action::SetPipeline,
        Action::SetVertexBuffer { slot: VERTEX_SLOT },
        Action::SetBindGroup { group: UNIFORM_GROUP },
        Action::Draw {
            first_vertex: 0,
            vertex_count: TRIANGLE_VERTICES,
            first_instance: 0,
            instance_count: INSTANCES,
        },
        Action::EndRenderPass,
        Action::Submit,
        Action::Present,
    ]
}

/// All the actions of one frame on a surface of the given size, from its
/// acquisition to its presentation.
pub open spec fn frame_script(extent: Extent) -> Seq<Action> {
    seq![Action::AcquireFrame { width: extent.width, height: extent.height }] + render_script()
}

/// The actions of a resize to the requested size: one configuration of the
/// surface with the clamped size, then one request for a redraw.
pub open spec fn resize_script(width: u32, height: u32) -> Seq<Action> {
    let extent = Extent::of_request(width, height);
    seq![Action::Configure { width: extent.width, height: extent.height }, Action::RequestRedraw]
}

/// One step of an idle loop.
pub open spec fn step_idle(state: LoopState, input: Input) -> (LoopState, Seq<Action>) {
    match input {
        Input::Window(Event::Resized { width, height }) => (
            LoopState { phase: Phase::Idle, extent: Extent::of_request(width, height) },
            resize_script(width, height),
        ),
        Input::Window(Event::RedrawRequested) => (
            LoopState { phase: Phase::Dispatching, extent: state.extent },
            seq![Action::AcquireFrame { width: state.extent.width, height: state.extent.height }],
        ),
        Input::Window(Event::CloseRequested) => (
            LoopState { phase: Phase::Closed, extent: state.extent },
            seq![Action::Exit],
        ),
        // Any other event is none of the loop's business, and no frame has
        // been asked for whose outcome this could be.
        _ => (state, Seq::<Action>::empty()),
    }
}

/// One step of a loop that awaits a frame.
pub open spec fn step_dispatching(state: LoopState, input: Input) -> (LoopState, Seq<Action>) {
    match input {
        Input::FrameAcquired => (
            LoopState { phase: Phase::Idle, extent: state.extent },
            render_script(),
        ),
        Input::FrameFailed(cause) => (
            LoopState { phase: Phase::Closed, extent: state.extent },
            seq![Action::Abort { error: FrameError::AcquireFailed(cause) }],
        ),
        Input::Window(Event::CloseRequested) => (
            LoopState { phase: Phase::Closed, extent: state.extent },
            seq![Action::Exit],
        ),
        // One event is dispatched at a time: no other event is taken up
        // before the frame is answered for.
        _ => (state, Seq::<Action>::empty()),
    }
}

/// One step of the loop: the state after `input` and the actions that carry
/// it out. A closed loop dispatches nothing.
pub open spec fn step(state: LoopState, input: Input) -> (LoopState, Seq<Action>) {
    match state.phase {
        Phase::Idle => step_idle(state, input),
        Phase::Dispatching => step_dispatching(state, input),
        Phase::Closed => (state, Seq::<Action>::empty()),
    }
}

/// The loop over a queue of inputs: each is stepped from the state the one
/// before it left, and the actions follow one another in the order of the
/// inputs.
pub open spec fn run(state: LoopState, inputs: Seq<Input>) -> (LoopState, Seq<Action>)
    decreases inputs.len(),
{
    if inputs.len() == 0 {
        (state, Seq::<Action>::empty())
    } else {
        let before = run(state, inputs.drop_last());
        let last = step(before.0, inputs.last());
        (last.0, before.1 + last.1)
    }
}

/// The driver of the frame loop.
pub struct Driver {
    phase: Phase,
    extent: Extent,
}

impl View for Driver {
    type V = LoopState;

    closed spec fn view(&self) -> LoopState {
        LoopState { phase: self.phase, extent: self.extent }
    }
}

impl Driver {
    #[verifier::type_invariant]
    spec fn well_formed(self) -> bool {
        self.extent.valid()
    }

    /// A driver that waits for its first event, for a surface configured
    /// with the requested size, clamped.
    pub fn new(width: u32, height: u32) -> (driver: Driver)
        ensures
            driver@ == (LoopState {
                phase: Phase::Idle,
                extent: Extent::of_request(width, height),
            }),
            driver@.valid(),
    {
        Driver { phase: Phase::Idle, extent: Extent::clamped(width, height) }
    }

    /// The phase the loop is in.
    pub fn phase(&self) -> (phase: Phase)
        ensures
            phase == self@.phase,
    {
        self.phase
    }

    /// Whether the loop has ended.
    pub fn is_closed(&self) -> (closed: bool)
        ensures
            closed == (self@.phase == Phase::Closed),
    {
        match self.phase {
            Phase::Closed => true,
            _ => false,
        }
    }

    /// The size the surface was last configured with. Neither side is zero.
    pub fn extent(&self) -> (extent: Extent)
        ensures
            extent == self@.extent,
            extent.valid(),
    {
        proof {
            use_type_invariant(self);
        }
        self.extent
    }

    /// Dispatches one input: moves to the next state and answers with the
    /// actions to perform, in order.
    pub fn handle(&mut self, input: Input) -> (actions: Vec<Action>)
        ensures
            final(self)@ == step(old(self)@, input).0,
            actions@ == step(old(self)@, input).1,
            final(self)@.valid(),
    {
        proof {
            use_type_invariant(&*self);
        }
        let mut actions: Vec<Action> = Vec::new();
        match (self.phase, input) {
            (Phase::Idle, Input::Window(Event::Resized { width, height })) => {
                let extent = Extent::clamped(width, height);
                self.extent = extent;
                actions.push(Action::Configure { width: extent.width, height: extent.height });
                actions.push(Action::RequestRedraw);
                assert(actions@ =~= resize_script(width, height));
            },
            (Phase::Idle, Input::Window(Event::RedrawRequested)) => {
                self.phase = Phase::Dispatching;
                actions.push(
                    Action::AcquireFrame { width: self.extent.width, height: self.extent.height },
                );
                assert(actions@ =~= step(old(self)@, input).1);
            },
            (Phase::Dispatching, Input::FrameAcquired) => {
                self.phase = Phase::Idle;
                actions = render_actions();
            },
            (Phase::Dispatching, Input::FrameFailed(cause)) => {
                self.phase = Phase::Closed;
                actions.push(Action::Abort { error: FrameError::AcquireFailed(cause) });
                assert(actions@ =~= step(old(self)@, input).1);
            },
            (Phase::Idle, Input::Window(Event::CloseRequested))
            | (Phase::Dispatching, Input::Window(Event::CloseRequested)) => {
                self.phase = Phase::Closed;
                actions.push(Action::Exit);
                assert(actions@ =~= seq![Action::Exit]);
            },
            _ => {},
        }
        actions
    }

    /// Dispatches a queue of inputs in their order and answers with all
    /// their actions. Dispatching stops at the input that closes the loop:
    /// what is queued behind it is left alone.
    pub fn dispatch(&mut self, inputs: &[Input]) -> (actions: Vec<Action>)
        ensures
            final(self)@ == run(old(self)@, inputs@).0,
            actions@ == run(old(self)@, inputs@).1,
            final(self)@.valid(),
    {
        proof {
            use_type_invariant(&*self);
        }
        let mut actions: Vec<Action> = Vec::new();
        let mut i: usize = 0;
        while i < inputs.len() && !self.is_closed()
            invariant
                i <= inputs@.len(),
                self@.valid(),
                self@ == run(old(self)@, inputs@.take(i as int)).0,
                actions@ == run(old(self)@, inputs@.take(i as int)).1,
            decreases inputs@.len() - i,
        {
            let mut answer = self.handle(inputs[i]);
            proof {
                let prefix = inputs@.take(i + 1);
                assert(prefix.drop_last() =~= inputs@.take(i as int));
                assert(prefix.last() == inputs@[i as int]);
            }
            actions.append(&mut answer);
            i += 1;
        }
        proof {
            let done = inputs@.take(i as int);
            let rest = inputs@.skip(i as int);
            assert(inputs@ =~= done + rest);
            if i < inputs@.len() {
                lemma_closed_dispatches_nothing(self@, rest);
            } else {
                assert(rest =~= Seq::<Input>::empty());
            }
            lemma_run_concat(old(self)@, done, rest);
        }
        actions
    }
}

impl FrameError {
    /// The words the failure is reported with.
    pub open spec fn text(self) -> Seq<char> {
        match self {
            FrameError::AcquireFailed(_) => "Failed to acquire next swap chain texture"@,
        }
    }

    /// The words the failure is reported with.
    pub fn message(self) -> (words: &'static str)
        ensures
            words@ == self.text(),
    {
        match self {
            FrameError::AcquireFailed(_) => "Failed to acquire next swap chain texture",
        }
    }
}

/// What is recorded, submitted and presented once the frame is there.
pub fn render_actions() -> (actions: Vec<Action>)
    ensures
        actions@ == render_script(),
{
    let mut actions: Vec<Action> = Vec::new();
    actions.push(Action::CreateView);
    actions.push(Action::BeginEncoding);
    actions.push(
        Action::BeginRenderPass {
            clear: Color { r: CHANNEL_ZERO, g: CHANNEL_ZERO, b: CHANNEL_ZERO, a: CHANNEL_ONE },
        },
    );
    actions.push(Action::SetPipeline);
    actions.push(Action::SetVertexBuffer { slot: VERTEX_SLOT });
    actions.push(Action::SetBindGroup { group: UNIFORM_GROUP });
    actions.push(
        Action::Draw {
            first_vertex: 0,
            vertex_count: TRIANGLE_VERTICES,
            first_instance: 0,
            instance_count: INSTANCES,
        },
    );
    actions.push(Action::EndRenderPass);
    actions.push(Action::Submit);
    actions.push(Action::Present);
    assert(actions@ =~= render_script());
    actions
}

/// A resize of an idle loop reconfigures the surface once, with the larger
/// of each requested side and one, and then asks for one redraw. The
/// surface is never configured with a zero side, whatever was requested.
pub proof fn lemma_resize_configures_clamped(state: LoopState, width: u32, height: u32)
    requires
        state.phase == Phase::Idle,
    ensures
        step(state, Input::Window(Event::Resized { width, height })).1 == seq![
            Action::Configure {
                width: if width < 1 { 1 } else { width },
                height: if height < 1 { 1 } else { height },
            },
            Action::RequestRedraw,
        ],
        step(state, Input::Window(Event::Resized { width, height })).0 == (LoopState {
            phase: Phase::Idle,
            extent: Extent {
                width: if width < 1 { 1 } else { width },
                height: if height < 1 { 1 } else { height },
            },
        }),
        step(state, Input::Window(Event::Resized { width, height })).0.valid(),
{
}

/// Configuring is repeatable: the same resize dispatched again asks for the
/// same configuration and leaves the loop as the first one left it.
pub proof fn lemma_resize_is_repeatable(state: LoopState, width: u32, height: u32)
    requires
        state.phase == Phase::Idle,
    ensures
        step(
            step(state, Input::Window(Event::Resized { width, height })).0,
            Input::Window(Event::Resized { width, height }),
        ) == step(state, Input::Window(Event::Resized { width, height })),
{
}

/// Whatever is handed in, the surface size stays one a surface accepts, and
/// every configuration that is asked for has that size: no step asks for a
/// configuration with a zero side.
pub proof fn lemma_step_keeps_valid(state: LoopState, input: Input)
    requires
        state.valid(),
    ensures
        step(state, input).0.valid(),
        forall|i: int|
            0 <= i < step(state, input).1.len() ==> (#[trigger] step(state, input).1[i]
                matches Action::Configure { width, height } ==> width >= 1 && height >= 1),
{
}

/// A redraw of an idle loop is never refused: the frame is asked for
/// against the surface as it is configured, and once it is there it is
/// drawn and presented, and the loop is idle again as it was. Whether the
/// frame can in fact be acquired is for the surface to say.
pub proof fn lemma_redraw_acquires_and_presents(state: LoopState)
    requires
        state.phase == Phase::Idle,
        state.valid(),
    ensures
        run(state, seq![Input::Window(Event::RedrawRequested), Input::FrameAcquired]) == (
            state,
            frame_script(state.extent),
        ),
        frame_script(state.extent).first() == (Action::AcquireFrame {
            width: state.extent.width,
            height: state.extent.height,
        }),
        frame_script(state.extent).last() == Action::Present,
        state.extent.width >= 1 && state.extent.height >= 1,
{
    let redraw = Input::Window(Event::RedrawRequested);
    let inputs = seq![redraw, Input::FrameAcquired];
    lemma_run_two(state, redraw, Input::FrameAcquired);
    assert(run(state, inputs).1 =~= frame_script(state.extent));
}

/// A redraw that follows a resize finds the surface as the resize left it:
/// the frame is acquired against the clamped size of the resize.
pub proof fn lemma_redraw_sees_last_resize(state: LoopState, width: u32, height: u32)
    requires
        state.phase == Phase::Idle,
    ensures
        run(
            state,
            seq![
                Input::Window(Event::Resized { width, height }),
                Input::Window(Event::RedrawRequested),
            ],
        ) == (
            LoopState { phase: Phase::Dispatching, extent: Extent::of_request(width, height) },
            resize_script(width, height) + seq![
                Action::AcquireFrame {
                    width: Extent::of_request(width, height).width,
                    height: Extent::of_request(width, height).height,
                },
            ],
        ),
{
    lemma_run_two(
        state,
        Input::Window(Event::Resized { width, height }),
        Input::Window(Event::RedrawRequested),
    );
}

/// A frame that cannot be acquired is fatal, whatever the cause: nothing is
/// recorded, submitted or presented, the loop is closed, and the one action
/// left is to end with the failure.
pub proof fn lemma_failed_acquisition_is_fatal(state: LoopState, cause: AcquireError)
    requires
        state.phase == Phase::Dispatching,
    ensures
        step(state, Input::FrameFailed(cause)) == (
            LoopState { phase: Phase::Closed, extent: state.extent },
            seq![Action::Abort { error: FrameError::AcquireFailed(cause) }],
        ),
{
}

/// One event is dispatched at a time: while a frame is awaited, no resize,
/// redraw or other event is taken up, so no configuration and no second
/// frame falls between a frame's acquisition and its presentation.
pub proof fn lemma_one_event_at_a_time(state: LoopState, event: Event)
    requires
        state.phase == Phase::Dispatching,
        event != Event::CloseRequested,
    ensures
        step(state, Input::Window(event)) == (state, Seq::<Action>::empty()),
{
}

/// The draw covers the vertex buffer exactly: it starts at the first vertex
/// and draws as many vertices as the triangle has, which are those the
/// vertex buffer holds.
pub proof fn lemma_draw_covers_the_vertices()
    ensures
        render_script()[6] == (Action::Draw {
            first_vertex: 0,
            vertex_count: TRIANGLE_VERTICES,
            first_instance: 0,
            instance_count: INSTANCES,
        }),
        TRIANGLE_VERTICES == triangle().len(),
{
}

/// One frame is one command buffer with one render pass and one draw: the
/// script submits once, begins one render pass, which clears to opaque
/// black, and draws once within it, three vertices and one instance; the
/// frame is acquired first and presented last, after the submission.
pub proof fn lemma_frame_is_one_pass_one_draw(extent: Extent)
    ensures
        frame_script(extent).len() == 11,
        forall|i: int|
            0 <= i < 11 ==> ((#[trigger] frame_script(extent)[i]) is AcquireFrame <==> i == 0),
        forall|i: int|
            0 <= i < 11 ==> ((#[trigger] frame_script(extent)[i]) is BeginEncoding <==> i == 2),
        forall|i: int|
            0 <= i < 11 ==> ((#[trigger] frame_script(extent)[i]) is BeginRenderPass <==> i == 3),
        forall|i: int| 0 <= i < 11 ==> ((#[trigger] frame_script(extent)[i]) is Draw <==> i == 7),
        forall|i: int|
            0 <= i < 11 ==> ((#[trigger] frame_script(extent)[i]) is EndRenderPass <==> i == 8),
        forall|i: int| 0 <= i < 11 ==> ((#[trigger] frame_script(extent)[i]) is Submit <==> i == 9),
        forall|i: int|
            0 <= i < 11 ==> ((#[trigger] frame_script(extent)[i]) is Present <==> i == 10),
        frame_script(extent)[3] == (Action::BeginRenderPass {
            clear: Color { r: 0, g: 0, b: 0, a: CHANNEL_ONE },
        }),
        frame_script(extent)[7] == (Action::Draw {
            first_vertex: 0,
            vertex_count: 3,
            first_instance: 0,
            instance_count: 1,
        }),
{
    let script = frame_script(extent);
    assert forall|i: int| 1 <= i < 11 implies script[i] == render_script()[i - 1] by {}
}

/// Closing ends the loop: once a close request has been handed in the loop
/// is closed, and whatever is queued behind the request is not dispatched,
/// so it adds no action and changes no state.
pub proof fn lemma_close_ends_the_loop(state: LoopState, before: Seq<Input>, after: Seq<Input>)
    ensures
        run(state, before + seq![Input::Window(Event::CloseRequested)]).0.phase == Phase::Closed,
        run(state, before + seq![Input::Window(Event::CloseRequested)] + after) == run(
            state,
            before + seq![Input::Window(Event::CloseRequested)],
        ),
{
    let closing = before + seq![Input::Window(Event::CloseRequested)];
    assert(closing.drop_last() =~= before);
    assert(closing.last() == Input::Window(Event::CloseRequested));
    let closed = run(state, closing);
    assert(closed.0.phase == Phase::Closed);
    lemma_closed_dispatches_nothing(closed.0, after);
    lemma_run_concat(state, closing, after);
    assert(closed.1 + Seq::<Action>::empty() =~= closed.1);
}

/// A closed loop stays closed and dispatches nothing, whatever is queued.
pub proof fn lemma_closed_dispatches_nothing(state: LoopState, inputs: Seq<Input>)
    requires
        state.phase == Phase::Closed,
    ensures
        run(state, inputs) == (state, Seq::<Action>::empty()),
    decreases inputs.len(),
{
    if inputs.len() > 0 {
        lemma_closed_dispatches_nothing(state, inputs.drop_last());
        assert(Seq::<Action>::empty() + Seq::<Action>::empty() =~= Seq::<Action>::empty());
    }
}

/// Running two inputs is stepping the first and then, from the state that
/// leaves, the second.
pub proof fn lemma_run_two(state: LoopState, first: Input, second: Input)
    ensures
        run(state, seq![first, second]).0 == step(step(state, first).0, second).0,
        run(state, seq![first, second]).1 == step(state, first).1 + step(
            step(state, first).0,
            second,
        ).1,
{
    let inputs = seq![first, second];
    let front = inputs.drop_last();
    assert(front =~= seq![first]);
    assert(front.drop_last() =~= Seq::<Input>::empty());
    assert(run(state, front.drop_last()) == (state, Seq::<Action>::empty()));
    assert(run(state, front).1 =~= step(state, first).1);
}

/// Running a queue is running its front part and then, from the state that
/// leaves, its back part.
pub proof fn lemma_run_concat(state: LoopState, front: Seq<Input>, back: Seq<Input>)
    ensures
        run(state, front + back).0 == run(run(state, front).0, back).0,
        run(state, front + back).1 == run(state, front).1 + run(run(state, front).0, back).1,
    decreases back.len(),
{
    let middle = run(state, front);
    if back.len() == 0 {
        assert(front + back =~= front);
        assert(middle.1 + Seq::<Action>::empty() =~= middle.1);
    } else {
        let all = front + back;
        assert(all.drop_last() =~= front + back.drop_last());
        assert(all.last() == back.last());
        lemma_run_concat(state, front, back.drop_last());
        let before = run(middle.0, back.drop_last());
        let last = step(before.0, back.last());
        assert(middle.1 + (before.1 + last.1) =~= (middle.1 + before.1) + last.1);
    }
}

} // verus!
