//! Utilities for window handling of the game engine.

use vstd::prelude::*;

verus! {

/// Size of a game engine window, in pixels.
#[derive(Debug, Default, Clone, Copy, PartialEq, Eq, Structural)]
pub struct Size {
    pub width: u32,
    pub height: u32,
}

impl Size {
    /// Creates new size of window.
    pub fn new(width: u32, height: u32) -> (size: Self)
        ensures
            size.width == width,
            size.height == height,
    {
        Self { width, height }
    }
}

impl From<[u32; 2]> for Size {
    fn from(array: [u32; 2]) -> (size: Self) {
        Self::new(array[0], array[1])
    }
}

impl vstd::std_specs::convert::FromSpecImpl<[u32; 2]> for Size {
    open spec fn obeys_from_spec() -> bool {
        true
    }

    open spec fn from_spec(array: [u32; 2]) -> Self {
        Size { width: array@[0], height: array@[1] }
    }
}

impl From<Size> for [u32; 2] {
    fn from(size: Size) -> (array: Self) {
        [size.width, size.height]
    }
}

impl vstd::std_specs::convert::FromSpecImpl<Size> for [u32; 2] {
    open spec fn obeys_from_spec() -> bool {
        true
    }

    open spec fn from_spec(size: Size) -> Self {
        [size.width, size.height]
    }
}

impl From<(u32, u32)> for Size {
    fn from(tuple: (u32, u32)) -> (size: Self) {
        Self::new(tuple.0, tuple.1)
    }
}

impl vstd::std_specs::convert::FromSpecImpl<(u32, u32)> for Size {
    open spec fn obeys_from_spec() -> bool {
        true
    }

    open spec fn from_spec(tuple: (u32, u32)) -> Self {
        Size { width: tuple.0, height: tuple.1 }
    }
}

impl From<Size> for (u32, u32) {
    fn from(size: Size) -> (tuple: Self) {
        (size.width, size.height)
    }
}

impl vstd::std_specs::convert::FromSpecImpl<Size> for (u32, u32) {
    open spec fn obeys_from_spec() -> bool {
        true
    }

    open spec fn from_spec(size: Size) -> Self {
        (size.width, size.height)
    }
}

/// Handler of the life of a game window, implemented by the game.
pub trait Callback<T> {
    /// Creates the handler.
    fn new() -> T;

    /// Called when the game window was created.
    fn created(&self);

    /// Called when the game window was resized.
    fn resized(&self, width: u32, height: u32);

    /// Called when the game window will be destroyed.
    fn destroyed(&self);
}

/// Event of the game window that the engine passes to the game.
#[derive(Debug, Clone, Copy, PartialEq, Eq, Structural)]
pub enum LoopEvent {
    /// The window was created.
    Created,
    /// The window was resized.
    Resized(Size),
    /// The window will be destroyed.
    Destroyed,
}

/// An event of the windowing system, as the engine's event loop reads it.
#[derive(Debug, Clone, Copy, PartialEq, Eq, Structural)]
pub enum WindowInput {
    /// The loop started for the first time.
    Init,
    /// The loop woke up for another reason.
    OtherStart,
    /// A window asked to be closed; `ours` tells whether it is the game's.
    CloseRequested { ours: bool },
    /// A window was resized; `ours` tells whether it is the game's.
    Resized { ours: bool, width: u32, height: u32 },
    /// Another event of some window.
    OtherWindowEvent,
    /// All pending events were handled: time to draw.
    MainEventsCleared,
    /// The loop is ending.
    LoopDestroyed,
    /// Any other event.
    Other,
}

/// What the event loop does for one event.
#[derive(Debug, Clone, Copy, PartialEq, Eq, Structural)]
pub struct LoopResponse {
    /// Event to pass to the game, if any.
    pub event: Option<LoopEvent>,
    /// Whether the loop is to stop.
    pub exit: bool,
    /// Whether to render a frame.
    pub render: bool,
    /// Whether to wait for the renderer and release it.
    pub shut_down: bool,
}

/// The response of the event loop to `input`.
pub open spec fn loop_response_spec(input: WindowInput) -> LoopResponse {
    let idle = LoopResponse { event: None, exit: false, render: false, shut_down: false };
    match input {
        WindowInput::Init => LoopResponse { event: Some(LoopEvent::Created), ..idle },
        WindowInput::CloseRequested { ours } => LoopResponse { exit: ours, ..idle },
        WindowInput::Resized { ours, width, height } => if ours {
            LoopResponse {
                event: Some(LoopEvent::Resized(Size { width, height })),
                ..idle
            }
        } else {
            idle
        },
        WindowInput::MainEventsCleared => LoopResponse { render: true, ..idle },
        WindowInput::LoopDestroyed => LoopResponse {
            event: Some(LoopEvent::Destroyed),
            shut_down: true,
            ..idle
        },
        _ => idle,
    }
}

/// Decides how the event loop answers an event: the game learns of the
/// window's creation, of its resizing and of its end; a close request of
/// the game's window stops the loop; a frame is drawn when all events were
/// handled.
pub fn loop_response(input: WindowInput) -> (response: LoopResponse)
    ensures
        response == loop_response_spec(input),
        response.exit <==> input == (WindowInput::CloseRequested { ours: true }),
        response.render <==> input == WindowInput::MainEventsCleared,
        response.shut_down <==> input == WindowInput::LoopDestroyed,
        (input == WindowInput::Other || input == WindowInput::OtherStart || input
            == WindowInput::OtherWindowEvent) ==> response == (LoopResponse {
            event: None,
            exit: false,
            render: false,
            shut_down: false,
        }),
{
    let idle = LoopResponse { event: None, exit: false, render: false, shut_down: false };
    match input {
        WindowInput::Init => LoopResponse { event: Some(LoopEvent::Created), ..idle },
        WindowInput::CloseRequested { ours } => LoopResponse { exit: ours, ..idle },
        WindowInput::Resized { ours, width, height } => if ours {
            LoopResponse { event: Some(LoopEvent::Resized(Size::new(width, height))), ..idle }
        } else {
            idle
        },
        WindowInput::MainEventsCleared => LoopResponse { render: true, ..idle },
        WindowInput::LoopDestroyed => LoopResponse {
            event: Some(LoopEvent::Destroyed),
            shut_down: true,
            ..idle
        },
        _ => idle,
    }
}

/// Whether the event loop stops after drawing a frame: it does when drawing
/// failed.
pub fn exit_after_render(render_failed: bool) -> (exit: bool)
    ensures
        exit == render_failed,
{
    render_failed
}

/// The loop stops only on a close request of the game's own window, draws
/// only once all events were handled, and shuts down only when it ends;
/// any other event of the windowing system is ignored.
pub proof fn lemma_loop_reacts_only_to_its_events(input: WindowInput)
    ensures
        loop_response_spec(input).exit <==> input == (WindowInput::CloseRequested { ours: true }),
        loop_response_spec(input).render <==> input == WindowInput::MainEventsCleared,
        loop_response_spec(input).shut_down <==> input == WindowInput::LoopDestroyed,
        loop_response_spec(input).event is Some <==> (input == WindowInput::Init || input
            == WindowInput::LoopDestroyed || input matches WindowInput::Resized { ours: true, .. }),
        (input == WindowInput::Other || input == WindowInput::OtherStart || input
            == WindowInput::OtherWindowEvent) ==> !loop_response_spec(input).exit
            && !loop_response_spec(input).render && !loop_response_spec(input).shut_down
            && loop_response_spec(input).event is None,
{
}

/// The events the game receives, in order, for the windowing system's
/// events `inputs`.
pub open spec fn emitted_events(inputs: Seq<WindowInput>) -> Seq<LoopEvent>
    decreases inputs.len(),
{
    if inputs.len() == 0 {
        seq![]
    } else {
        let earlier = emitted_events(inputs.drop_last());
        match loop_response_spec(inputs.last()).event {
            Some(e) => earlier.push(e),
            None => earlier,
        }
    }
}

/// Whether `inputs` is a run of events as the windowing system delivers
/// them: the start first and only then, the end last and only then.
pub open spec fn is_event_run(inputs: Seq<WindowInput>) -> bool {
    &&& inputs.len() >= 2
    &&& inputs[0] == WindowInput::Init
    &&& inputs.last() == WindowInput::LoopDestroyed
    &&& forall|i: int| 0 < i < inputs.len() ==> inputs[i] != WindowInput::Init
    &&& forall|i: int| 0 <= i < inputs.len() - 1 ==> inputs[i] != WindowInput::LoopDestroyed
}

/// The events passed on for two runs one after the other are those of the
/// first, then those of the second.
proof fn lemma_emitted_concat(a: Seq<WindowInput>, b: Seq<WindowInput>)
    ensures
        emitted_events(a + b) == emitted_events(a) + emitted_events(b),
    decreases b.len(),
{
    if b.len() == 0 {
        assert(a + b =~= a);
        assert(emitted_events(b) =~= seq![]);
        assert(emitted_events(a) + emitted_events(b) =~= emitted_events(a));
    } else {
        assert((a + b).drop_last() =~= a + b.drop_last());
        assert((a + b).last() == b.last());
        lemma_emitted_concat(a, b.drop_last());
        match loop_response_spec(b.last()).event {
            Some(e) => {
                assert(emitted_events(a) + emitted_events(b.drop_last()).push(e) =~= (
                emitted_events(a) + emitted_events(b.drop_last())).push(e));
            },
            None => {},
        }
    }
}

/// Events without the start or the end pass on neither creation nor
/// destruction.
proof fn lemma_middle_events(inputs: Seq<WindowInput>)
    requires
        forall|i: int|
            0 <= i < inputs.len() ==> inputs[i] != WindowInput::Init && inputs[i]
                != WindowInput::LoopDestroyed,
    ensures
        forall|k: int|
            0 <= k < emitted_events(inputs).len() ==> #[trigger] emitted_events(inputs)[k]
                != LoopEvent::Created && emitted_events(inputs)[k] != LoopEvent::Destroyed,
    decreases inputs.len(),
{
    if inputs.len() > 0 {
        let rest = inputs.drop_last();
        assert forall|i: int| 0 <= i < rest.len() implies rest[i] != WindowInput::Init && rest[i]
            != WindowInput::LoopDestroyed by {
            assert(rest[i] == inputs[i]);
        }
        lemma_middle_events(rest);
        assert(inputs.last() == inputs[inputs.len() - 1]);
    }
}

/// Over a run of events as the windowing system delivers it, the game learns
/// of the window's creation exactly once, first, and of its destruction
/// exactly once, last, after which nothing is passed on; the renderer is
/// shut down exactly once, at the end.
pub proof fn lemma_event_run(inputs: Seq<WindowInput>)
    requires
        is_event_run(inputs),
    ensures
        ({
            let events = emitted_events(inputs);
            &&& events.len() >= 2
            &&& events[0] == LoopEvent::Created
            &&& events.last() == LoopEvent::Destroyed
            &&& forall|k: int| 0 < k < events.len() ==> #[trigger] events[k] != LoopEvent::Created
            &&& forall|k: int| 0 <= k < events.len() - 1 ==> #[trigger] events[k] != LoopEvent::Destroyed
        }),
        forall|i: int|
            0 <= i < inputs.len() ==> (#[trigger] loop_response_spec(inputs[i]).shut_down <==> i
                == inputs.len() - 1),
{
    let n = inputs.len() as int;
    let first = inputs.take(1);
    let middle = inputs.subrange(1, n - 1);
    let last = inputs.subrange(n - 1, n);
    assert(inputs =~= first + middle + last);
    assert(first =~= seq![WindowInput::Init]);
    assert(last =~= seq![WindowInput::LoopDestroyed]);
    assert(emitted_events(seq![WindowInput::Init]) =~= seq![LoopEvent::Created]) by {
        let s = seq![WindowInput::Init];
        assert(s.drop_last() =~= Seq::<WindowInput>::empty());
        assert(emitted_events(s.drop_last()) =~= Seq::<LoopEvent>::empty());
        assert(s.last() == WindowInput::Init);
        assert(loop_response_spec(s.last()).event == Some(LoopEvent::Created));
        assert(Seq::<LoopEvent>::empty().push(LoopEvent::Created) =~= seq![LoopEvent::Created]);
    }
    assert(emitted_events(seq![WindowInput::LoopDestroyed]) =~= seq![LoopEvent::Destroyed]) by {
        let s = seq![WindowInput::LoopDestroyed];
        assert(s.drop_last() =~= Seq::<WindowInput>::empty());
        assert(emitted_events(s.drop_last()) =~= Seq::<LoopEvent>::empty());
        assert(s.last() == WindowInput::LoopDestroyed);
        assert(loop_response_spec(s.last()).event == Some(LoopEvent::Destroyed));
        assert(Seq::<LoopEvent>::empty().push(LoopEvent::Destroyed) =~= seq![LoopEvent::Destroyed]);
    }
    lemma_emitted_concat(first, middle);
    lemma_emitted_concat(first + middle, last);
    assert forall|i: int| 0 <= i < middle.len() implies middle[i] != WindowInput::Init && middle[i]
        != WindowInput::LoopDestroyed by {
        assert(middle[i] == inputs[i + 1]);
    }
    lemma_middle_events(middle);
    let m = emitted_events(middle);
    let events = emitted_events(inputs);
    assert(events =~= seq![LoopEvent::Created] + m + seq![LoopEvent::Destroyed]);
    assert forall|k: int| 0 < k < events.len() implies #[trigger] events[k] != LoopEvent::Created by {
        if k < events.len() - 1 {
            assert(events[k] == m[k - 1]);
        }
    }
    assert forall|k: int| 0 <= k < events.len() - 1 implies #[trigger] events[k]
        != LoopEvent::Destroyed by {
        if k > 0 {
            assert(events[k] == m[k - 1]);
        }
    }
}

/// Converting a window size into an array and back gives the same size,
/// and so does the round trip through a pair.
pub proof fn lemma_size_round_trip(size: Size)
    ensures
        <Size as vstd::std_specs::convert::FromSpec<[u32; 2]>>::from_spec(
            <[u32; 2] as vstd::std_specs::convert::FromSpec<Size>>::from_spec(size),
        ) == size,
        <Size as vstd::std_specs::convert::FromSpec<(u32, u32)>>::from_spec(
            <(u32, u32) as vstd::std_specs::convert::FromSpec<Size>>::from_spec(size),
        ) == size,
{
}

/// Converting an array or a pair into a window size and back gives the
/// same array or pair.
pub proof fn lemma_size_round_trip_back(array: [u32; 2], tuple: (u32, u32))
    ensures
        <[u32; 2] as vstd::std_specs::convert::FromSpec<Size>>::from_spec(
            <Size as vstd::std_specs::convert::FromSpec<[u32; 2]>>::from_spec(array),
        )@ == array@,
        <(u32, u32) as vstd::std_specs::convert::FromSpec<Size>>::from_spec(
            <Size as vstd::std_specs::convert::FromSpec<(u32, u32)>>::from_spec(tuple),
        ) == tuple,
{
    let back = <[u32; 2] as vstd::std_specs::convert::FromSpec<Size>>::from_spec(
        <Size as vstd::std_specs::convert::FromSpec<[u32; 2]>>::from_spec(array),
    );
    assert(back@ =~= array@);
}

} // verus!
