//! The streaming relay task, as a state machine.
//!
//! Each block-range scan spawns one independent task that owns its own
//! upstream connection and a bounded single-slot output channel to the
//! client. The task's decisions are pure: [`relay_step`] maps the
//! current state and the event just observed (connection outcome,
//! record received, end of stream, outcome of a push) to the next state
//! and the action the driver must perform next. The driver performs the
//! I/O: it connects, reads records, pushes to the channel, and feeds
//! every outcome back in as the next event.
//!
//! The machine guarantees: upstream order is preserved and every block
//! is redacted exactly once before it is pushed; a failed connection or
//! a failed read surfaces as a terminal error on the output boundary,
//! never as a silently truncated stream; a closed output channel (the
//! client went away) terminates the task at the very next step, with no
//! further reads and no further pushes.

use vstd::prelude::*;
use crate::config::{Config, SpecConfig};
use crate::error::Error;
use crate::redact::{CompactBlock, SpecBlock, redact_block, spec_redact_block};

verus! {

/// Where a relay task stands.
///
/// `Connecting`: waiting for its dedicated upstream connection.
/// `Streaming`: waiting for the next upstream record.
/// `AwaitingSend`: a redacted block was handed to the output channel;
/// waiting to learn whether the client accepted it.
/// `Failed`: a terminal error was handed to the output channel.
/// `Terminated`: the task is done; it takes no further event.
#[derive(Clone, Copy, Debug, PartialEq, Eq, Structural)]
pub enum RelayState {
    Connecting,
    Streaming,
    AwaitingSend,
    Failed,
    Terminated,
}

/// One observation the driver feeds to the machine.
pub enum RelayEvent {
    /// The dedicated upstream connection is ready.
    Connected,
    /// The upstream connection could not be established.
    ConnectFailed,
    /// Upstream delivered the next block of the range.
    BlockReceived(CompactBlock),
    /// Upstream closed the stream normally.
    EndOfStream,
    /// Upstream failed mid-stream.
    ReadFailed,
    /// The client accepted the pending push.
    PushAccepted,
    /// The output channel is closed: the client disconnected.
    PushClosed,
}

/// What the driver must do next.
pub enum RelayAction {
    /// Await the next upstream record.
    ReadNext,
    /// Push this redacted block into the single-slot output channel.
    Push(CompactBlock),
    /// Push this error as the stream's terminal item.
    PushError(Error),
    /// Tear the task down; nothing further is read or pushed.
    Stop,
}

/// Mathematical view of a [`RelayEvent`].
pub enum SpecEvent {
    Connected,
    ConnectFailed,
    BlockReceived(SpecBlock),
    EndOfStream,
    ReadFailed,
    PushAccepted,
    PushClosed,
}

/// Mathematical view of a [`RelayAction`].
pub enum SpecAction {
    ReadNext,
    Push(SpecBlock),
    PushError(Error),
    Stop,
}

impl View for RelayEvent {
    type V = SpecEvent;

    open spec fn view(&self) -> SpecEvent {
        match self {
            RelayEvent::Connected => SpecEvent::Connected,
            RelayEvent::ConnectFailed => SpecEvent::ConnectFailed,
            RelayEvent::BlockReceived(b) => SpecEvent::BlockReceived(b@),
            RelayEvent::EndOfStream => SpecEvent::EndOfStream,
            RelayEvent::ReadFailed => SpecEvent::ReadFailed,
            RelayEvent::PushAccepted => SpecEvent::PushAccepted,
            RelayEvent::PushClosed => SpecEvent::PushClosed,
        }
    }
}

impl View for RelayAction {
    type V = SpecAction;

    open spec fn view(&self) -> SpecAction {
        match self {
            RelayAction::ReadNext => SpecAction::ReadNext,
            RelayAction::Push(b) => SpecAction::Push(b@),
            RelayAction::PushError(e) => SpecAction::PushError(*e),
            RelayAction::Stop => SpecAction::Stop,
        }
    }
}

/// Which events a well-behaved driver can observe in each state.
pub open spec fn event_permitted(state: RelayState, event: SpecEvent) -> bool {
    match state {
        RelayState::Connecting => event is Connected || event is ConnectFailed,
        RelayState::Streaming => event is BlockReceived || event is EndOfStream
            || event is ReadFailed,
        RelayState::AwaitingSend => event is PushAccepted || event is PushClosed,
        RelayState::Failed => event is PushAccepted || event is PushClosed,
        RelayState::Terminated => false,
    }
}

/// The machine's full transition table.
pub open spec fn spec_relay_step(c: SpecConfig, state: RelayState, event: SpecEvent) -> (
    RelayState,
    SpecAction,
) {
    match (state, event) {
        (RelayState::Connecting, SpecEvent::Connected) => (
            RelayState::Streaming,
            SpecAction::ReadNext,
        ),
        (RelayState::Connecting, SpecEvent::ConnectFailed) => (
            RelayState::Failed,
            SpecAction::PushError(Error::ConnectionError),
        ),
        (RelayState::Streaming, SpecEvent::BlockReceived(b)) => (
            RelayState::AwaitingSend,
            SpecAction::Push(spec_redact_block(c, b)),
        ),
        (RelayState::Streaming, SpecEvent::EndOfStream) => (
            RelayState::Terminated,
            SpecAction::Stop,
        ),
        (RelayState::Streaming, SpecEvent::ReadFailed) => (
            RelayState::Failed,
            SpecAction::PushError(Error::UpstreamError),
        ),
        (RelayState::AwaitingSend, SpecEvent::PushAccepted) => (
            RelayState::Streaming,
            SpecAction::ReadNext,
        ),
        (RelayState::AwaitingSend, SpecEvent::PushClosed) => (
            RelayState::Terminated,
            SpecAction::Stop,
        ),
        (RelayState::Failed, SpecEvent::PushAccepted) => (
            RelayState::Terminated,
            SpecAction::Stop,
        ),
        (RelayState::Failed, SpecEvent::PushClosed) => (
            RelayState::Terminated,
            SpecAction::Stop,
        ),
        _ => (RelayState::Terminated, SpecAction::Stop),
    }
}

/// Take one step of the relay task: from the current state and the
/// event just observed, produce the next state and the action the
/// driver must perform. The only computation is the redaction of a
/// received block; everything else is routing.
pub fn relay_step(config: &Config, state: RelayState, event: RelayEvent) -> (r: (
    RelayState,
    RelayAction,
))
    requires
        event_permitted(state, event@),
    ensures
        r.0 == spec_relay_step(config@, state, event@).0,
        r.1@ == spec_relay_step(config@, state, event@).1,
{
    match (state, event) {
        (RelayState::Connecting, RelayEvent::Connected) => (
            RelayState::Streaming,
            RelayAction::ReadNext,
        ),
        (RelayState::Connecting, RelayEvent::ConnectFailed) => (
            RelayState::Failed,
            RelayAction::PushError(Error::ConnectionError),
        ),
        (RelayState::Streaming, RelayEvent::BlockReceived(mut block)) => {
            redact_block(config, &mut block);
            (RelayState::AwaitingSend, RelayAction::Push(block))
        },
        (RelayState::Streaming, RelayEvent::EndOfStream) => (
            RelayState::Terminated,
            RelayAction::Stop,
        ),
        (RelayState::Streaming, RelayEvent::ReadFailed) => (
            RelayState::Failed,
            RelayAction::PushError(Error::UpstreamError),
        ),
        (RelayState::AwaitingSend, RelayEvent::PushAccepted) => (
            RelayState::Streaming,
            RelayAction::ReadNext,
        ),
        (RelayState::AwaitingSend, RelayEvent::PushClosed) => (
            RelayState::Terminated,
            RelayAction::Stop,
        ),
        (RelayState::Failed, RelayEvent::PushAccepted) => (
            RelayState::Terminated,
            RelayAction::Stop,
        ),
        (RelayState::Failed, RelayEvent::PushClosed) => (
            RelayState::Terminated,
            RelayAction::Stop,
        ),
        _ => (RelayState::Terminated, RelayAction::Stop),
    }
}

/// Run the transition table over a whole sequence of events: the final
/// state, the blocks pushed to the client in order, and whether a
/// terminal error was pushed.
pub open spec fn run_relay(c: SpecConfig, state: RelayState, events: Seq<SpecEvent>) -> (
    RelayState,
    Seq<SpecBlock>,
    bool,
)
    decreases events.len(),
{
    if events.len() == 0 {
        (state, Seq::empty(), false)
    } else {
        let step = spec_relay_step(c, state, events[0]);
        let rest = run_relay(c, step.0, events.skip(1));
        match step.1 {
            SpecAction::Push(b) => (rest.0, seq![b] + rest.1, rest.2),
            SpecAction::PushError(e) => (rest.0, rest.1, true),
            SpecAction::ReadNext => rest,
            SpecAction::Stop => rest,
        }
    }
}

/// The events a driver observes while streaming a range whose remaining
/// blocks are `blocks`, with a client that accepts every push: each
/// block arrives and its push is accepted, then the stream ends.
pub open spec fn stream_events(blocks: Seq<SpecBlock>) -> Seq<SpecEvent>
    decreases blocks.len(),
{
    if blocks.len() == 0 {
        seq![SpecEvent::EndOfStream]
    } else {
        seq![SpecEvent::BlockReceived(blocks[0]), SpecEvent::PushAccepted] + stream_events(
            blocks.skip(1),
        )
    }
}

/// The full event trace of an undisturbed scan over `blocks`.
pub open spec fn relay_events(blocks: Seq<SpecBlock>) -> Seq<SpecEvent> {
    seq![SpecEvent::Connected] + stream_events(blocks)
}

proof fn lemma_run_streaming(c: SpecConfig, blocks: Seq<SpecBlock>)
    ensures
        ({
            let r = run_relay(c, RelayState::Streaming, stream_events(blocks));
            &&& r.0 == RelayState::Terminated
            &&& r.1 =~= blocks.map_values(|b: SpecBlock| spec_redact_block(c, b))
            &&& r.2 == false
        }),
    decreases blocks.len(),
{
    reveal_with_fuel(run_relay, 4);
    let events = stream_events(blocks);
    if blocks.len() == 0 {
        assert(events =~= seq![SpecEvent::EndOfStream]);
        assert(events.skip(1) =~= Seq::<SpecEvent>::empty());
        assert(blocks.map_values(|b: SpecBlock| spec_redact_block(c, b)) =~= Seq::<
            SpecBlock,
        >::empty());
    } else {
        let tail = stream_events(blocks.skip(1));
        assert(events[0] == SpecEvent::BlockReceived(blocks[0]));
        let after_block = events.skip(1);
        assert(after_block =~= seq![SpecEvent::PushAccepted] + tail);
        assert(after_block[0] == SpecEvent::PushAccepted);
        assert(after_block.skip(1) =~= tail);
        lemma_run_streaming(c, blocks.skip(1));
        let r_tail = run_relay(c, RelayState::Streaming, tail);
        let r_after = run_relay(c, RelayState::AwaitingSend, after_block);
        assert(r_after == r_tail);
        assert(seq![spec_redact_block(c, blocks[0])] + blocks.skip(1).map_values(
            |b: SpecBlock| spec_redact_block(c, b),
        ) =~= blocks.map_values(|b: SpecBlock| spec_redact_block(c, b)));
    }
}

/// Law: an undisturbed scan over any range of blocks, however long,
/// delivers exactly one output per input block, in upstream order, each
/// the redaction of its input; transaction counts are preserved inside
/// every block; the task ends cleanly, with no error pushed. An empty
/// range yields an immediately empty, error-free stream.
pub proof fn lemma_relay_preserves_count_and_order(c: SpecConfig, blocks: Seq<SpecBlock>)
    ensures
        ({
            let r = run_relay(c, RelayState::Connecting, relay_events(blocks));
            &&& r.0 == RelayState::Terminated
            &&& r.1.len() == blocks.len()
            &&& (forall|i: int|
                0 <= i < blocks.len() ==> r.1[i] == spec_redact_block(c, blocks[i]))
            &&& (forall|i: int|
                0 <= i < blocks.len() ==> #[trigger] r.1[i].vtx.len() == blocks[i].vtx.len())
            &&& r.2 == false
        }),
{
    let events = relay_events(blocks);
    assert(events[0] == SpecEvent::Connected);
    assert(events.skip(1) =~= stream_events(blocks));
    lemma_run_streaming(c, blocks);
}

/// Law: a closed output channel is prompt cancellation. In every state
/// that can observe a push outcome, the step that observes the closed
/// channel terminates the task and orders no further read and no
/// further push.
pub proof fn lemma_cancellation_is_prompt(c: SpecConfig, state: RelayState)
    requires
        event_permitted(state, SpecEvent::PushClosed),
    ensures
        spec_relay_step(c, state, SpecEvent::PushClosed).0 == RelayState::Terminated,
        spec_relay_step(c, state, SpecEvent::PushClosed).1 is Stop,
{
}

/// Law: a connection that fails before the first block surfaces as a
/// terminal connection error on the output boundary, never as an empty
/// successful stream, and the task then terminates whatever became of
/// that final push.
pub proof fn lemma_connect_failure_is_terminal(c: SpecConfig)
    ensures
        spec_relay_step(c, RelayState::Connecting, SpecEvent::ConnectFailed).0
            == RelayState::Failed,
        spec_relay_step(c, RelayState::Connecting, SpecEvent::ConnectFailed).1
            == SpecAction::PushError(Error::ConnectionError),
        forall|e: SpecEvent|
            event_permitted(RelayState::Failed, e) ==> #[trigger] spec_relay_step(
                c,
                RelayState::Failed,
                e,
            ).0 == RelayState::Terminated,
        ({
            let r = run_relay(
                c,
                RelayState::Connecting,
                seq![SpecEvent::ConnectFailed, SpecEvent::PushAccepted],
            );
            &&& r.0 == RelayState::Terminated
            &&& r.1 =~= Seq::<SpecBlock>::empty()
            &&& r.2 == true
        }),
{
    reveal_with_fuel(run_relay, 4);
    let events = seq![SpecEvent::ConnectFailed, SpecEvent::PushAccepted];
    assert(events.skip(1) =~= seq![SpecEvent::PushAccepted]);
    assert(events.skip(1).skip(1) =~= Seq::<SpecEvent>::empty());
}

/// Law: an upstream failure mid-stream surfaces as a terminal upstream
/// error on the output boundary; the stream is never silently
/// truncated.
pub proof fn lemma_read_failure_is_terminal(c: SpecConfig)
    ensures
        spec_relay_step(c, RelayState::Streaming, SpecEvent::ReadFailed).0 == RelayState::Failed,
        spec_relay_step(c, RelayState::Streaming, SpecEvent::ReadFailed).1
            == SpecAction::PushError(Error::UpstreamError),
{
}

} // verus!
