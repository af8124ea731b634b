//! The USB poll driver: what happens on each interrupt of the USB peripheral.
//!
//! The caller polls the device stack, reads at most one packet, and samples
//! the device state; the driver decides what to write back, what to forward
//! to the consumer, and which enumeration event to publish.  It keeps the
//! device state of the previous poll, and nothing else, across invocations.

use crate::channel::{send_all, send_step, Channel};
use crate::command::{commands_of, Command};
use crate::enumeration::{edge, edge_spec, DeviceState, EnumerationEvent};
use vstd::prelude::*;

verus! {

/// Maximum packet size of the serial port's bulk endpoints.
pub const USB_MAX_PACKET_SIZE: usize = 64;

/// Capacity of the mailbox that carries enumeration events.
pub const EVENT_CHANNEL_CAPACITY: usize = 1;

/// Capacity of the mailbox that carries LED commands.
pub const COMMAND_CHANNEL_CAPACITY: usize = 3;

/// The reply of the echo protocol: the received bytes, unchanged, when there
/// are any.
pub open spec fn echo_spec(packet: Seq<u8>) -> Option<Seq<u8>> {
    if packet.len() > 0 {
        Some(packet)
    } else {
        None
    }
}

/// The event mailbox after publishing `event`.
pub open spec fn publish_spec(events: Seq<EnumerationEvent>, cap: nat, event: Option<EnumerationEvent>) -> Seq<EnumerationEvent> {
    match event {
        Some(e) => send_step(events, cap, e),
        None => events,
    }
}

/// The driver's memory, the command mailbox and the event mailbox after one
/// poll of the command variant that read `packet` and sampled `current`.
pub open spec fn command_poll_spec(
    previous: DeviceState,
    packet: Seq<u8>,
    current: DeviceState,
    commands: Seq<Command>,
    command_cap: nat,
    events: Seq<EnumerationEvent>,
    event_cap: nat,
) -> (DeviceState, Seq<Command>, Seq<EnumerationEvent>) {
    (
        current,
        send_all(commands, command_cap, commands_of(packet)),
        publish_spec(events, event_cap, edge_spec(previous, current)),
    )
}

/// `n` successive polls that read nothing and sample the same device state
/// as the poll before them.
pub open spec fn quiet_polls(
    previous: DeviceState,
    commands: Seq<Command>,
    command_cap: nat,
    events: Seq<EnumerationEvent>,
    event_cap: nat,
    n: nat,
) -> (DeviceState, Seq<Command>, Seq<EnumerationEvent>)
    decreases n,
{
    if n == 0 {
        (previous, commands, events)
    } else {
        let (p, c, e) = quiet_polls(previous, commands, command_cap, events, event_cap, (n - 1) as nat);
        command_poll_spec(p, Seq::empty(), p, c, command_cap, e, event_cap)
    }
}

/// Polls with no USB activity and an unchanged device state publish no
/// event, forward no command, echo nothing, and leave the driver as it was,
/// however many times they repeat.
pub proof fn lemma_quiet_polls_are_silent(
    previous: DeviceState,
    commands: Seq<Command>,
    command_cap: nat,
    events: Seq<EnumerationEvent>,
    event_cap: nat,
    n: nat,
)
    ensures
        edge_spec(previous, previous) is None,
        echo_spec(Seq::empty()) is None,
        quiet_polls(previous, commands, command_cap, events, event_cap, n) == (
            previous,
            commands,
            events,
        ),
    decreases n,
{
    if n > 0 {
        lemma_quiet_polls_are_silent(previous, commands, command_cap, events, event_cap, (n - 1) as nat);
        assert(crate::command::attempts(Seq::<u8>::empty()) =~= Seq::<Option<Command>>::empty());
    }
}

/// The echo reply to the packet just read: the same bytes, or nothing for an
/// empty packet.
pub fn echo_reply(packet: &[u8]) -> (r: Option<Vec<u8>>)
    ensures
        r is None <==> packet@.len() == 0,
        r matches Some(v) ==> v@ == packet@,
        match r {
            Some(v) => echo_spec(packet@) == Some(v@),
            None => echo_spec(packet@) is None,
        },
{
    if packet.len() == 0 {
        None
    } else {
        Some(vstd::slice::slice_to_vec(packet))
    }
}

/// Offers each command that `packet` carries to `commands`, in order.  Chunks
/// that do not decode, a trailing partial chunk, and commands that find the
/// mailbox full are dropped.
pub fn forward_commands(packet: &[u8], commands: &mut Channel<Command>)
    requires
        old(commands).wf(),
    ensures
        final(commands).wf(),
        final(commands).capacity_spec() == old(commands).capacity_spec(),
        final(commands)@ == send_all(old(commands)@, old(commands).capacity_spec(), commands_of(packet@)),
{
    let attempts = crate::command::decode_chunks(packet);
    let ghost q0 = commands@;
    let ghost cap = commands.capacity_spec();
    let mut i: usize = 0;
    while i < attempts.len()
        invariant
            commands.wf(),
            commands.capacity_spec() == cap,
            attempts@ == crate::command::attempts(packet@),
            i <= attempts@.len(),
            commands@ == send_all(q0, cap, crate::command::recognised(attempts@.take(i as int))),
        decreases attempts@.len() - i,
    {
        assert(attempts@.take(i + 1).drop_last() =~= attempts@.take(i as int));
        match attempts[i] {
            Some(c) => {
                let ghost before = crate::command::recognised(attempts@.take(i as int));
                assert(before.push(c).drop_last() =~= before);
                let _ = commands.try_send(c);
            },
            None => {},
        }
        i = i + 1;
    }
    assert(attempts@.take(attempts@.len() as int) =~= attempts@);
}

/// The state that the poll driver keeps between invocations.
pub struct PollDriver {
    previous: DeviceState,
}

impl View for PollDriver {
    type V = DeviceState;

    /// The device state sampled by the previous poll.
    closed spec fn view(&self) -> DeviceState {
        self.previous
    }
}

impl PollDriver {
    /// A driver that has not seen the device addressed yet.
    pub fn new() -> (r: PollDriver)
        ensures
            r@ == DeviceState::Default,
    {
        PollDriver { previous: DeviceState::Default }
    }

    /// The device state sampled by the previous poll.
    pub fn previous(&self) -> (r: DeviceState)
        ensures
            r == self@,
    {
        self.previous
    }

    /// Takes the device state sampled after the poll's I/O, publishes the
    /// enumeration edge from the previous sample, if any, and remembers the
    /// new sample.  A full mailbox drops the event.
    pub fn observe(&mut self, current: DeviceState, events: &mut Channel<EnumerationEvent>) -> (r:
        Option<EnumerationEvent>)
        requires
            old(events).wf(),
        ensures
            r == edge_spec(old(self)@, current),
            final(self)@ == current,
            final(events).wf(),
            final(events).capacity_spec() == old(events).capacity_spec(),
            final(events)@ == publish_spec(old(events)@, old(events).capacity_spec(), r),
    {
        let r = edge(self.previous, current);
        match r {
            Some(e) => {
                let _ = events.try_send(e);
            },
            None => {},
        }
        self.previous = current;
        r
    }
    /// One poll of the command variant: forwards the commands that `packet`
    /// carries, then publishes the enumeration edge to `current`.
    pub fn poll_commands(
        &mut self,
        packet: &[u8],
        current: DeviceState,
        commands: &mut Channel<Command>,
        events: &mut Channel<EnumerationEvent>,
    ) -> (r: Option<EnumerationEvent>)
        requires
            old(commands).wf(),
            old(events).wf(),
        ensures
            r == edge_spec(old(self)@, current),
            final(commands).wf(),
            final(events).wf(),
            final(commands).capacity_spec() == old(commands).capacity_spec(),
            final(events).capacity_spec() == old(events).capacity_spec(),
            (final(self)@, final(commands)@, final(events)@) == command_poll_spec(
                old(self)@,
                packet@,
                current,
                old(commands)@,
                old(commands).capacity_spec(),
                old(events)@,
                old(events).capacity_spec(),
            ),
    {
        forward_commands(packet, commands);
        self.observe(current, events)
    }
}

} // verus!
