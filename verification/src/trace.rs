//! Runs of a socket: what it answers to a sequence of events, and what holds
//! of every run.

use vstd::prelude::*;
use crate::conditions::Conditions;
use crate::error::SocketErrorView;
use crate::event::{SocketEventView, SocketStepView};
use crate::holding::{is_earliest, lemma_front_is_earliest};
use crate::link_conditioner::{accepted, LinkConditionerView};
use crate::packet::PacketView;
use crate::server_socket::{direct_step, ServerSocketView};
use crate::socket::{conditioner_step, socket_step, SocketView};

verus! {

/// One input of a run: an event, and the conditions under which the socket
/// takes it.
pub struct Input {
    pub event: SocketEventView,
    pub conditions: Conditions,
}

/// The steps that a socket answers with, one for each input, in order.
pub open spec fn run(socket: SocketView, inputs: Seq<Input>) -> Seq<SocketStepView>
    decreases inputs.len(),
{
    if inputs.len() == 0 {
        Seq::empty()
    } else {
        let (next, step) = socket_step(socket, inputs[0].event, inputs[0].conditions);
        seq![step] + run(next, inputs.skip(1))
    }
}

/// The packets that the inputs report as taken from the outbound queue, in
/// order.
pub open spec fn dequeued(inputs: Seq<Input>) -> Seq<PacketView>
    decreases inputs.len(),
{
    if inputs.len() == 0 {
        Seq::empty()
    } else {
        let rest = dequeued(inputs.skip(1));
        match inputs[0].event {
            SocketEventView::Outbound(Some(packet)) => seq![packet] + rest,
            _ => rest,
        }
    }
}

/// The packets that the steps ask to be sent, in order.
pub open spec fn attempted(steps: Seq<SocketStepView>) -> Seq<PacketView>
    decreases steps.len(),
{
    if steps.len() == 0 {
        Seq::empty()
    } else {
        let rest = attempted(steps.skip(1));
        match steps[0] {
            SocketStepView::Send(packet) => seq![packet] + rest,
            _ => rest,
        }
    }
}

/// The inputs that report each of `arrivals` as an inbound datagram, each
/// under the conditions at the same place in `conditions`.
pub open spec fn arriving(arrivals: Seq<PacketView>, conditions: Seq<Conditions>) -> Seq<Input> {
    Seq::new(
        arrivals.len(),
        |i: int|
            Input { event: SocketEventView::Inbound(Ok(arrivals[i])), conditions: conditions[i] },
    )
}

/// A socket asks for a send exactly when it is told of a packet from the
/// outbound queue, and then for the sending of that packet.
pub proof fn lemma_step_sends_what_was_dequeued(
    socket: SocketView,
    event: SocketEventView,
    conditions: Conditions,
    packet: PacketView,
)
    ensures
        socket_step(socket, event, conditions).1 == SocketStepView::Send(packet) <==> event
            == SocketEventView::Outbound(Some(packet)),
    decreases socket,
{
    match socket {
        SocketView::Direct(direct) => {},
        SocketView::Conditioned(conditioner) => {
            lemma_step_sends_what_was_dequeued(*conditioner.inner, event, conditions, packet);
        },
    }
}

/// Every packet that is taken from the outbound queue is handed to the
/// transport once, and the packets are handed over in the order in which
/// they were taken: in every run of every socket, the sends that are asked
/// for are the packets that were dequeued, one for one and in order.
pub proof fn lemma_sends_follow_the_queue(socket: SocketView, inputs: Seq<Input>)
    ensures
        run(socket, inputs).len() == inputs.len(),
        attempted(run(socket, inputs)) == dequeued(inputs),
    decreases inputs.len(),
{
    if inputs.len() > 0 {
        let (next, step) = socket_step(socket, inputs[0].event, inputs[0].conditions);
        let steps = run(socket, inputs);
        lemma_sends_follow_the_queue(next, inputs.skip(1));
        assert(steps.skip(1) == run(next, inputs.skip(1)));
        assert(steps[0] == step);
        match step {
            SocketStepView::Send(packet) => {
                lemma_step_sends_what_was_dequeued(
                    socket,
                    inputs[0].event,
                    inputs[0].conditions,
                    packet,
                );
            },
            _ => {
                match inputs[0].event {
                    SocketEventView::Outbound(Some(packet)) => {
                        lemma_step_sends_what_was_dequeued(
                            socket,
                            inputs[0].event,
                            inputs[0].conditions,
                            packet,
                        );
                    },
                    _ => {},
                }
            },
        }
    }
}

/// A send that succeeds is no result of the receive: the packet from the
/// queue is handed to the transport, the success is answered with another
/// round, and the round begins with waiting.
pub proof fn lemma_successful_send_goes_on(socket: ServerSocketView, queued: PacketView)
    ensures
        ({
            let (sending, first) = direct_step(socket, SocketEventView::Outbound(Some(queued)));
            let (sent, second) = direct_step(sending, SocketEventView::Sent(true));
            &&& first == SocketStepView::Send(queued)
            &&& second == SocketStepView::Again
            &&& sent == (ServerSocketView { in_flight: None, ..socket })
            &&& direct_step(sent, SocketEventView::Resumed) == (sent, SocketStepView::Wait)
        }),
{
}

/// A send that fails is reported once, with the address that it was meant
/// for, and leaves the socket as it was before the send: a second report
/// finds nothing to tell, and a datagram that arrives afterwards is returned.
pub proof fn lemma_send_failure_is_reported_once(
    socket: ServerSocketView,
    unsent: PacketView,
    arrival: PacketView,
)
    ensures
        ({
            let (sending, first) = direct_step(socket, SocketEventView::Outbound(Some(unsent)));
            let (failed, second) = direct_step(sending, SocketEventView::Sent(false));
            &&& first == SocketStepView::Send(unsent)
            &&& second == SocketStepView::Return(Err(SocketErrorView::SendError(unsent.address)))
            &&& failed == (ServerSocketView { in_flight: None, ..socket })
            &&& direct_step(failed, SocketEventView::Sent(false)) == (failed, SocketStepView::Again)
            &&& direct_step(failed, SocketEventView::Inbound(Ok(arrival))) == (
                failed,
                SocketStepView::Return(Ok(arrival)),
            )
        }),
{
}

/// Link conditioners leave the reports of sends alone: whatever stands
/// around the plain socket, a send that fails is reported once, with the
/// address that it was meant for, and a second report finds nothing to tell.
pub proof fn lemma_send_failure_passes_conditioners(
    socket: SocketView,
    unsent: PacketView,
    first: Conditions,
    second: Conditions,
    third: Conditions,
)
    ensures
        ({
            let (sending, asked) = socket_step(
                socket,
                SocketEventView::Outbound(Some(unsent)),
                first,
            );
            let (failed, told) = socket_step(sending, SocketEventView::Sent(false), second);
            &&& asked == SocketStepView::Send(unsent)
            &&& told == SocketStepView::Return(Err(SocketErrorView::SendError(unsent.address)))
            &&& socket_step(failed, SocketEventView::Sent(false), third).1 == SocketStepView::Again
        }),
    decreases socket,
{
    match socket {
        SocketView::Direct(direct) => {},
        SocketView::Conditioned(conditioner) => {
            lemma_send_failure_passes_conditioners(
                *conditioner.inner,
                unsent,
                first,
                second,
                third,
            );
        },
    }
}

/// A link conditioner that loses nothing and delays nothing, and holds
/// nothing, answers every event as the socket inside it does, and holds
/// nothing afterwards.
pub proof fn lemma_transparent_step(
    conditioner: LinkConditionerView,
    event: SocketEventView,
    conditions: Conditions,
)
    requires
        conditioner.config.is_transparent(),
        conditioner.held.len() == 0,
    ensures
        ({
            let (inner, step) = socket_step(*conditioner.inner, event, conditions);
            conditioner_step(conditioner, event, conditions) == (
                LinkConditionerView {
                    inner: Box::new(inner),
                    config: conditioner.config,
                    held: Seq::empty(),
                },
                step,
            )
        }),
{
    let (inner, step) = socket_step(*conditioner.inner, event, conditions);
    assert(conditioner.held =~= Seq::empty());
    match step {
        SocketStepView::Return(Ok(packet)) => {
            let kept = accepted(
                conditioner.held,
                conditioner.config,
                packet,
                conditions,
            );
            assert(kept.len() == 1);
            assert(is_earliest(kept, 0));
            lemma_front_is_earliest(kept, 0);
            assert(kept.remove(0) =~= Seq::empty());
        },
        _ => {},
    }
}

/// A link conditioner that loses nothing and delays nothing is transparent:
/// from a state in which it holds nothing, every run of it is the run of the
/// socket inside it.
pub proof fn lemma_transparent_run(conditioner: LinkConditionerView, inputs: Seq<Input>)
    requires
        conditioner.config.is_transparent(),
        conditioner.held.len() == 0,
    ensures
        run(SocketView::Conditioned(conditioner), inputs) == run(*conditioner.inner, inputs),
    decreases inputs.len(),
{
    if inputs.len() > 0 {
        lemma_transparent_step(conditioner, inputs[0].event, inputs[0].conditions);
        let (inner, step) = socket_step(*conditioner.inner, inputs[0].event, inputs[0].conditions);
        let next = LinkConditionerView {
            inner: Box::new(inner),
            config: conditioner.config,
            held: Seq::empty(),
        };
        lemma_transparent_run(next, inputs.skip(1));
    }
}

/// Datagrams that arrive at a plain socket are returned as they are, in the
/// order of their arrival.
pub proof fn lemma_arrivals_are_returned(
    socket: ServerSocketView,
    arrivals: Seq<PacketView>,
    conditions: Seq<Conditions>,
)
    requires
        conditions.len() == arrivals.len(),
    ensures
        run(SocketView::Direct(socket), arriving(arrivals, conditions)) == Seq::new(
            arrivals.len(),
            |i: int| SocketStepView::Return(Ok(arrivals[i])),
        ),
    decreases arrivals.len(),
{
    let inputs = arriving(arrivals, conditions);
    if arrivals.len() > 0 {
        lemma_arrivals_are_returned(socket, arrivals.skip(1), conditions.skip(1));
        assert(inputs.skip(1) =~= arriving(arrivals.skip(1), conditions.skip(1)));
        assert(run(SocketView::Direct(socket), inputs) =~= Seq::new(
            arrivals.len(),
            |i: int| SocketStepView::Return(Ok(arrivals[i])),
        ));
    } else {
        assert(run(SocketView::Direct(socket), inputs) =~= Seq::new(
            arrivals.len(),
            |i: int| SocketStepView::Return(Ok(arrivals[i])),
        ));
    }
}

/// With no loss and no delay, the packets that arrive come out of a link
/// conditioner around a plain socket as they went in: the same packets,
/// unchanged, in the order of their arrival, whatever the time and the draws.
pub proof fn lemma_transparent_link_delivers_all(
    conditioner: LinkConditionerView,
    arrivals: Seq<PacketView>,
    conditions: Seq<Conditions>,
)
    requires
        conditioner.config.is_transparent(),
        conditioner.held.len() == 0,
        *conditioner.inner is Direct,
        conditions.len() == arrivals.len(),
    ensures
        run(SocketView::Conditioned(conditioner), arriving(arrivals, conditions)) == Seq::new(
            arrivals.len(),
            |i: int| SocketStepView::Return(Ok(arrivals[i])),
        ),
{
    lemma_transparent_run(conditioner, arriving(arrivals, conditions));
    lemma_arrivals_are_returned(conditioner.inner->Direct_0, arrivals, conditions);
}

/// A link conditioner that loses every packet, and holds none, returns no
/// packet on any event, and holds none afterwards.
pub proof fn lemma_severed_step(
    conditioner: LinkConditionerView,
    event: SocketEventView,
    conditions: Conditions,
)
    requires
        conditioner.config.is_severed(),
        conditioner.held.len() == 0,
    ensures
        ({
            let (next, step) = conditioner_step(conditioner, event, conditions);
            &&& !(step matches SocketStepView::Return(Ok(_)))
            &&& next.config == conditioner.config
            &&& next.held.len() == 0
        }),
{
}

/// A link conditioner that loses every packet never returns one: from a
/// state in which it holds nothing, no step of any run is the return of a
/// packet. Errors and sends pass as they do without it.
pub proof fn lemma_severed_link_returns_no_packet(
    conditioner: LinkConditionerView,
    inputs: Seq<Input>,
    i: int,
)
    requires
        conditioner.config.is_severed(),
        conditioner.held.len() == 0,
        0 <= i < inputs.len(),
    ensures
        run(SocketView::Conditioned(conditioner), inputs).len() == inputs.len(),
        !(run(SocketView::Conditioned(conditioner), inputs)[i] matches SocketStepView::Return(
            Ok(_),
        )),
    decreases inputs.len(),
{
    lemma_severed_step(conditioner, inputs[0].event, inputs[0].conditions);
    lemma_sends_follow_the_queue(SocketView::Conditioned(conditioner), inputs);
    let (next, step) = conditioner_step(conditioner, inputs[0].event, inputs[0].conditions);
    if i > 0 {
        lemma_severed_link_returns_no_packet(next, inputs.skip(1), i - 1);
    }
}

} // verus!
