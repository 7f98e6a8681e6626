//! The decisions of the delivery loop.
//!
//! The loop itself lives outside the library: it polls the queue of events,
//! sleeps, and hands messages to the chat client. After each of these it tells
//! the `DispatchLoop` what happened and is told what to do next.

use crate::gitlab::{text_message, text_outcome};
use crate::message::{FragmentView, Message};
use crate::parser::{
    dispatched, lemma_library_parsers_agree, EventParser, ParserRegistry, SourceParser,
};
use vstd::prelude::*;

verus! {

/// What happened in the loop.
#[derive(Debug)]
pub enum LoopEvent {
    /// The loop has started.
    Started,
    /// The queue was polled without blocking: it held this event text, or it
    /// was empty.
    Polled(Option<String>),
    /// The pause is over.
    Resumed,
    /// The chat client returned from a delivery. The flag says whether the
    /// delivery succeeded.
    Delivered(bool),
}

pub enum LoopEventView {
    Started,
    Polled(Option<Seq<char>>),
    Resumed,
    Delivered(bool),
}

impl View for LoopEvent {
    type V = LoopEventView;

    open spec fn view(&self) -> LoopEventView {
        match self {
            LoopEvent::Started => LoopEventView::Started,
            LoopEvent::Polled(polled) => LoopEventView::Polled(polled.deep_view()),
            LoopEvent::Resumed => LoopEventView::Resumed,
            LoopEvent::Delivered(delivered) => LoopEventView::Delivered(*delivered),
        }
    }
}

/// What the loop does next.
#[derive(Debug)]
pub enum LoopAction {
    /// Poll the queue, without blocking.
    Poll,
    /// Pause for the fixed interval.
    Pause,
    /// Hand this message to the chat client, in one delivery call.
    Deliver(Message),
}

pub enum LoopActionView {
    Poll,
    Pause,
    Deliver(Seq<FragmentView>),
}

impl View for LoopAction {
    type V = LoopActionView;

    open spec fn view(&self) -> LoopActionView {
        match self {
            LoopAction::Poll => LoopActionView::Poll,
            LoopAction::Pause => LoopActionView::Pause,
            LoopAction::Deliver(message) => LoopActionView::Deliver(message@),
        }
    }
}

/// The messages to deliver for an event: those of the parser that matched,
/// or, where no parser matched, the event's own text as a single message.
pub open spec fn deliveries(raw: Seq<char>, outcome: Option<Seq<Seq<FragmentView>>>) -> Seq<
    Seq<FragmentView>,
> {
    match outcome {
        Some(messages) => messages,
        None => seq![text_message(raw)],
    }
}

/// Chooses the messages to deliver for an event from what the registry made
/// of it.
pub fn plan_delivery(raw_json: &str, outcome: Option<Vec<Message>>) -> (messages: Vec<Message>)
    ensures
        messages.deep_view() == deliveries(raw_json@, outcome.deep_view()),
{
    match outcome {
        Some(messages) => messages,
        None => {
            let mut messages: Vec<Message> = Vec::new();
            messages.push(Message::new().add_text(raw_json));
            assert(messages.deep_view() =~= seq![text_message(raw_json@)]);
            messages
        },
    }
}

/// The messages that an occurrence adds to those awaiting delivery: those of
/// the event that a poll found, given what the registry made of it, and nothing
/// otherwise.
pub open spec fn arrivals(event: LoopEventView, outcome: Option<Seq<Seq<FragmentView>>>) -> Seq<
    Seq<FragmentView>,
> {
    match event {
        LoopEventView::Polled(Some(raw)) => deliveries(raw, outcome),
        _ => Seq::empty(),
    }
}

/// One step of the loop: the messages still awaiting delivery afterwards, and
/// the action to take. While messages await delivery the next of them is
/// delivered, whatever happened. With none left the loop pauses after a poll
/// that found nothing, and polls otherwise. `outcome` is what the registry made
/// of the event that a poll found.
pub open spec fn next(
    pending: Seq<Seq<FragmentView>>,
    event: LoopEventView,
    outcome: Option<Seq<Seq<FragmentView>>>,
) -> (Seq<Seq<FragmentView>>, LoopActionView) {
    let queue = pending + arrivals(event, outcome);
    if queue.len() > 0 {
        (queue.skip(1), LoopActionView::Deliver(queue[0]))
    } else if event == LoopEventView::Polled(None) {
        (queue, LoopActionView::Pause)
    } else {
        (queue, LoopActionView::Poll)
    }
}

/// Whether `outcome` is what a list of parsers can make of an occurrence: a
/// right answer to the event text that a poll found, and `None` otherwise.
pub open spec fn consulted<P: EventParser>(
    registry: Seq<P>,
    event: LoopEventView,
    outcome: Option<Vec<Message>>,
) -> bool {
    match event {
        LoopEventView::Polled(Some(raw)) => dispatched(registry, raw, outcome),
        _ => outcome.is_none(),
    }
}

/// Whether an occurrence brought an event that no parser matched, so that its
/// own text is delivered in place of a rendering.
pub open spec fn unmatched(event: LoopEventView, outcome: Option<Seq<Seq<FragmentView>>>) -> bool {
    event matches LoopEventView::Polled(Some(_)) && outcome.is_none()
}

/// The state of the delivery loop: idle, or draining the messages of the
/// event in hand.
pub struct DispatchLoop<P: EventParser> {
    registry: ParserRegistry<P>,
    pending: Vec<Message>,
    fell_back: bool,
}

impl<P: EventParser> DispatchLoop<P> {
    /// The parsers that the loop consults.
    pub closed spec fn registry(&self) -> Seq<P> {
        self.registry@
    }

    /// The messages that await delivery, the next one first.
    pub closed spec fn pending(&self) -> Seq<Seq<FragmentView>> {
        self.pending.deep_view()
    }

    /// Whether the loop is idle: no message awaits delivery.
    pub open spec fn is_idle(&self) -> bool {
        self.pending().len() == 0
    }

    /// Whether the last step took in an event that no parser matched.
    pub closed spec fn fell_back(&self) -> bool {
        self.fell_back
    }

    /// An idle loop over the given parsers.
    pub fn new(registry: ParserRegistry<P>) -> (state: Self)
        ensures
            state.registry() == registry@,
            state.is_idle(),
            !state.fell_back(),
    {
        DispatchLoop { registry, pending: Vec::new(), fell_back: false }
    }

    /// Says whether the last step took in an event that no parser matched, and
    /// so put the event's own text up for delivery.
    pub fn last_event_unmatched(&self) -> (fell_back: bool)
        ensures
            fell_back == self.fell_back(),
    {
        self.fell_back
    }

    /// The number of messages that await delivery.
    pub fn pending_len(&self) -> (n: usize)
        ensures
            n == self.pending().len(),
    {
        self.pending.len()
    }

    /// Takes note of what happened and says what to do next. An event text
    /// that a poll found is handed to the registry, once.
    pub fn step(&mut self, event: LoopEvent) -> (action: LoopAction)
        ensures
            final(self).registry() == old(self).registry(),
            exists|outcome: Option<Vec<Message>>|
                #![trigger consulted(old(self).registry(), event@, outcome)]
                {
                    &&& consulted(old(self).registry(), event@, outcome)
                    &&& (final(self).pending(), action@) == next(
                        old(self).pending(),
                        event@,
                        outcome.deep_view(),
                    )
                    &&& final(self).fell_back() == unmatched(event@, outcome.deep_view())
                },
    {
        let ghost before = self.pending.deep_view();
        let ghost occurred = event@;
        let ghost consulted_with: Option<Vec<Message>> = None;
        let empty_poll = match &event {
            LoopEvent::Polled(None) => true,
            _ => false,
        };
        match event {
            LoopEvent::Polled(Some(raw)) => {
                let outcome = self.registry.dispatch_any(raw.as_str());
                proof {
                    consulted_with = outcome;
                }
                self.fell_back = outcome.is_none();
                let mut arrived = plan_delivery(raw.as_str(), outcome);
                let ghost added = arrived.deep_view();
                self.pending.append(&mut arrived);
                assert(self.pending.deep_view() =~= before + added);
            },
            _ => {
                self.fell_back = false;
                assert(self.pending.deep_view() =~= before + Seq::empty());
            },
        }
        let ghost queue = self.pending.deep_view();
        assert(consulted(old(self).registry(), occurred, consulted_with));
        assert(queue == before + arrivals(occurred, consulted_with.deep_view()));
        if self.pending.len() > 0 {
            let message = self.pending.remove(0);
            assert(self.pending.deep_view() =~= queue.skip(1));
            LoopAction::Deliver(message)
        } else if empty_poll {
            LoopAction::Pause
        } else {
            LoopAction::Poll
        }
    }
}

/// What the library's own parsers make of an occurrence: the rendering of the
/// event text that a poll found.
pub open spec fn library_outcome(event: LoopEventView) -> Option<Seq<Seq<FragmentView>>> {
    match event {
        LoopEventView::Polled(Some(raw)) => text_outcome(raw),
        _ => None,
    }
}

/// With the library's own parsers a step is fully determined by what happened.
pub proof fn lemma_library_step(
    registry: Seq<SourceParser>,
    event: LoopEventView,
    outcome: Option<Vec<Message>>,
)
    requires
        registry.len() > 0,
        consulted(registry, event, outcome),
    ensures
        arrivals(event, outcome.deep_view()) == arrivals(event, library_outcome(event)),
        unmatched(event, outcome.deep_view()) == unmatched(event, library_outcome(event)),
        forall|pending: Seq<Seq<FragmentView>>|
            next(pending, event, outcome.deep_view()) == next(
                pending,
                event,
                library_outcome(event),
            ),
{
    match event {
        LoopEventView::Polled(Some(raw)) => {
            lemma_library_parsers_agree(registry, raw, outcome);
        },
        _ => {},
    }
}

/// The actions that a run of the loop takes: one for each thing that happens,
/// in order. `answer` says what the registry makes of each event text.
pub open spec fn run(
    pending: Seq<Seq<FragmentView>>,
    events: Seq<LoopEventView>,
    answer: spec_fn(Seq<char>) -> Option<Seq<Seq<FragmentView>>>,
) -> Seq<LoopActionView>
    decreases events.len(),
{
    if events.len() == 0 {
        Seq::empty()
    } else {
        let outcome = match events[0] {
            LoopEventView::Polled(Some(raw)) => answer(raw),
            _ => None,
        };
        let (rest, action) = next(pending, events[0], outcome);
        seq![action] + run(rest, events.skip(1), answer)
    }
}

/// The messages that still await delivery after a run of the loop.
pub open spec fn left_after(
    pending: Seq<Seq<FragmentView>>,
    events: Seq<LoopEventView>,
    answer: spec_fn(Seq<char>) -> Option<Seq<Seq<FragmentView>>>,
) -> Seq<Seq<FragmentView>>
    decreases events.len(),
{
    if events.len() == 0 {
        pending
    } else {
        let outcome = match events[0] {
            LoopEventView::Polled(Some(raw)) => answer(raw),
            _ => None,
        };
        let (rest, action) = next(pending, events[0], outcome);
        left_after(rest, events.skip(1), answer)
    }
}

/// The messages that the events of a run bring, those of the first event
/// first.
pub open spec fn brought(
    events: Seq<LoopEventView>,
    answer: spec_fn(Seq<char>) -> Option<Seq<Seq<FragmentView>>>,
) -> Seq<Seq<FragmentView>>
    decreases events.len(),
{
    if events.len() == 0 {
        Seq::empty()
    } else {
        let outcome = match events[0] {
            LoopEventView::Polled(Some(raw)) => answer(raw),
            _ => None,
        };
        arrivals(events[0], outcome) + brought(events.skip(1), answer)
    }
}

/// The messages that a series of actions hands to the chat client, in order.
pub open spec fn handed_out(actions: Seq<LoopActionView>) -> Seq<Seq<FragmentView>>
    decreases actions.len(),
{
    if actions.len() == 0 {
        Seq::empty()
    } else {
        match actions[0] {
            LoopActionView::Deliver(message) => seq![message] + handed_out(actions.skip(1)),
            _ => handed_out(actions.skip(1)),
        }
    }
}

/// The reports of a series of deliveries, as events.
pub open spec fn reports(results: Seq<bool>) -> Seq<LoopEventView> {
    Seq::new(results.len(), |i: int| LoopEventView::Delivered(results[i]))
}

/// The actions that deliver the given messages in order and then poll.
pub open spec fn deliver_all(messages: Seq<Seq<FragmentView>>) -> Seq<LoopActionView> {
    Seq::new(
        messages.len() + 1,
        |i: int|
            if i < messages.len() {
                LoopActionView::Deliver(messages[i])
            } else {
                LoopActionView::Poll
            },
    )
}

/// Nothing is lost, doubled or reordered. Whatever happens, the messages
/// handed out so far, followed by those that still await delivery, are the
/// messages that awaited delivery at first, followed by those that the events
/// brought, in the order of the events.
pub proof fn lemma_order_kept(
    pending: Seq<Seq<FragmentView>>,
    events: Seq<LoopEventView>,
    answer: spec_fn(Seq<char>) -> Option<Seq<Seq<FragmentView>>>,
)
    ensures
        handed_out(run(pending, events, answer)) + left_after(pending, events, answer) == pending
            + brought(events, answer),
    decreases events.len(),
{
    if events.len() == 0 {
        assert(handed_out(run(pending, events, answer)) + left_after(pending, events, answer)
            =~= pending + brought(events, answer));
    } else {
        let outcome = match events[0] {
            LoopEventView::Polled(Some(raw)) => answer(raw),
            _ => None,
        };
        let (rest, action) = next(pending, events[0], outcome);
        let tail = run(rest, events.skip(1), answer);
        let actions = run(pending, events, answer);
        lemma_order_kept(rest, events.skip(1), answer);
        assert(actions == seq![action] + tail);
        assert(actions.skip(1) =~= tail);
        assert(actions[0] == action);
        let queue = pending + arrivals(events[0], outcome);
        if queue.len() > 0 {
            assert(handed_out(actions) == seq![queue[0]] + handed_out(tail));
            assert(seq![queue[0]] + queue.skip(1) =~= queue);
            assert(handed_out(actions) + left_after(pending, events, answer) =~= seq![queue[0]]
                + (handed_out(tail) + left_after(rest, events.skip(1), answer)));
            assert(seq![queue[0]] + (rest + brought(events.skip(1), answer)) =~= queue + brought(
                events.skip(1),
                answer,
            ));
        } else {
            assert(handed_out(actions) == handed_out(tail));
        }
        assert(queue + brought(events.skip(1), answer) =~= pending + brought(events, answer));
    }
}

/// Failures are isolated: what the loop does after a delivery does not depend
/// on whether the delivery succeeded.
pub proof fn lemma_failure_isolated(
    pending: Seq<Seq<FragmentView>>,
    outcome: Option<Seq<Seq<FragmentView>>>,
)
    ensures
        next(pending, LoopEventView::Delivered(true), outcome) == next(
            pending,
            LoopEventView::Delivered(false),
            outcome,
        ),
{
}

/// Pending messages are delivered in order, one per delivery call, whether or
/// not the deliveries succeed, and the loop polls again when none is left.
pub proof fn lemma_drains_in_order(
    pending: Seq<Seq<FragmentView>>,
    results: Seq<bool>,
    answer: spec_fn(Seq<char>) -> Option<Seq<Seq<FragmentView>>>,
)
    requires
        results.len() == pending.len() + 1,
    ensures
        run(pending, reports(results), answer) == deliver_all(pending),
    decreases pending.len(),
{
    let events = reports(results);
    let (rest, action) = next(pending, events[0], None);
    assert(pending + arrivals(events[0], None) =~= pending);
    if pending.len() == 0 {
        assert(run(rest, events.skip(1), answer) =~= Seq::empty());
        assert(run(pending, events, answer) =~= deliver_all(pending));
    } else {
        assert(events.skip(1) =~= reports(results.skip(1)));
        lemma_drains_in_order(rest, results.skip(1), answer);
        assert(run(pending, events, answer) =~= deliver_all(pending));
    }
}

/// An event is handled whole: from the idle state, the messages of an event
/// that a poll finds are delivered in order, one per call, and then the loop
/// polls again. An event that no parser matched is delivered as its own text,
/// in a single message.
pub proof fn lemma_event_delivered(
    raw: Seq<char>,
    results: Seq<bool>,
    answer: spec_fn(Seq<char>) -> Option<Seq<Seq<FragmentView>>>,
)
    requires
        results.len() == deliveries(raw, answer(raw)).len(),
    ensures
        run(Seq::empty(), seq![LoopEventView::Polled(Some(raw))] + reports(results), answer)
            == deliver_all(deliveries(raw, answer(raw))),
        answer(raw).is_none() ==> deliveries(raw, answer(raw)) == seq![text_message(raw)],
{
    let messages = deliveries(raw, answer(raw));
    let first = LoopEventView::Polled(Some(raw));
    let events = seq![first] + reports(results);
    let (rest, action) = next(Seq::empty(), first, answer(raw));
    assert(Seq::<Seq<FragmentView>>::empty() + arrivals(first, answer(raw)) =~= messages);
    assert(events.skip(1) =~= reports(results));
    if messages.len() == 0 {
        assert(run(rest, events.skip(1), answer) =~= Seq::empty());
        assert(run(Seq::empty(), events, answer) =~= deliver_all(messages));
    } else {
        lemma_drains_in_order(rest, results, answer);
        assert(run(Seq::empty(), events, answer) =~= deliver_all(messages));
    }
}

/// The idle loop starts by polling. An empty queue makes it pause, and the end
/// of the pause makes it poll again.
pub proof fn lemma_idle_cycle()
    ensures
        next(Seq::empty(), LoopEventView::Started, None) == (
            Seq::<Seq<FragmentView>>::empty(),
            LoopActionView::Poll,
        ),
        next(Seq::empty(), LoopEventView::Polled(None), None) == (
            Seq::<Seq<FragmentView>>::empty(),
            LoopActionView::Pause,
        ),
        next(Seq::empty(), LoopEventView::Resumed, None) == (
            Seq::<Seq<FragmentView>>::empty(),
            LoopActionView::Poll,
        ),
{
    assert(Seq::<Seq<FragmentView>>::empty() + Seq::<Seq<FragmentView>>::empty() =~= Seq::<
        Seq<FragmentView>,
    >::empty());
}

} // verus!
