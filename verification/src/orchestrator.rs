//! The decisions of the relay loop, as a state machine.
//!
//! The loop that runs a channel alternates outside work (sleeping, waiting for
//! messages, asking the model, posting to the channel) with decisions. The
//! decisions live here: [`Orchestrator::step`] takes what the outside work
//! produced as an [`Event`] and answers with a [`Directive`] that names the
//! outside work to do next. A round goes through pacing, draining, building
//! the request, invoking the model and delivering the outcome; building needs
//! no outside work and happens within the step that receives the drained batch.

use twilight_model::id::marker::MessageMarker;
use twilight_model::id::Id;
use vstd::prelude::*;

use crate::completion::{CompletionError, TOKEN_BUDGET};
use crate::config::Configuration;
use crate::history::{evicted, HistoryWindow};
use crate::message::{message_views, MessageView, Role, RoleTaggedMessage};
use crate::notice::{notice_text, notice_text_of, ErrorAnnouncer};
use crate::pacing::{RateGate, PACING_INTERVAL_MS};
use crate::text::{declines_reply, occurs_in, sentinel, truncate_reply, truncated, MAX_REPLY_CHARS};

verus! {

/// Where the loop stands: which outside work it is waiting for.
#[derive(Clone, Copy, Debug, PartialEq, Eq, Structural)]
pub enum Phase {
    /// Waiting until the pause since the last request is over.
    Pacing,
    /// Waiting for messages from the queue.
    Draining,
    /// Waiting for the model's answer.
    Invoking,
    /// Waiting for the reply to be sent to the channel.
    Delivering,
    /// Waiting for the error notice to be posted to the channel.
    Reporting,
    /// The queue is closed and the loop is over.
    ShuttingDown,
}

/// What the outside work produced.
#[derive(Debug, PartialEq, Eq)]
pub enum Event {
    /// The pause ended; the clock shows `now_ms`.
    Woke { now_ms: u64 },
    /// Messages came out of the queue, and `prompt` is the prompt as it reads
    /// now. An empty batch means that the queue is closed.
    Drained { prompt: String, batch: Vec<RoleTaggedMessage> },
    /// The queue is closed and empty.
    QueueClosed,
    /// The request to the model ended at `now_ms`, with a completion text or a
    /// failure.
    Completed { now_ms: u64, outcome: Result<String, CompletionError> },
    /// The error notice was posted under `id`, or could not be posted.
    NoticePosted { id: Option<Id<MessageMarker>> },
    /// The attempt to send the reply is over, however it went.
    Delivered,
}

/// The mathematical value of an [`Event`].
pub enum EventView {
    Woke { now_ms: u64 },
    Drained { prompt: Seq<char>, batch: Seq<MessageView> },
    QueueClosed,
    Completed { now_ms: u64, outcome: Result<Seq<char>, CompletionError> },
    NoticePosted { id: Option<Id<MessageMarker>> },
    Delivered,
}

impl View for Event {
    type V = EventView;

    open spec fn view(&self) -> EventView {
        match *self {
            Event::Woke { now_ms } => EventView::Woke { now_ms },
            Event::Drained { prompt, batch } => EventView::Drained {
                prompt: prompt@,
                batch: message_views(batch@),
            },
            Event::QueueClosed => EventView::QueueClosed,
            Event::Completed { now_ms, outcome } => EventView::Completed {
                now_ms,
                outcome: match outcome {
                    Ok(text) => Ok(text@),
                    Err(error) => Err(error),
                },
            },
            Event::NoticePosted { id } => EventView::NoticePosted { id },
            Event::Delivered => EventView::Delivered,
        }
    }
}

/// The outside work to do next. Each kind of work ends in the event that the
/// loop then hands back.
#[derive(Debug, PartialEq, Eq)]
pub enum Action {
    /// Sleep until `interval_ms` have passed since `since_ms`, then report
    /// [`Event::Woke`].
    Sleep { since_ms: u64, interval_ms: u64 },
    /// Wait for messages and take at most `limit` of them out of the queue,
    /// then report [`Event::Drained`] or [`Event::QueueClosed`].
    Drain { limit: usize },
    /// Ask the model to continue `messages`, then report [`Event::Completed`].
    Invoke { model: String, token_budget: u32, messages: Vec<RoleTaggedMessage> },
    /// Post `text` to the channel as an error notice, then report
    /// [`Event::NoticePosted`].
    PostNotice { text: String },
    /// Send `text` to the channel as the reply, then report
    /// [`Event::Delivered`].
    Deliver { text: String },
    /// Leave the loop.
    Stop,
}

/// The mathematical value of an [`Action`].
pub enum ActionView {
    Sleep { since_ms: u64, interval_ms: u64 },
    Drain { limit: usize },
    Invoke { model: Seq<char>, token_budget: u32, messages: Seq<MessageView> },
    PostNotice { text: Seq<char> },
    Deliver { text: Seq<char> },
    Stop,
}

impl View for Action {
    type V = ActionView;

    open spec fn view(&self) -> ActionView {
        match *self {
            Action::Sleep { since_ms, interval_ms } => ActionView::Sleep { since_ms, interval_ms },
            Action::Drain { limit } => ActionView::Drain { limit },
            Action::Invoke { model, token_budget, messages } => ActionView::Invoke {
                model: model@,
                token_budget,
                messages: message_views(messages@),
            },
            Action::PostNotice { text } => ActionView::PostNotice { text: text@ },
            Action::Deliver { text } => ActionView::Deliver { text: text@ },
            Action::Stop => ActionView::Stop,
        }
    }
}

/// What the loop is told after a step: first delete the error notice `retire`
/// from the channel, if there is one, without waiting for the outcome; then do
/// `action`.
#[derive(Debug, PartialEq, Eq)]
pub struct Directive {
    pub retire: Option<Id<MessageMarker>>,
    pub action: Action,
}

/// The mathematical value of a [`Directive`].
pub struct DirectiveView {
    pub retire: Option<Id<MessageMarker>>,
    pub action: ActionView,
}

impl View for Directive {
    type V = DirectiveView;

    open spec fn view(&self) -> DirectiveView {
        DirectiveView { retire: self.retire, action: self.action@ }
    }
}

/// The mathematical value of an [`Orchestrator`].
pub struct OrchestratorView {
    /// Where the loop stands.
    pub phase: Phase,
    /// The conversation context, oldest entry first.
    pub history: Seq<MessageView>,
    /// The length above which a batch triggers trimming, and the largest batch.
    pub max_size: usize,
    /// The length that trimming leaves.
    pub min_size: usize,
    /// When the last request ended, and the pause after it.
    pub gate: RateGate,
    /// The error notice on show in the channel, if any.
    pub notice: Option<Id<MessageMarker>>,
    /// The name of the model, as it is passed to every request.
    pub model: Seq<char>,
}

/// The directive to sleep until the pause of `state` is over.
pub open spec fn sleep_directive(
    state: OrchestratorView,
    retire: Option<Id<MessageMarker>>,
) -> DirectiveView {
    DirectiveView {
        retire,
        action: ActionView::Sleep {
            since_ms: state.gate.last_completed_ms,
            interval_ms: state.gate.interval_ms,
        },
    }
}

/// The state and the first directive of a loop that starts at `now_ms`.
pub open spec fn started(model: Seq<char>, max_size: usize, min_size: usize, now_ms: u64) -> (
    OrchestratorView,
    DirectiveView,
) {
    let state = OrchestratorView {
        phase: Phase::Pacing,
        history: Seq::empty(),
        max_size,
        min_size,
        gate: RateGate { last_completed_ms: now_ms, interval_ms: PACING_INTERVAL_MS },
        notice: None,
        model,
    };
    (state, sleep_directive(state, None))
}

/// The messages of a request: the prompt as a system message, then the history.
pub open spec fn request_context(prompt: Seq<char>, history: Seq<MessageView>) -> Seq<MessageView> {
    seq![MessageView { role: Role::System, content: prompt }] + history
}

/// Pacing, a wake-up: where the pause is over the loop goes on to drain
/// the queue, otherwise it sleeps again.
pub open spec fn after_wake(state: OrchestratorView, now_ms: u64) -> (
    OrchestratorView,
    DirectiveView,
) {
    if state.gate.open_at(now_ms) {
        (
            OrchestratorView { phase: Phase::Draining, ..state },
            DirectiveView { retire: None, action: ActionView::Drain { limit: state.max_size } },
        )
    } else {
        (state, sleep_directive(state, None))
    }
}

/// Draining, a batch arrived: it joins the history, which is trimmed, and the
/// model is asked to continue the prompt and the history.
pub open spec fn after_batch(
    state: OrchestratorView,
    prompt: Seq<char>,
    batch: Seq<MessageView>,
) -> (OrchestratorView, DirectiveView) {
    let history = evicted(state.history + batch, state.max_size as nat, state.min_size as nat);
    (
        OrchestratorView { phase: Phase::Invoking, history, ..state },
        DirectiveView {
            retire: None,
            action: ActionView::Invoke {
                model: state.model,
                token_budget: TOKEN_BUDGET,
                messages: request_context(prompt, history),
            },
        },
    )
}

/// Draining, the queue is closed: the loop ends, and the error notice on show
/// is deleted.
pub open spec fn after_close(state: OrchestratorView) -> (OrchestratorView, DirectiveView) {
    (
        OrchestratorView { phase: Phase::ShuttingDown, notice: None, ..state },
        DirectiveView { retire: state.notice, action: ActionView::Stop },
    )
}

/// Invoking, the request ended: the pause counts from now and the error notice
/// on show is deleted, whatever the outcome. A failure is reported in the
/// channel and leaves the history as it is. A completion text is cut to what
/// the channel displays; with the marker for "no reply" in it, it is dropped;
/// without, it joins the history and is sent to the channel.
pub open spec fn after_completion(
    state: OrchestratorView,
    now_ms: u64,
    outcome: Result<Seq<char>, CompletionError>,
) -> (OrchestratorView, DirectiveView) {
    let gate = RateGate { last_completed_ms: now_ms, interval_ms: state.gate.interval_ms };
    let settled = OrchestratorView { gate, notice: None, ..state };
    match outcome {
        Err(error) => (
            OrchestratorView { phase: Phase::Reporting, ..settled },
            DirectiveView {
                retire: state.notice,
                action: ActionView::PostNotice { text: notice_text_of(error) },
            },
        ),
        Ok(text) => {
            let reply = truncated(text, MAX_REPLY_CHARS as nat);
            if occurs_in(sentinel(), reply) {
                (
                    OrchestratorView { phase: Phase::Pacing, ..settled },
                    sleep_directive(settled, state.notice),
                )
            } else {
                (
                    OrchestratorView {
                        phase: Phase::Delivering,
                        history: state.history.push(
                            MessageView { role: Role::Assistant, content: reply },
                        ),
                        ..settled
                    },
                    DirectiveView {
                        retire: state.notice,
                        action: ActionView::Deliver { text: reply },
                    },
                )
            }
        },
    }
}

/// Reporting, the notice was posted: it is the notice on show from now on, and
/// the loop pauses.
pub open spec fn after_notice(state: OrchestratorView, id: Option<Id<MessageMarker>>) -> (
    OrchestratorView,
    DirectiveView,
) {
    (
        OrchestratorView { phase: Phase::Pacing, notice: id, ..state },
        sleep_directive(state, state.notice),
    )
}

/// Delivering, the reply was sent or not: the loop pauses.
pub open spec fn after_delivery(state: OrchestratorView) -> (OrchestratorView, DirectiveView) {
    (OrchestratorView { phase: Phase::Pacing, ..state }, sleep_directive(state, None))
}

/// The state that follows `state` on `event`, and the directive that goes with
/// it; `None` where the event is not one that `state` waits for.
pub open spec fn transition(state: OrchestratorView, event: EventView) -> Option<
    (OrchestratorView, DirectiveView),
> {
    match (state.phase, event) {
        (Phase::Pacing, EventView::Woke { now_ms }) => Some(after_wake(state, now_ms)),
        (Phase::Draining, EventView::Drained { prompt, batch }) => Some(
            if batch.len() == 0 {
                after_close(state)
            } else {
                after_batch(state, prompt, batch)
            },
        ),
        (Phase::Draining, EventView::QueueClosed) => Some(after_close(state)),
        (Phase::Invoking, EventView::Completed { now_ms, outcome }) => Some(
            after_completion(state, now_ms, outcome),
        ),
        (Phase::Reporting, EventView::NoticePosted { id }) => Some(after_notice(state, id)),
        (Phase::Delivering, EventView::Delivered) => Some(after_delivery(state)),
        _ => None,
    }
}

/// The state that a sequence of events leads to. Events that are not awaited
/// are passed over.
pub open spec fn run(state: OrchestratorView, events: Seq<EventView>) -> OrchestratorView
    decreases events.len(),
{
    if events.len() == 0 {
        state
    } else {
        let next = match transition(state, events.first()) {
            Some((next, _)) => next,
            None => state,
        };
        run(next, events.drop_first())
    }
}

/// Whether `state` tracks an error notice only in a phase in which one can be
/// on show: while a reply or a new notice is on its way, and once the loop is
/// over, the earlier notice has been handed out for deletion.
pub open spec fn consistent(state: OrchestratorView) -> bool {
    state.phase == Phase::Reporting || state.phase == Phase::Delivering || state.phase
        == Phase::ShuttingDown ==> state.notice is None
}

/// Whether `event` reports that the pause ended at `earliest` or later.
pub open spec fn wakes_from(event: EventView, earliest: int) -> bool {
    event matches EventView::Woke { now_ms } && now_ms >= earliest
}

/// A loop starts in a consistent state.
pub proof fn law_start_is_consistent(
    model: Seq<char>,
    max_size: usize,
    min_size: usize,
    now_ms: u64,
)
    ensures
        consistent(started(model, max_size, min_size, now_ms).0),
{
}

/// Every step keeps the state consistent, and never touches the thresholds of
/// the history, the length of the pause or the name of the model.
pub proof fn law_step_keeps_consistency(state: OrchestratorView, event: EventView)
    requires
        consistent(state),
        transition(state, event) is Some,
    ensures
        ({
            let (next, _) = transition(state, event)->0;
            &&& consistent(next)
            &&& next.max_size == state.max_size
            &&& next.min_size == state.min_size
            &&& next.gate.interval_ms == state.gate.interval_ms
            &&& next.model == state.model
        }),
{
}

/// A batch that arrives is followed by a request that holds the prompt as a
/// system message and then the trimmed history, oldest entry first. Where
/// `min_size` is no more than `max_size`, that history has at most `max_size`
/// entries.
pub proof fn law_request_holds_bounded_history(
    state: OrchestratorView,
    prompt: Seq<char>,
    batch: Seq<MessageView>,
)
    requires
        state.phase == Phase::Draining,
        batch.len() > 0,
    ensures
        ({
            let event = EventView::Drained { prompt, batch };
            let (next, directive) = transition(state, event)->0;
            &&& transition(state, event) is Some
            &&& next.phase == Phase::Invoking
            &&& next.history == evicted(
                state.history + batch,
                state.max_size as nat,
                state.min_size as nat,
            )
            &&& directive.action matches ActionView::Invoke { model, token_budget, messages }
                && model == state.model && token_budget == TOKEN_BUDGET && messages.len()
                == next.history.len() + 1 && messages[0] == (MessageView {
                role: Role::System,
                content: prompt,
            }) && messages.skip(1) == next.history
            &&& state.min_size <= state.max_size ==> next.history.len() <= state.max_size
        }),
{
}

/// A completion text with the marker for "no reply" in what the channel would
/// display of it leaves the history as it was and is not sent: the loop goes
/// straight back to pacing.
pub proof fn law_sentinel_suppression(state: OrchestratorView, now_ms: u64, text: Seq<char>)
    requires
        state.phase == Phase::Invoking,
        occurs_in(sentinel(), truncated(text, MAX_REPLY_CHARS as nat)),
    ensures
        ({
            let event = EventView::Completed { now_ms, outcome: Ok(text) };
            let (next, directive) = transition(state, event)->0;
            &&& transition(state, event) is Some
            &&& next.history == state.history
            &&& next.phase == Phase::Pacing
            &&& directive.action is Sleep
        }),
{
}

/// Whatever is sent to the channel as a reply is free of the marker for "no
/// reply", has no more characters than the channel displays, and has just
/// joined the history as what the assistant said. The history changes in no
/// other way but by a batch that arrives.
pub proof fn law_replies(state: OrchestratorView, event: EventView)
    requires
        transition(state, event) is Some,
    ensures
        ({
            let (next, directive) = transition(state, event)->0;
            &&& directive.action matches ActionView::Deliver { text } ==> {
                &&& !occurs_in(sentinel(), text)
                &&& text.len() <= MAX_REPLY_CHARS
                &&& next.history == state.history.push(
                    MessageView { role: Role::Assistant, content: text },
                )
            }
            &&& next.history != state.history ==> directive.action is Deliver || event is Drained
        }),
{
}

/// At most one error notice is tracked, and none is forgotten: a tracked
/// notice makes way only by being handed out for deletion, in the directive of
/// the same step. The end of a request retires the notice on show whatever the
/// outcome, so a failure is reported only after the notice of an earlier
/// failure is handed out. A notice is newly tracked only when it is reported
/// as posted, and then none other is on show.
pub proof fn law_single_error_notice(state: OrchestratorView, event: EventView)
    requires
        consistent(state),
        transition(state, event) is Some,
    ensures
        ({
            let (next, directive) = transition(state, event)->0;
            &&& next.notice != state.notice && state.notice is Some ==> directive.retire
                == state.notice
            &&& directive.retire is Some ==> directive.retire == state.notice && next.notice is None
            &&& event is Completed ==> directive.retire == state.notice && next.notice is None
            &&& directive.action is PostNotice ==> next.phase == Phase::Reporting && (
            event matches EventView::Completed { outcome: Err(_), .. })
            &&& next.notice != state.notice && next.notice is Some ==> event is NoticePosted
                && state.notice is None
            &&& next.phase == Phase::ShuttingDown ==> directive.action is Stop && directive.retire
                == state.notice
        }),
{
}

/// The loop leaves pacing exactly when the pause is over: a wake-up before
/// that changes nothing and is answered with the same pause.
pub proof fn law_gate_admits(state: OrchestratorView, now_ms: u64)
    requires
        state.phase == Phase::Pacing,
    ensures
        ({
            let event = EventView::Woke { now_ms };
            let (next, directive) = transition(state, event)->0;
            &&& transition(state, event) is Some
            &&& next.phase == Phase::Draining <==> now_ms >= state.gate.last_completed_ms
                + state.gate.interval_ms
            &&& next.phase != Phase::Draining ==> next == state && directive == sleep_directive(
                state,
                None,
            )
        }),
{
}

/// From a phase that follows the end of a request, the queue is drained and
/// the model asked again only after a wake-up that came no earlier than the
/// end of the pause.
pub proof fn lemma_wake_precedes_request(state: OrchestratorView, events: Seq<EventView>)
    requires
        state.phase == Phase::Pacing || state.phase == Phase::Delivering || state.phase
            == Phase::Reporting,
        run(state, events).phase == Phase::Draining || run(state, events).phase == Phase::Invoking,
    ensures
        exists|at: int|
            0 <= at < events.len() && wakes_from(
                #[trigger] events[at],
                state.gate.last_completed_ms + state.gate.interval_ms,
            ),
    decreases events.len(),
{
    if events.len() > 0 {
        let earliest = state.gate.last_completed_ms + state.gate.interval_ms;
        let next = match transition(state, events.first()) {
            Some((next, _)) => next,
            None => state,
        };
        if next.phase == Phase::Draining {
            assert(wakes_from(events[0], earliest));
        } else {
            lemma_wake_precedes_request(next, events.drop_first());
            let at = choose|at: int|
                0 <= at < events.drop_first().len() && wakes_from(
                    #[trigger] events.drop_first()[at],
                    earliest,
                );
            assert(wakes_from(events[at + 1], earliest));
        }
    }
}

/// Between the end of one request to the model and the start of the next lies
/// a full pause: if a request ends at `ended_ms` and, some events later, the
/// loop is draining the queue or asking the model again, then one of those
/// events is a wake-up at `ended_ms` plus the interval, or later. Since a
/// request starts before it ends, two requests start at least the interval
/// apart.
pub proof fn law_pause_between_requests(
    state: OrchestratorView,
    ended_ms: u64,
    outcome: Result<Seq<char>, CompletionError>,
    later: Seq<EventView>,
)
    requires
        state.phase == Phase::Invoking,
        ({
            let events = seq![EventView::Completed { now_ms: ended_ms, outcome }] + later;
            run(state, events).phase == Phase::Draining || run(state, events).phase
                == Phase::Invoking
        }),
    ensures
        exists|at: int|
            0 <= at < later.len() && wakes_from(
                #[trigger] later[at],
                ended_ms + state.gate.interval_ms,
            ),
{
    let events = seq![EventView::Completed { now_ms: ended_ms, outcome }] + later;
    let settled = after_completion(state, ended_ms, outcome).0;
    assert(events.drop_first() == later);
    assert(run(state, events) == run(settled, later));
    lemma_wake_precedes_request(settled, later);
}

/// The state of the relay loop of one channel.
#[derive(Debug)]
pub struct Orchestrator {
    phase: Phase,
    history: HistoryWindow,
    gate: RateGate,
    announcer: ErrorAnnouncer,
    model_name: String,
}

impl View for Orchestrator {
    type V = OrchestratorView;

    closed spec fn view(&self) -> OrchestratorView {
        OrchestratorView {
            phase: self.phase,
            history: self.history@,
            max_size: self.history.max_size(),
            min_size: self.history.min_size(),
            gate: self.gate,
            notice: self.announcer@,
            model: self.model_name@,
        }
    }
}

impl Orchestrator {
    /// The state of a loop that starts at `now_ms` with an empty history, and
    /// its first directive: to pause.
    pub fn start(config: &Configuration, now_ms: u64) -> (begun: (Orchestrator, Directive))
        ensures
            (begun.0@, begun.1@) == started(
                config@.model_name,
                config@.max_history_size as usize,
                config@.min_history_size as usize,
                now_ms,
            ),
            consistent(begun.0@),
    {
        let orchestrator = Orchestrator {
            phase: Phase::Pacing,
            history: HistoryWindow::new(
                config.max_history_size() as usize,
                config.min_history_size() as usize,
            ),
            gate: RateGate::new(now_ms, PACING_INTERVAL_MS),
            announcer: ErrorAnnouncer::new(),
            model_name: config.model_name().to_owned(),
        };
        let directive = orchestrator.sleep(None);
        (orchestrator, directive)
    }

    /// Where the loop stands.
    pub fn phase(&self) -> (phase: Phase)
        ensures
            phase == self@.phase,
    {
        self.phase
    }

    /// The conversation context.
    pub fn history(&self) -> (history: &HistoryWindow)
        ensures
            history@ == self@.history,
            history.max_size() == self@.max_size,
            history.min_size() == self@.min_size,
    {
        &self.history
    }

    /// When the last request ended, and the pause after it.
    pub fn gate(&self) -> (gate: RateGate)
        ensures
            gate == self@.gate,
    {
        self.gate
    }

    /// The error notice on show in the channel, if any.
    pub fn live_notice(&self) -> (id: Option<Id<MessageMarker>>)
        ensures
            id == self@.notice,
    {
        self.announcer.live()
    }

    fn sleep(&self, retire: Option<Id<MessageMarker>>) -> (directive: Directive)
        ensures
            directive@ == sleep_directive(self@, retire),
    {
        Directive {
            retire,
            action: Action::Sleep {
                since_ms: self.gate.last_completed_ms,
                interval_ms: self.gate.interval_ms,
            },
        }
    }

    fn wake(&mut self, now_ms: u64) -> (directive: Directive)
        ensures
            (final(self)@, directive@) == after_wake(old(self)@, now_ms),
    {
        if self.gate.is_open(now_ms) {
            self.phase = Phase::Draining;
            Directive { retire: None, action: Action::Drain { limit: self.history.max_size() } }
        } else {
            self.sleep(None)
        }
    }

    fn build(&mut self, prompt: String, batch: Vec<RoleTaggedMessage>) -> (directive: Directive)
        ensures
            (final(self)@, directive@) == after_batch(old(self)@, prompt@, message_views(batch@)),
    {
        self.history.append(batch);
        let mut messages: Vec<RoleTaggedMessage> = Vec::new();
        messages.push(RoleTaggedMessage::system(prompt));
        let mut entries = self.history.snapshot();
        proof {
            assert(message_views(messages@ + entries@) == message_views(messages@) + message_views(
                entries@,
            ));
            assert(message_views(messages@) == seq![messages@[0]@]);
        }
        messages.append(&mut entries);
        self.phase = Phase::Invoking;
        Directive {
            retire: None,
            action: Action::Invoke {
                model: self.model_name.clone(),
                token_budget: TOKEN_BUDGET,
                messages,
            },
        }
    }

    fn close(&mut self) -> (directive: Directive)
        ensures
            (final(self)@, directive@) == after_close(old(self)@),
    {
        let retire = self.announcer.retire();
        self.phase = Phase::ShuttingDown;
        Directive { retire, action: Action::Stop }
    }

    fn settle(&mut self, now_ms: u64, outcome: Result<String, CompletionError>) -> (directive:
        Directive)
        ensures
            (final(self)@, directive@) == after_completion(
                old(self)@,
                now_ms,
                match outcome {
                    Ok(text) => Ok(text@),
                    Err(error) => Err(error),
                },
            ),
    {
        self.gate.record_completion(now_ms);
        let retire = self.announcer.retire();
        match outcome {
            Err(error) => {
                self.phase = Phase::Reporting;
                Directive { retire, action: Action::PostNotice { text: notice_text(error) } }
            },
            Ok(text) => {
                let reply = truncate_reply(text);
                if declines_reply(reply.as_str()) {
                    self.phase = Phase::Pacing;
                    self.sleep(retire)
                } else {
                    self.history.push(RoleTaggedMessage::assistant(reply.clone()));
                    self.phase = Phase::Delivering;
                    Directive { retire, action: Action::Deliver { text: reply } }
                }
            },
        }
    }

    fn note_posted(&mut self, id: Option<Id<MessageMarker>>) -> (directive: Directive)
        ensures
            (final(self)@, directive@) == after_notice(old(self)@, id),
    {
        let retire = self.announcer.track(id);
        self.phase = Phase::Pacing;
        self.sleep(retire)
    }

    fn resume(&mut self) -> (directive: Directive)
        ensures
            (final(self)@, directive@) == after_delivery(old(self)@),
    {
        self.phase = Phase::Pacing;
        self.sleep(None)
    }

    /// Takes in what the outside work produced and decides what to do next.
    /// An event that the loop is not waiting for changes nothing and gets no
    /// directive.
    pub fn step(&mut self, event: Event) -> (directive: Option<Directive>)
        ensures
            match transition(old(self)@, event@) {
                Some((next, expected)) => final(self)@ == next && directive is Some
                    && directive->0@ == expected,
                None => final(self)@ == old(self)@ && directive is None,
            },
            consistent(old(self)@) ==> consistent(final(self)@),
    {
        match event {
            Event::Woke { now_ms } => {
                if self.phase == Phase::Pacing {
                    Some(self.wake(now_ms))
                } else {
                    None
                }
            },
            Event::Drained { prompt, batch } => {
                if self.phase == Phase::Draining {
                    if batch.len() == 0 {
                        Some(self.close())
                    } else {
                        Some(self.build(prompt, batch))
                    }
                } else {
                    None
                }
            },
            Event::QueueClosed => {
                if self.phase == Phase::Draining {
                    Some(self.close())
                } else {
                    None
                }
            },
            Event::Completed { now_ms, outcome } => {
                if self.phase == Phase::Invoking {
                    Some(self.settle(now_ms, outcome))
                } else {
                    None
                }
            },
            Event::NoticePosted { id } => {
                if self.phase == Phase::Reporting {
                    Some(self.note_posted(id))
                } else {
                    None
                }
            },
            Event::Delivered => {
                if self.phase == Phase::Delivering {
                    Some(self.resume())
                } else {
                    None
                }
            },
        }
    }
}

} // verus!
