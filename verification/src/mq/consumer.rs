//! The consumer of task messages: its sessions, the answers to deliveries, and reconnecting.

use vstd::arithmetic::power2;
use vstd::multiset::Multiset;
use vstd::pervasive::unreached;
use vstd::prelude::*;

use crate::config::{self, RabbitMqConfig};
use crate::error::AppError;
use crate::model::script::TaskMessage;
use crate::task::processor::{self, TaskActionView, TaskEventView};

verus! {

/// Why a session ended.
#[derive(Debug, Clone, Copy)]
pub enum ConsumeLoopExit {
    Shutdown,
    /// The session is to be set up anew, for this reason.
    Reconnect(&'static str),
}

/// The contents of a [`ConsumeLoopExit`].
#[verifier::ext_equal]
pub enum ExitView {
    Shutdown,
    Reconnect(Seq<char>),
}

impl View for ConsumeLoopExit {
    type V = ExitView;

    open spec fn view(&self) -> ExitView {
        match *self {
            ConsumeLoopExit::Shutdown => ExitView::Shutdown,
            ConsumeLoopExit::Reconnect(reason) => ExitView::Reconnect(reason@),
        }
    }
}

/// What a wait before reconnecting ended with.
#[derive(Debug, Clone, Copy, PartialEq, Eq, Structural)]
pub enum WaitEnd {
    /// The delay elapsed.
    Elapsed,
    /// The shutdown signal changed, to `shutdown`, or its sender is gone.
    SignalChanged { closed: bool, shutdown: bool },
}

/// What happened to a consumer outside its sessions.
#[derive(Debug)]
pub enum RunEvent {
    /// The shutdown signal was read.
    SignalRead { shutdown: bool },
    /// A session ended, or could not be set up.
    SessionEnded(Result<ConsumeLoopExit, AppError>),
    Waited(WaitEnd),
}

/// What a consumer does next outside its sessions.
#[derive(Debug, Clone, Copy, PartialEq, Eq, Structural)]
pub enum RunAction {
    ReadSignal,
    /// Set up a session, and consume until it ends.
    Connect,
    Wait { backoff_ms: u64 },
    Stop,
}

/// How often the initial delay is doubled for the given attempt.
pub open spec fn doublings(attempt: nat) -> nat {
    if attempt == 0 {
        0
    } else if attempt - 1 <= 16 {
        (attempt - 1) as nat
    } else {
        16
    }
}

/// The delay before reconnecting for the given time: the initial delay, doubled with each attempt
/// up to the seventeenth, and never above the longest delay.
pub open spec fn reconnect_delay_ms(c: RabbitMqConfig, attempt: nat) -> int {
    let delay = c.reconnect_initial_delay_ms * power2::pow2(doublings(attempt));
    if delay <= c.reconnect_max_delay_ms {
        delay
    } else {
        c.reconnect_max_delay_ms as int
    }
}

/// The attempt that follows a failed one; the count stays at its largest value.
pub open spec fn next_attempt(attempt: u32) -> u32 {
    if attempt < u32::MAX {
        (attempt + 1) as u32
    } else {
        attempt
    }
}

/// The attempt count and the action after an event.
pub open spec fn run_step(c: RabbitMqConfig, attempt: u32, event: RunEvent) -> (u32, RunAction) {
    match event {
        RunEvent::SignalRead { shutdown } => (
            attempt,
            if shutdown {
                RunAction::Stop
            } else {
                RunAction::Connect
            },
        ),
        RunEvent::SessionEnded(Ok(ConsumeLoopExit::Shutdown)) => (attempt, RunAction::Stop),
        RunEvent::SessionEnded(Ok(ConsumeLoopExit::Reconnect(_))) => (
            1,
            RunAction::Wait { backoff_ms: reconnect_delay_ms(c, 1) as u64 },
        ),
        RunEvent::SessionEnded(Err(_)) => (
            next_attempt(attempt),
            RunAction::Wait {
                backoff_ms: reconnect_delay_ms(c, next_attempt(attempt) as nat) as u64,
            },
        ),
        RunEvent::Waited(end) => (
            attempt,
            if goes_on(end) {
                RunAction::ReadSignal
            } else {
                RunAction::Stop
            },
        ),
    }
}

/// Whether a consumer goes on after a wait.
pub open spec fn goes_on(end: WaitEnd) -> bool {
    match end {
        WaitEnd::Elapsed => true,
        WaitEnd::SignalChanged { closed, shutdown } => !closed && !shutdown,
    }
}

/// How a delivery is answered.
#[derive(Debug, Clone, Copy, PartialEq, Eq, Structural)]
pub enum Settlement {
    Ack,
    Nack { requeue: bool },
}

/// How the delivery of a task that ended in this way is answered.
pub open spec fn settlement(ended_well: bool) -> Settlement {
    if ended_well {
        Settlement::Ack
    } else {
        Settlement::Nack { requeue: false }
    }
}

/// The answer to the delivery of a task that ended in this way: a task that failed is dropped, not
/// queued again.
pub fn settle(ended_well: bool) -> (r: Settlement)
    ensures
        r == settlement(ended_well),
{
    if ended_well {
        Settlement::Ack
    } else {
        Settlement::Nack { requeue: false }
    }
}

/// What a session is waiting for.
#[derive(Debug, Clone, Copy)]
pub enum SessionPhase {
    /// The next delivery, a change of the shutdown signal, or the end of a task.
    Listening,
    /// Leave to run the task of a delivery, or the end of a task.
    AwaitingPermit { tag: u64, message: TaskMessage },
    /// The end of the tasks that are running.
    Draining(ConsumeLoopExit),
    /// Nothing: the session has ended.
    Left(ConsumeLoopExit),
}

/// The contents of a [`SessionPhase`].
#[verifier::ext_equal]
pub enum PhaseView {
    Listening,
    AwaitingPermit { tag: u64, message: TaskMessage },
    Draining(ExitView),
    Left(ExitView),
}

impl View for SessionPhase {
    type V = PhaseView;

    open spec fn view(&self) -> PhaseView {
        match *self {
            SessionPhase::Listening => PhaseView::Listening,
            SessionPhase::AwaitingPermit { tag, message } => PhaseView::AwaitingPermit {
                tag,
                message,
            },
            SessionPhase::Draining(exit) => PhaseView::Draining(exit@),
            SessionPhase::Left(exit) => PhaseView::Left(exit@),
        }
    }
}

/// How far a session has come.
#[verifier::ext_equal]
pub struct SessionView {
    pub phase: PhaseView,
    /// The deliveries, by tag, whose tasks are running.
    pub running: Multiset<u64>,
    /// The most tasks that run at once.
    pub max_tasks: nat,
}

/// A session with the broker.
#[derive(Debug)]
pub struct Session {
    phase: SessionPhase,
    running: Vec<u64>,
    max_tasks: usize,
}

impl View for Session {
    type V = SessionView;

    closed spec fn view(&self) -> SessionView {
        SessionView {
            phase: self.phase@,
            running: self.running@.to_multiset(),
            max_tasks: self.max_tasks as nat,
        }
    }
}

/// What happened in a session.
#[derive(Debug, Clone, Copy, PartialEq, Eq, Structural)]
pub enum ConsumeEvent {
    /// The shutdown signal changed, to `shutdown`, or its sender is gone.
    SignalChanged { closed: bool, shutdown: bool },
    /// A delivery, with its message where the payload holds one.
    Delivered { tag: u64, message: Option<TaskMessage> },
    DeliveryFailed,
    StreamEnded,
    /// The task may run.
    PermitGranted,
    /// No task may run any more; `shutdown` is the shutdown signal at that time.
    PermitsClosed { shutdown: bool },
    /// The task of a delivery ended, well or not.
    TaskEnded { tag: u64, ended_well: bool },
    /// The task of a delivery was torn down without an outcome.
    TaskLost { tag: u64 },
}

/// What a session does next, before it waits for what its phase says.
#[derive(Debug, Clone, Copy, PartialEq, Eq, Structural)]
pub enum ConsumeAction {
    Nothing,
    /// Answer a delivery.
    Answer { tag: u64, settlement: Settlement },
    /// Run the task of a delivery beside the session.
    Spawn { tag: u64, message: TaskMessage },
}

/// A session at its beginning.
pub open spec fn session_start(max_tasks: nat) -> SessionView {
    SessionView { phase: PhaseView::Listening, running: Multiset::empty(), max_tasks }
}

/// What every session keeps: no more tasks run than may, and a session that has ended has none.
pub open spec fn session_wf(s: SessionView) -> bool {
    &&& s.running.len() <= s.max_tasks
    &&& s.phase is Left ==> s.running.len() == 0
    &&& s.phase is Draining ==> s.running.len() > 0
}

/// Whether an event can happen to a session. A permit can be granted only while fewer tasks run
/// than may, and only a task that is running can end.
pub open spec fn session_expects(s: SessionView, e: ConsumeEvent) -> bool {
    match e {
        ConsumeEvent::SignalChanged { .. } => s.phase is Listening,
        ConsumeEvent::Delivered { .. } => s.phase is Listening,
        ConsumeEvent::DeliveryFailed => s.phase is Listening,
        ConsumeEvent::StreamEnded => s.phase is Listening,
        ConsumeEvent::PermitGranted => s.phase is AwaitingPermit && s.running.len() < s.max_tasks,
        ConsumeEvent::PermitsClosed { .. } => s.phase is AwaitingPermit,
        ConsumeEvent::TaskEnded { tag, .. } => s.running.count(tag) > 0,
        ConsumeEvent::TaskLost { tag } => s.running.count(tag) > 0,
    }
}

/// A session that is to end: at once where no task is running, and otherwise once they all ended.
pub open spec fn session_leaving(s: SessionView, exit: ExitView) -> SessionView {
    SessionView {
        phase: if s.running.len() == 0 {
            PhaseView::Left(exit)
        } else {
            PhaseView::Draining(exit)
        },
        ..s
    }
}

/// A session without one of its running tasks.
pub open spec fn session_without(s: SessionView, tag: u64) -> SessionView {
    let rest = SessionView { running: s.running.remove(tag), ..s };
    match s.phase {
        PhaseView::Draining(exit) => session_leaving(rest, exit),
        _ => rest,
    }
}

/// A session after an event, and what it does then.
pub open spec fn session_step(s: SessionView, e: ConsumeEvent) -> (SessionView, ConsumeAction) {
    match e {
        ConsumeEvent::SignalChanged { closed, shutdown } => (
            if closed || shutdown {
                session_leaving(s, ExitView::Shutdown)
            } else {
                s
            },
            ConsumeAction::Nothing,
        ),
        ConsumeEvent::Delivered { tag, message: None } => (
            s,
            ConsumeAction::Answer { tag, settlement: settlement(false) },
        ),
        ConsumeEvent::Delivered { tag, message: Some(message) } => (
            SessionView { phase: PhaseView::AwaitingPermit { tag, message }, ..s },
            ConsumeAction::Nothing,
        ),
        ConsumeEvent::DeliveryFailed => (
            session_leaving(s, ExitView::Reconnect("delivery error"@)),
            ConsumeAction::Nothing,
        ),
        ConsumeEvent::StreamEnded => (
            session_leaving(s, ExitView::Reconnect("consumer stream closed"@)),
            ConsumeAction::Nothing,
        ),
        ConsumeEvent::PermitGranted => (
            SessionView {
                phase: PhaseView::Listening,
                running: s.running.insert(s.phase->AwaitingPermit_tag),
                ..s
            },
            ConsumeAction::Spawn {
                tag: s.phase->AwaitingPermit_tag,
                message: s.phase->AwaitingPermit_message,
            },
        ),
        ConsumeEvent::PermitsClosed { shutdown } => (
            session_leaving(
                s,
                if shutdown {
                    ExitView::Shutdown
                } else {
                    ExitView::Reconnect("task semaphore closed"@)
                },
            ),
            ConsumeAction::Nothing,
        ),
        ConsumeEvent::TaskEnded { tag, ended_well } => (
            session_without(s, tag),
            ConsumeAction::Answer { tag, settlement: settlement(ended_well) },
        ),
        ConsumeEvent::TaskLost { tag } => (session_without(s, tag), ConsumeAction::Nothing),
    }
}

impl ConsumeEvent {
    /// The end of the task of a delivery.
    pub fn task_ended(tag: u64, outcome: &Result<(), AppError>) -> (r: ConsumeEvent)
        ensures
            r == (ConsumeEvent::TaskEnded { tag, ended_well: outcome is Ok }),
    {
        ConsumeEvent::TaskEnded { tag, ended_well: outcome.is_ok() }
    }
}

impl Session {
    /// Begins a session in which at most `max_tasks` tasks run at once.
    pub fn start(max_tasks: usize) -> (r: Self)
        ensures
            r@ == session_start(max_tasks as nat),
            session_wf(r@),
    {
        let running: Vec<u64> = Vec::new();
        proof {
            running@.to_multiset_ensures();
            assert(running@.to_multiset() =~= Multiset::<u64>::empty());
        }
        Session { phase: SessionPhase::Listening, running, max_tasks }
    }

    /// What the session is waiting for.
    pub fn phase(&self) -> (r: SessionPhase)
        ensures
            r@ == self@.phase,
    {
        self.phase
    }

    /// How many tasks are running.
    pub fn running(&self) -> (r: usize)
        ensures
            r == self@.running.len(),
    {
        proof {
            self.running@.to_multiset_ensures();
        }
        self.running.len()
    }

    /// The place of a running task.
    fn find(&self, tag: u64) -> (r: Option<usize>)
        ensures
            match r {
                Some(i) => i < self.running@.len() && self.running@[i as int] == tag,
                None => self@.running.count(tag) == 0,
            },
            r is Some <==> self@.running.count(tag) > 0,
    {
        proof {
            self.running@.to_multiset_ensures();
        }
        let mut i: usize = 0;
        while i < self.running.len()
            invariant
                i <= self.running@.len(),
                forall|k: int| 0 <= k < i ==> self.running@[k] != tag,
                self.running@.contains(tag) <==> self.running@.to_multiset().count(tag) > 0,
            decreases self.running@.len() - i,
        {
            if self.running[i] == tag {
                assert(self.running@.contains(tag));
                return Some(i);
            }
            i += 1;
        }
        None
    }

    /// Whether an event can happen to the session.
    pub fn awaits(&self, event: ConsumeEvent) -> (r: bool)
        ensures
            r == session_expects(self@, event),
    {
        match event {
            ConsumeEvent::SignalChanged { .. }
            | ConsumeEvent::Delivered { .. }
            | ConsumeEvent::DeliveryFailed
            | ConsumeEvent::StreamEnded => matches!(self.phase, SessionPhase::Listening),
            ConsumeEvent::PermitGranted => matches!(
                self.phase,
                SessionPhase::AwaitingPermit { .. }
            ) && self.running() < self.max_tasks,
            ConsumeEvent::PermitsClosed { .. } => matches!(
                self.phase,
                SessionPhase::AwaitingPermit { .. }
            ),
            ConsumeEvent::TaskEnded { tag, .. } => self.find(tag).is_some(),
            ConsumeEvent::TaskLost { tag } => self.find(tag).is_some(),
        }
    }

    /// The session on its way out.
    fn leave(self, exit: ConsumeLoopExit) -> (r: Self)
        ensures
            r@ == session_leaving(self@, exit@),
    {
        let none: bool = self.running() == 0;
        Session {
            phase: if none {
                SessionPhase::Left(exit)
            } else {
                SessionPhase::Draining(exit)
            },
            running: self.running,
            max_tasks: self.max_tasks,
        }
    }

    /// The session without one of its running tasks.
    fn without(self, tag: u64) -> (r: Self)
        requires
            self@.running.count(tag) > 0,
        ensures
            r@ == session_without(self@, tag),
    {
        let at: Option<usize> = self.find(tag);
        let phase: SessionPhase = self.phase;
        let max_tasks: usize = self.max_tasks;
        let mut running: Vec<u64> = self.running;
        let ghost before = running@;
        proof {
            before.to_multiset_ensures();
        }
        if let Some(i) = at {
            running.remove(i);
            assert(running@ =~= before.remove(i as int));
        }
        let rest = Session { phase, running, max_tasks };
        match phase {
            SessionPhase::Draining(exit) => rest.leave(exit),
            _ => rest,
        }
    }
}

/// A consumer of task messages.
#[derive(Debug, Clone)]
pub struct MqConsumer {
    pub config: RabbitMqConfig,
    /// How many times in a row no session could be set up, or one where the last session ended.
    pub reconnect_attempt: u32,
}

impl MqConsumer {
    pub fn new(config: RabbitMqConfig) -> (r: Self)
        ensures
            r.config == config,
            r.reconnect_attempt == 0,
    {
        MqConsumer { config, reconnect_attempt: 0 }
    }

    /// Takes what happened outside a session, and says what is to be done next.
    pub fn run(&mut self, event: RunEvent) -> (r: RunAction)
        ensures
            final(self).config == old(self).config,
            (final(self).reconnect_attempt, r) == run_step(
                old(self).config,
                old(self).reconnect_attempt,
                event,
            ),
    {
        match event {
            RunEvent::SignalRead { shutdown } => if shutdown {
                RunAction::Stop
            } else {
                RunAction::Connect
            },
            RunEvent::SessionEnded(Ok(ConsumeLoopExit::Shutdown)) => RunAction::Stop,
            RunEvent::SessionEnded(Ok(ConsumeLoopExit::Reconnect(_))) => {
                self.reconnect_attempt = 1;
                RunAction::Wait { backoff_ms: self.reconnect_backoff(1) }
            },
            RunEvent::SessionEnded(Err(_)) => {
                let attempt: u32 = self.reconnect_attempt.saturating_add(1);
                self.reconnect_attempt = attempt;
                RunAction::Wait { backoff_ms: self.reconnect_backoff(attempt) }
            },
            RunEvent::Waited(end) => if Self::wait_before_reconnect(end) {
                RunAction::ReadSignal
            } else {
                RunAction::Stop
            },
        }
    }

    /// The delay before reconnecting for the given time, in milliseconds.
    pub fn reconnect_backoff(&self, attempt: u32) -> (r: u64)
        ensures
            r == reconnect_delay_ms(self.config, attempt as nat),
    {
        let before: u32 = attempt.saturating_sub(1);
        let shift: u32 = if before <= 16 {
            before
        } else {
            16
        };
        let wide: u64 = shift as u64;
        proof {
            power2::lemma2_to64();
            if wide < 16 {
                power2::lemma_pow2_strictly_increases(wide as nat, 16);
            }
            assert(1 * power2::pow2(wide as nat) <= u64::MAX);
            vstd::bits::lemma_u64_shl_is_mul(1, wide);
        }
        let factor: u64 = 1u64 << wide;
        assert(factor == power2::pow2(wide as nat));
        match self.config.reconnect_initial_delay_ms.checked_mul(factor) {
            Some(delay) => if delay <= self.config.reconnect_max_delay_ms {
                delay
            } else {
                self.config.reconnect_max_delay_ms
            },
            None => self.config.reconnect_max_delay_ms,
        }
    }

    /// Whether the consumer goes on after a wait.
    pub fn wait_before_reconnect(end: WaitEnd) -> (r: bool)
        ensures
            r == goes_on(end),
    {
        match end {
            WaitEnd::Elapsed => true,
            WaitEnd::SignalChanged { closed, shutdown } => !(closed || shutdown),
        }
    }

    /// Takes what happened in a session, and says what is to be done next.
    pub fn consume_loop(session: Session, event: ConsumeEvent) -> (r: (Session, ConsumeAction))
        requires
            session_wf(session@),
            session_expects(session@, event),
        ensures
            (r.0@, r.1) == session_step(session@, event),
            session_wf(r.0@),
    {
        match event {
            ConsumeEvent::SignalChanged { closed, shutdown } => if closed || shutdown {
                (session.leave(ConsumeLoopExit::Shutdown), ConsumeAction::Nothing)
            } else {
                (session, ConsumeAction::Nothing)
            },
            ConsumeEvent::Delivered { tag, message: None } => (
                session,
                ConsumeAction::Answer { tag, settlement: settle(false) },
            ),
            ConsumeEvent::Delivered { tag, message: Some(message) } => (
                Session { phase: SessionPhase::AwaitingPermit { tag, message }, ..session },
                ConsumeAction::Nothing,
            ),
            ConsumeEvent::DeliveryFailed => (
                session.leave(ConsumeLoopExit::Reconnect("delivery error")),
                ConsumeAction::Nothing,
            ),
            ConsumeEvent::StreamEnded => (
                session.leave(ConsumeLoopExit::Reconnect("consumer stream closed")),
                ConsumeAction::Nothing,
            ),
            ConsumeEvent::PermitGranted => match session.phase {
                SessionPhase::AwaitingPermit { tag, message } => {
                    let max_tasks: usize = session.max_tasks;
                    let mut running: Vec<u64> = session.running;
                    proof {
                        running@.to_multiset_ensures();
                    }
                    running.push(tag);
                    (
                        Session { phase: SessionPhase::Listening, running, max_tasks },
                        ConsumeAction::Spawn { tag, message },
                    )
                },
                _ => unreached(),
            },
            ConsumeEvent::PermitsClosed { shutdown } => (
                session.leave(
                    if shutdown {
                        ConsumeLoopExit::Shutdown
                    } else {
                        ConsumeLoopExit::Reconnect("task semaphore closed")
                    },
                ),
                ConsumeAction::Nothing,
            ),
            ConsumeEvent::TaskEnded { tag, ended_well } => (
                session.without(tag),
                ConsumeAction::Answer { tag, settlement: settle(ended_well) },
            ),
            ConsumeEvent::TaskLost { tag } => (session.without(tag), ConsumeAction::Nothing),
        }
    }
}

/// The delay before reconnecting never shrinks from one attempt to the next, and never exceeds the
/// longest delay. With settings that keep their rules it starts with the initial delay and never
/// falls below it.
pub proof fn reconnect_delays_grow(c: RabbitMqConfig, a: nat, b: nat)
    requires
        a <= b,
    ensures
        reconnect_delay_ms(c, a) <= reconnect_delay_ms(c, b) <= c.reconnect_max_delay_ms,
        config::rabbitmq_valid(c) ==> reconnect_delay_ms(c, 1) == c.reconnect_initial_delay_ms
            && c.reconnect_initial_delay_ms <= reconnect_delay_ms(c, a),
{
    let first = c.reconnect_initial_delay_ms as int;
    let x = power2::pow2(doublings(a)) as int;
    let y = power2::pow2(doublings(b)) as int;
    power2::lemma2_to64();
    if doublings(a) < doublings(b) {
        power2::lemma_pow2_strictly_increases(doublings(a), doublings(b));
    }
    if doublings(a) > 0 {
        power2::lemma_pow2_strictly_increases(0, doublings(a));
    }
    assert(first * 1 == first);
    assert(first <= first * x <= first * y) by (nonlinear_arith)
        requires
            0 <= first,
            1 <= x <= y,
    ;
}

/// Each delay before reconnecting is twice the one before, up to the seventeenth attempt, unless
/// that is more than the longest delay.
pub proof fn reconnect_delays_double(c: RabbitMqConfig, a: nat)
    requires
        1 <= a < 17,
    ensures
        reconnect_delay_ms(c, a + 1) == if 2 * reconnect_delay_ms(c, a)
            <= c.reconnect_max_delay_ms {
            2 * reconnect_delay_ms(c, a)
        } else {
            c.reconnect_max_delay_ms as int
        },
{
    let first = c.reconnect_initial_delay_ms as int;
    let x = power2::pow2(doublings(a)) as int;
    let y = power2::pow2(doublings(a + 1)) as int;
    power2::lemma_pow2_unfold(doublings(a + 1));
    assert(y == 2 * x);
    assert(first * y == 2 * (first * x)) by (nonlinear_arith)
        requires
            y == 2 * x,
    ;
    assert(first * x >= 0) by (nonlinear_arith)
        requires
            first >= 0,
            x >= 0,
    ;
}

/// A consumer stops only at shutdown: where its signal says so before a session, during one or
/// during a wait, or where the sender of the signal is gone. Otherwise it goes on.
pub proof fn consumer_stops_only_at_shutdown(c: RabbitMqConfig, attempt: u32, event: RunEvent)
    ensures
        run_step(c, attempt, event).1 is Stop <==> match event {
            RunEvent::SignalRead { shutdown } => shutdown,
            RunEvent::SessionEnded(r) => r matches Ok(exit) && exit is Shutdown,
            RunEvent::Waited(end) => end matches WaitEnd::SignalChanged { closed, shutdown } && (
            closed || shutdown),
        },
{
}

/// After a session that was under way, a consumer waits for the initial delay, however often it
/// failed before.
pub proof fn reconnecting_starts_over_after_a_session(
    c: RabbitMqConfig,
    attempt: u32,
    reason: &'static str,
)
    requires
        config::rabbitmq_valid(c),
    ensures
        run_step(c, attempt, RunEvent::SessionEnded(Ok(ConsumeLoopExit::Reconnect(reason)))) == (
            1u32,
            RunAction::Wait { backoff_ms: c.reconnect_initial_delay_ms },
        ),
{
    reconnect_delays_grow(c, 1, 1);
}

/// A session after events, and what it did at each; none where one cannot have happened.
pub open spec fn session_run(s: SessionView, events: Seq<ConsumeEvent>) -> Option<
    (SessionView, Seq<ConsumeAction>),
>
    decreases events.len(),
{
    if events.len() == 0 {
        Some((s, Seq::empty()))
    } else if !session_expects(s, events[0]) {
        None
    } else {
        let (next, action) = session_step(s, events[0]);
        match session_run(next, events.drop_first()) {
            Some((last, actions)) => Some((last, seq![action] + actions)),
            None => None,
        }
    }
}

/// How often a delivery is answered.
pub open spec fn answers(actions: Seq<ConsumeAction>, tag: u64) -> nat
    decreases actions.len(),
{
    if actions.len() == 0 {
        0
    } else {
        answers(actions.drop_first(), tag) + match actions[0] {
            ConsumeAction::Answer { tag: t, .. } if t == tag => 1nat,
            _ => 0nat,
        }
    }
}

/// How often the task of a delivery is run, whatever its message.
pub open spec fn spawns(actions: Seq<ConsumeAction>, tag: u64) -> nat
    decreases actions.len(),
{
    if actions.len() == 0 {
        0
    } else {
        spawns(actions.drop_first(), tag) + match actions[0] {
            ConsumeAction::Spawn { tag: t, .. } if t == tag => 1nat,
            _ => 0nat,
        }
    }
}

/// How often the task of a delivery is run with this message.
pub open spec fn spawns_with(actions: Seq<ConsumeAction>, tag: u64, message: TaskMessage) -> nat
    decreases actions.len(),
{
    if actions.len() == 0 {
        0
    } else {
        spawns_with(actions.drop_first(), tag, message) + if actions[0] == (ConsumeAction::Spawn {
            tag,
            message,
        }) {
            1nat
        } else {
            0nat
        }
    }
}

/// How often an event happens.
pub open spec fn happens(events: Seq<ConsumeEvent>, e: ConsumeEvent) -> nat
    decreases events.len(),
{
    if events.len() == 0 {
        0
    } else {
        happens(events.drop_first(), e) + if events[0] == e {
            1nat
        } else {
            0nat
        }
    }
}

proof fn session_step_keeps_wf(s: SessionView, e: ConsumeEvent)
    requires
        session_wf(s),
        session_expects(s, e),
    ensures
        session_wf(session_step(s, e).0),
        session_step(s, e).0.max_tasks == s.max_tasks,
{
}

proof fn answers_balance(s: SessionView, events: Seq<ConsumeEvent>, tag: u64)
    requires
        session_wf(s),
        session_run(s, events) is Some,
    ensures
        ({
            let (end, actions) = session_run(s, events)->0;
            &&& session_wf(end)
            &&& end.max_tasks == s.max_tasks
            &&& answers(actions, tag) + happens(events, ConsumeEvent::TaskLost { tag })
                + end.running.count(tag) == spawns(actions, tag) + happens(
                events,
                ConsumeEvent::Delivered { tag, message: None },
            ) + s.running.count(tag)
        }),
    decreases events.len(),
{
    if events.len() > 0 {
        let (next, action) = session_step(s, events[0]);
        let (end, actions) = session_run(s, events)->0;
        let (_, later) = session_run(next, events.drop_first())->0;
        session_step_keeps_wf(s, events[0]);
        answers_balance(next, events.drop_first(), tag);
        assert(actions.drop_first() =~= later);
        assert(actions[0] == action);
    }
}

/// In a session in which at most `max_tasks` tasks may run, never more run at once, and it ends only
/// once all its tasks have ended.
pub proof fn sessions_bound_and_drain_their_tasks(max_tasks: nat, events: Seq<ConsumeEvent>)
    requires
        session_run(session_start(max_tasks), events) is Some,
    ensures
        ({
            let end = (session_run(session_start(max_tasks), events)->0).0;
            &&& end.running.len() <= max_tasks
            &&& end.phase is Left ==> end.running == Multiset::<u64>::empty()
        }),
{
    answers_balance(session_start(max_tasks), events, 0);
    let end = (session_run(session_start(max_tasks), events)->0).0;
    if end.phase is Left {
        assert(end.running =~= Multiset::<u64>::empty()) by {
            vstd::multiset::lemma_multiset_empty_len(end.running);
        }
    }
}

/// Each task that is run is answered once under the tag of its delivery, after it ended, unless it
/// was torn down without an outcome. At any time the answers under a tag, the losses and the tasks
/// still running make up the tasks run and the deliveries without a message; where the session has
/// ended, none is still running.
pub proof fn each_task_is_answered_once(max_tasks: nat, events: Seq<ConsumeEvent>, tag: u64)
    requires
        session_run(session_start(max_tasks), events) is Some,
    ensures
        ({
            let (end, actions) = session_run(session_start(max_tasks), events)->0;
            let lost = happens(events, ConsumeEvent::TaskLost { tag });
            let dropped = happens(events, ConsumeEvent::Delivered { tag, message: None });
            &&& answers(actions, tag) + lost + end.running.count(tag) == spawns(actions, tag)
                + dropped
            &&& end.phase is Left ==> answers(actions, tag) + lost == spawns(actions, tag)
                + dropped
        }),
{
    answers_balance(session_start(max_tasks), events, tag);
    sessions_bound_and_drain_their_tasks(max_tasks, events);
}

/// A delivery is answered in two ways only: one without a message is dropped at once, and one whose
/// task has ended is acknowledged where that ended well and dropped where it did not.
pub proof fn answers_say_how_the_task_ended(s: SessionView, e: ConsumeEvent, tag: u64, a: Settlement)
    requires
        session_expects(s, e),
    ensures
        session_step(s, e).1 == (ConsumeAction::Answer { tag, settlement: a }) <==> match e {
            ConsumeEvent::Delivered { tag: t, message: None } => t == tag && a
                == (Settlement::Nack { requeue: false }),
            ConsumeEvent::TaskEnded { tag: t, ended_well } => t == tag && a == (if ended_well {
                Settlement::Ack
            } else {
                Settlement::Nack { requeue: false }
            }),
            _ => false,
        },
{
}

/// Whether this delivery is waiting for leave to run: one or none.
pub open spec fn pending(s: SessionView, tag: u64, message: TaskMessage) -> nat {
    if s.phase == (PhaseView::AwaitingPermit { tag, message }) {
        1
    } else {
        0
    }
}

proof fn deliveries_balance(
    s: SessionView,
    events: Seq<ConsumeEvent>,
    tag: u64,
    message: TaskMessage,
)
    requires
        session_wf(s),
        session_run(s, events) is Some,
    ensures
        ({
            let (end, actions) = session_run(s, events)->0;
            let come = happens(events, ConsumeEvent::Delivered { tag, message: Some(message) })
                + pending(s, tag, message);
            let run = spawns_with(actions, tag, message);
            &&& run <= come <= run + 1
            &&& end.phase is Listening || end.phase is AwaitingPermit ==> come == run + pending(
                end,
                tag,
                message,
            )
        }),
    decreases events.len(),
{
    if events.len() > 0 {
        let (next, action) = session_step(s, events[0]);
        let (end, actions) = session_run(s, events)->0;
        let (_, later) = session_run(next, events.drop_first())->0;
        session_step_keeps_wf(s, events[0]);
        deliveries_balance(next, events.drop_first(), tag, message);
        assert(actions.drop_first() =~= later);
        assert(actions[0] == action);
        if next.phase is Draining || next.phase is Left {
            nothing_comes_after_leaving(next, events.drop_first(), tag, message);
        }
    }
}

proof fn nothing_comes_after_leaving(
    s: SessionView,
    events: Seq<ConsumeEvent>,
    tag: u64,
    message: TaskMessage,
)
    requires
        session_wf(s),
        s.phase is Draining || s.phase is Left,
        session_run(s, events) is Some,
    ensures
        happens(events, ConsumeEvent::Delivered { tag, message: Some(message) }) == 0,
        spawns_with((session_run(s, events)->0).1, tag, message) == 0,
        ({
            let end = (session_run(s, events)->0).0;
            end.phase is Draining || end.phase is Left
        }),
    decreases events.len(),
{
    if events.len() > 0 {
        let (next, action) = session_step(s, events[0]);
        let (_, actions) = session_run(s, events)->0;
        let (_, later) = session_run(next, events.drop_first())->0;
        session_step_keeps_wf(s, events[0]);
        nothing_comes_after_leaving(next, events.drop_first(), tag, message);
        assert(actions.drop_first() =~= later);
        assert(actions[0] == action);
    }
}

/// Each delivery with a message is run once, as that task under its own tag, as soon as it may;
/// only the one that waits for leave when the session ends is not run. Nothing is run that was not
/// delivered.
pub proof fn each_delivery_is_run_once(
    max_tasks: nat,
    events: Seq<ConsumeEvent>,
    tag: u64,
    message: TaskMessage,
)
    requires
        session_run(session_start(max_tasks), events) is Some,
    ensures
        ({
            let (end, actions) = session_run(session_start(max_tasks), events)->0;
            let come = happens(events, ConsumeEvent::Delivered { tag, message: Some(message) });
            let run = spawns_with(actions, tag, message);
            &&& run <= come <= run + 1
            &&& end.phase is Listening || end.phase is AwaitingPermit ==> come == run + pending(
                end,
                tag,
                message,
            )
        }),
{
    deliveries_balance(session_start(max_tasks), events, tag, message);
}

/// A delivery is acknowledged only where its task's records were all written and its completion
/// was published.
pub proof fn acknowledged_tasks_were_written_and_published(
    task_id: i64,
    events: Seq<TaskEventView>,
)
    requires
        processor::task_run(processor::task_start(task_id), events) matches Some((_, actions))
            && actions.len() > 0 && (actions.last() matches TaskActionView::Finish(outcome)
            && settlement(outcome is Ok) is Ack),
    ensures
        ({
            let n = events.len() - 2;
            let actions = (processor::task_run(processor::task_start(task_id), events)->0).1;
            &&& n > 1
            &&& actions[n - 1] is WritePrompts
            &&& events[n] matches TaskEventView::PromptsWritten(Ok(_))
            &&& actions[n] == (TaskActionView::PublishCompletion { task_id })
            &&& events[n + 1] matches TaskEventView::CompletionPublished(Ok(_))
        }),
{
    processor::completed_task_wrote_all_its_records(task_id, events);
}

/// The first delay before reconnecting is the initial delay, unless that is more than the longest
/// delay. From the seventeenth attempt on, the delays are all the same.
pub proof fn reconnect_delays_begin_and_settle(c: RabbitMqConfig, a: nat)
    ensures
        reconnect_delay_ms(c, 1) == if c.reconnect_initial_delay_ms <= c.reconnect_max_delay_ms {
            c.reconnect_initial_delay_ms as int
        } else {
            c.reconnect_max_delay_ms as int
        },
        reconnect_delay_ms(c, 0) == reconnect_delay_ms(c, 1),
        a >= 17 ==> reconnect_delay_ms(c, a) == reconnect_delay_ms(c, 17),
{
    power2::lemma2_to64();
    assert(c.reconnect_initial_delay_ms * 1 == c.reconnect_initial_delay_ms);
}

/// The seventeenth delay is the initial delay 65536 times over, unless that is more than the longest
/// delay.
pub proof fn last_reconnect_delay(c: RabbitMqConfig)
    ensures
        reconnect_delay_ms(c, 17) == if c.reconnect_initial_delay_ms * 65536
            <= c.reconnect_max_delay_ms {
            c.reconnect_initial_delay_ms * 65536
        } else {
            c.reconnect_max_delay_ms as int
        },
{
    power2::lemma2_to64();
}

/// A consumer connects where no shutdown was signalled. It counts the attempts to set up a session
/// that failed one after the other, from one after a session that was under way, and waits for the
/// delay of that count before the next. After the wait it reads the signal again.
pub proof fn consumers_wait_for_the_delay_of_their_attempt(
    c: RabbitMqConfig,
    attempt: u32,
    event: RunEvent,
)
    ensures
        ({
            let (next, action) = run_step(c, attempt, event);
            let delay = reconnect_delay_ms(c, next as nat);
            &&& event matches RunEvent::SignalRead { shutdown } ==> next == attempt && action == (
            if shutdown {
                RunAction::Stop
            } else {
                RunAction::Connect
            })
            &&& event matches RunEvent::SessionEnded(Ok(exit)) ==> {
                &&& exit is Shutdown ==> next == attempt && action is Stop
                &&& exit is Reconnect ==> next == 1 && action == (RunAction::Wait {
                    backoff_ms: delay as u64,
                })
            }
            &&& event matches RunEvent::SessionEnded(Err(_)) ==> {
                &&& attempt < u32::MAX ==> next == attempt + 1
                &&& attempt == u32::MAX ==> next == u32::MAX
                &&& action == (RunAction::Wait { backoff_ms: delay as u64 })
            }
            &&& event matches RunEvent::Waited(end) ==> {
                &&& next == attempt
                &&& end is Elapsed ==> action is ReadSignal
                &&& end matches WaitEnd::SignalChanged { closed, shutdown } ==> action == (
                if closed || shutdown {
                    RunAction::Stop
                } else {
                    RunAction::ReadSignal
                })
            }
            &&& 0 <= delay <= u64::MAX
        }),
{
    let next = run_step(c, attempt, event).0;
    let first = c.reconnect_initial_delay_ms as int;
    let factor = power2::pow2(doublings(next as nat)) as int;
    assert(first * factor >= 0) by (nonlinear_arith)
        requires
            first >= 0,
            factor >= 0,
    ;
}

/// A session listens for deliveries and its signal, except while a delivery waits for leave to run
/// or the session is on its way out. A task may be let run while fewer run than may, and one that is
/// running may end at any time.
pub proof fn sessions_await_what_can_happen(s: SessionView, e: ConsumeEvent)
    ensures
        e is SignalChanged || e is Delivered || e is DeliveryFailed || e is StreamEnded ==> (
        session_expects(s, e) <==> s.phase is Listening),
        e is PermitGranted ==> (session_expects(s, e) <==> s.phase is AwaitingPermit
            && s.running.len() < s.max_tasks),
        e is PermitsClosed ==> (session_expects(s, e) <==> s.phase is AwaitingPermit),
        e matches ConsumeEvent::TaskEnded { tag, .. } ==> (session_expects(s, e)
            <==> s.running.contains(tag)),
        e matches ConsumeEvent::TaskLost { tag } ==> (session_expects(s, e) <==> s.running.contains(
            tag,
        )),
{
}

/// A session begins by listening, with no task running.
pub proof fn sessions_begin_by_listening(max_tasks: nat)
    ensures
        session_start(max_tasks).phase is Listening,
        session_start(max_tasks).running.len() == 0,
        session_start(max_tasks).max_tasks == max_tasks,
{
}

/// A session goes out where shutdown is signalled, where its deliveries fail or end, and where no
/// task may run any more. It says which: `Draining` while tasks are running, and `Left` once there
/// are none. Nothing else makes it leave.
pub proof fn sessions_say_why_they_leave(s: SessionView, e: ConsumeEvent)
    requires
        session_wf(s),
        session_expects(s, e),
    ensures
        ({
            let next = session_step(s, e).0;
            let exit = match e {
                ConsumeEvent::SignalChanged { closed, shutdown } => if closed || shutdown {
                    Some(ExitView::Shutdown)
                } else {
                    None
                },
                ConsumeEvent::DeliveryFailed => Some(ExitView::Reconnect("delivery error"@)),
                ConsumeEvent::StreamEnded => Some(ExitView::Reconnect("consumer stream closed"@)),
                ConsumeEvent::PermitsClosed { shutdown: true } => Some(ExitView::Shutdown),
                ConsumeEvent::PermitsClosed { shutdown: false } => Some(
                    ExitView::Reconnect("task semaphore closed"@),
                ),
                _ => match s.phase {
                    PhaseView::Draining(exit) => Some(exit),
                    _ => None,
                },
            };
            &&& exit matches Some(x) ==> next.phase == (if next.running.len() == 0 {
                PhaseView::Left(x)
            } else {
                PhaseView::Draining(x)
            })
            &&& exit is None ==> !(next.phase is Draining) && !(next.phase is Left)
        }),
{
}

/// A delivery with a message waits for leave to run, and is run once it has that; one without a
/// message is dropped, and the session listens on. A task that ended is no longer running; where it
/// had an outcome, its delivery is answered. What runs changes in no other way.
pub proof fn sessions_keep_count_of_their_tasks(s: SessionView, e: ConsumeEvent)
    requires
        session_wf(s),
        session_expects(s, e),
    ensures
        ({
            let (next, action) = session_step(s, e);
            &&& next.max_tasks == s.max_tasks
            &&& e matches ConsumeEvent::Delivered { tag, message: Some(message) } ==> {
                &&& next.phase == (PhaseView::AwaitingPermit { tag, message })
                &&& next.running == s.running
                &&& action is Nothing
            }
            &&& e matches ConsumeEvent::Delivered { tag, message: None } ==> {
                &&& next == s
                &&& action == (ConsumeAction::Answer {
                    tag,
                    settlement: Settlement::Nack { requeue: false },
                })
            }
            &&& e is PermitGranted ==> {
                &&& s.phase matches PhaseView::AwaitingPermit { tag, message } && {
                    &&& action == (ConsumeAction::Spawn { tag, message })
                    &&& next.running == s.running.insert(tag)
                    &&& next.phase is Listening
                }
            }
            &&& e matches ConsumeEvent::TaskEnded { tag, ended_well } ==> {
                &&& next.running == s.running.remove(tag)
                &&& action == (ConsumeAction::Answer {
                    tag,
                    settlement: if ended_well {
                        Settlement::Ack
                    } else {
                        Settlement::Nack { requeue: false }
                    },
                })
                &&& !(s.phase is Draining) ==> next.phase == s.phase
            }
            &&& e matches ConsumeEvent::TaskLost { tag } ==> {
                &&& next.running == s.running.remove(tag)
                &&& action is Nothing
                &&& !(s.phase is Draining) ==> next.phase == s.phase
            }
            &&& e is SignalChanged || e is DeliveryFailed || e is StreamEnded || e
                is PermitsClosed ==> next.running == s.running && action is Nothing
            &&& e matches ConsumeEvent::SignalChanged { closed: false, shutdown: false } ==> next
                == s
        }),
{
}

/// The delivery of a task that ended well is acknowledged, that of another is dropped for good.
pub proof fn failed_tasks_are_not_queued_again(ended_well: bool)
    ensures
        settlement(ended_well) is Ack <==> ended_well,
        !ended_well ==> settlement(ended_well) == (Settlement::Nack { requeue: false }),
{
}

/// The contents of an end are its kind, and its reason where it has one.
pub proof fn exit_contents(exit: ConsumeLoopExit)
    ensures
        exit is Shutdown <==> exit@ is Shutdown,
        exit matches ConsumeLoopExit::Reconnect(reason) ==> exit@ == ExitView::Reconnect(reason@),
{
}

/// The contents of a phase are what it waits for.
pub proof fn phase_contents(phase: SessionPhase)
    ensures
        phase is Listening <==> phase@ is Listening,
        phase matches SessionPhase::AwaitingPermit { tag, message } ==> phase@
            == (PhaseView::AwaitingPermit { tag, message }),
        phase matches SessionPhase::Draining(exit) ==> phase@ == PhaseView::Draining(exit@),
        phase matches SessionPhase::Left(exit) ==> phase@ == PhaseView::Left(exit@),
{
}

} // verus!
