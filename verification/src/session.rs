//! A program run as a state machine: the session hands out one action at a
//! time, and its caller carries the action out and reports how it went.

use vstd::prelude::*;
use vstd::utf8::{decode_utf8, valid_utf8};
use crate::amqp::{
    Action, Command, Delivery, DeliveryHandling, ExchangeKind, ExchangeOptions, Fault, OnError, Operation, Outcome,
    QueueOptions, QueueRef, Step,
};
use crate::text::{decode_body, format_received, received_line};

verus! {

/// Where a session stands.
#[derive(Clone, Debug, PartialEq, Eq)]
pub enum Phase<S, B> {
    /// Not started.
    Ready,
    /// Waiting for the outcome of the step before `next`.
    Script,
    /// Waiting for a delivery.
    Receiving,
    /// Waiting for the outcome of an acknowledgement; `pending` holds the
    /// routing key and body of a message to print once it succeeds.
    Acking { pending: Option<(S, B)> },
    /// Waiting for the outcome of printing a received message.
    Printing,
    /// The program is over.
    Finished,
    /// The program stopped with a panic.
    Failed,
}

impl View for Phase<String, Vec<u8>> {
    type V = Phase<Seq<char>, Seq<u8>>;

    open spec fn view(&self) -> Phase<Seq<char>, Seq<u8>> {
        match self {
            Phase::Ready => Phase::Ready,
            Phase::Script => Phase::Script,
            Phase::Receiving => Phase::Receiving,
            Phase::Acking { pending } => Phase::Acking {
                pending: match pending {
                    Some((routing_key, data)) => Some((routing_key@, data@)),
                    None => None,
                },
            },
            Phase::Printing => Phase::Printing,
            Phase::Finished => Phase::Finished,
            Phase::Failed => Phase::Failed,
        }
    }
}

/// The state of a session as the contracts see it.
pub struct SessionView {
    /// The program.
    pub steps: Seq<Step<Seq<char>>>,
    /// The index of the next step to hand out.
    pub next: nat,
    /// The name of the last queue declared, as the broker reported it.
    pub queue: Option<Seq<char>>,
    /// How deliveries are handled, once a consumer was started.
    pub handling: Option<DeliveryHandling<Seq<char>>>,
    pub phase: Phase<Seq<char>, Seq<u8>>,
}

impl SessionView {
    /// The invariant of a session.
    pub open spec fn wf(self) -> bool {
        &&& self.next <= self.steps.len()
        &&& self.phase is Script ==> self.next >= 1
        &&& (self.phase is Receiving || self.phase is Acking || self.phase is Printing)
            ==> self.handling is Some
    }

    /// The session waits for the outcome of a command.
    pub open spec fn awaits_outcome(self) -> bool {
        self.phase is Script || self.phase is Acking || self.phase is Printing
    }

    /// The session waits for a delivery.
    pub open spec fn awaits_delivery(self) -> bool {
        self.phase is Receiving
    }

    /// The session is over, normally or with a panic.
    pub open spec fn is_over(self) -> bool {
        self.phase is Finished || self.phase is Failed
    }

    pub open spec fn with_phase(self, phase: Phase<Seq<char>, Seq<u8>>) -> SessionView {
        SessionView { phase, ..self }
    }
}

/// The text view of an optional string.
pub open spec fn text_option(s: Option<String>) -> Option<Seq<char>> {
    match s {
        Some(t) => Some(t@),
        None => None,
    }
}

/// The name of the queue that `queue` refers to, given the name of the last
/// declared queue; with no declared queue it is the empty name, which AMQP
/// reads as the last queue declared on the channel.
pub open spec fn resolve_queue(queue: QueueRef<Seq<char>>, declared: Option<Seq<char>>) -> Seq<char> {
    match queue {
        QueueRef::Named(name) => name,
        QueueRef::Declared => match declared {
            Some(name) => name,
            None => Seq::empty(),
        },
    }
}

/// The command that carries out `op` (any operation but `Fail`).
pub open spec fn command_for(op: Operation<Seq<char>>, declared: Option<Seq<char>>) -> Command<Seq<char>> {
    match op {
        Operation::Connect { address } => Command::Connect { address },
        Operation::CreateChannel => Command::CreateChannel,
        Operation::DeclareQueue { queue, options } => Command::DeclareQueue { queue, options },
        Operation::DeclareExchange { exchange, kind, options } =>
            Command::DeclareExchange { exchange, kind, options },
        Operation::BindQueue { queue, exchange, routing_key } =>
            Command::BindQueue { queue: resolve_queue(queue, declared), exchange, routing_key },
        Operation::Publish { exchange, routing_key, message, persistent } =>
            Command::Publish { exchange, routing_key, message, persistent },
        Operation::Consume { queue, consumer_tag, handling } =>
            Command::Consume { queue: resolve_queue(queue, declared), consumer_tag },
        Operation::Print { line } => Command::Print { line },
        Operation::Fail { fault } => Command::Print { line: Seq::empty() },
    }
}

/// A session about to run `steps`.
pub open spec fn initial_session(steps: Seq<Step<Seq<char>>>) -> SessionView {
    SessionView { steps, next: 0, queue: None, handling: None, phase: Phase::Ready }
}

/// Hands out the next step: its command, or its panic for a `Fail` step;
/// once the program is through, waits for deliveries if a consumer was
/// started, and finishes otherwise.
pub open spec fn issue_step(s: SessionView) -> (SessionView, Action<Seq<char>>) {
    if s.next >= s.steps.len() {
        if s.handling is Some {
            (s.with_phase(Phase::Receiving), Action::NextDelivery)
        } else {
            (s.with_phase(Phase::Finished), Action::Finish)
        }
    } else {
        let after = SessionView { next: s.next + 1, ..s };
        match s.steps[s.next as int].op {
            Operation::Fail { fault } => (after.with_phase(Phase::Failed), Action::Panic(fault)),
            op => (after.with_phase(Phase::Script), Action::Perform(command_for(op, s.queue))),
        }
    }
}

/// What a successful step leaves behind: the queue name the broker reported
/// for a declared queue (the requested name where it reported none), and
/// the handling of a started consumer.
pub open spec fn record_success(s: SessionView, outcome: Outcome<Seq<char>>) -> SessionView {
    match s.steps[s.next - 1].op {
        Operation::DeclareQueue { queue, options } => SessionView {
            queue: Some(
                match outcome {
                    Outcome::QueueDeclared { queue: name } => name,
                    _ => queue,
                },
            ),
            ..s
        },
        Operation::Consume { queue, consumer_tag, handling } => SessionView { handling: Some(handling), ..s },
        _ => s,
    }
}

/// The text a failed acknowledgement panics with.
pub open spec fn ack_context(handling: Option<DeliveryHandling<Seq<char>>>) -> Seq<char> {
    match handling {
        Some(DeliveryHandling::AckEach { ack_context }) => ack_context,
        Some(DeliveryHandling::AckThenPrint { ack_context }) => ack_context,
        _ => Seq::empty(),
    }
}

/// Prints a received message, or panics where its body is not UTF-8.
pub open spec fn print_received(s: SessionView, routing_key: Seq<char>, data: Seq<u8>) -> (SessionView, Action<Seq<char>>) {
    if valid_utf8(data) {
        (
            s.with_phase(Phase::Printing),
            Action::Perform(Command::Print { line: received_line(routing_key, decode_utf8(data)) }),
        )
    } else {
        (s.with_phase(Phase::Failed), Action::Panic(Fault::InvalidUtf8))
    }
}

/// The step of a session that receives the outcome of its last command.
pub open spec fn step_on_outcome(s: SessionView, outcome: Outcome<Seq<char>>) -> (SessionView, Action<Seq<char>>) {
    match s.phase {
        Phase::Script => if outcome is Failed {
            match s.steps[s.next - 1].on_error {
                OnError::Panic { context } => (s.with_phase(Phase::Failed), Action::Panic(Fault::Expect { context })),
                OnError::Ignore => issue_step(s),
            }
        } else {
            issue_step(record_success(s, outcome))
        },
        Phase::Acking { pending } => if outcome is Failed {
            (s.with_phase(Phase::Failed), Action::Panic(Fault::Expect { context: ack_context(s.handling) }))
        } else {
            match pending {
                Some((routing_key, data)) => print_received(s, routing_key, data),
                None => (s.with_phase(Phase::Receiving), Action::NextDelivery),
            }
        },
        Phase::Printing => (s.with_phase(Phase::Receiving), Action::NextDelivery),
        _ => (s, Action::Finish),
    }
}

/// The step of a session that receives a delivery.
pub open spec fn step_on_delivery(s: SessionView, delivery: Delivery<Seq<char>, Seq<u8>>) -> (SessionView, Action<Seq<char>>) {
    match delivery {
        Delivery::Received { delivery_tag, routing_key, data } => match s.handling {
            Some(DeliveryHandling::AckEach { ack_context }) => if valid_utf8(data) {
                (s.with_phase(Phase::Acking { pending: None }), Action::Perform(Command::Ack { delivery_tag }))
            } else {
                (s.with_phase(Phase::Failed), Action::Panic(Fault::InvalidUtf8))
            },
            Some(DeliveryHandling::AckThenPrint { ack_context }) => (
                s.with_phase(Phase::Acking { pending: Some((routing_key, data)) }),
                Action::Perform(Command::Ack { delivery_tag }),
            ),
            _ => print_received(s, routing_key, data),
        },
        Delivery::Failed => match s.handling {
            Some(DeliveryHandling::AckEach { ack_context }) =>
                (s.with_phase(Phase::Failed), Action::Panic(Fault::DeliveryFailed)),
            _ => (s, Action::NextDelivery),
        },
        Delivery::Ended => (s.with_phase(Phase::Finished), Action::Finish),
    }
}


/// The views of a program's steps.
pub open spec fn step_views(steps: Seq<Step<String>>) -> Seq<Step<Seq<char>>> {
    steps.map_values(|step: Step<String>| step@)
}

/// The view of an optional delivery handling.
pub open spec fn handling_option(handling: Option<DeliveryHandling<String>>) -> Option<DeliveryHandling<Seq<char>>> {
    match handling {
        Some(h) => Some(h@),
        None => None,
    }
}

fn copy_text(text: &String) -> (copy: String)
    ensures
        copy@ == text@,
{
    text.clone()
}

fn copy_handling(handling: &DeliveryHandling<String>) -> (copy: DeliveryHandling<String>)
    ensures
        copy@ == handling@,
{
    match handling {
        DeliveryHandling::AckEach { ack_context } => DeliveryHandling::AckEach { ack_context: copy_text(ack_context) },
        DeliveryHandling::PrintOnly => DeliveryHandling::PrintOnly,
        DeliveryHandling::AckThenPrint { ack_context } =>
            DeliveryHandling::AckThenPrint { ack_context: copy_text(ack_context) },
    }
}

fn copy_fault(fault: &Fault<String>) -> (copy: Fault<String>)
    ensures
        copy@ == fault@,
{
    match fault {
        Fault::Expect { context } => Fault::Expect { context: copy_text(context) },
        Fault::InvalidSeverity { message } => Fault::InvalidSeverity { message: copy_text(message) },
        Fault::DeliveryFailed => Fault::DeliveryFailed,
        Fault::InvalidUtf8 => Fault::InvalidUtf8,
    }
}

fn resolve(queue: &QueueRef<String>, declared: &Option<String>) -> (name: String)
    ensures
        name@ == resolve_queue(queue@, text_option(*declared)),
{
    match queue {
        QueueRef::Named(name) => copy_text(name),
        QueueRef::Declared => match declared {
            Some(name) => copy_text(name),
            None => String::new(),
        },
    }
}

fn command_of(op: &Operation<String>, declared: &Option<String>) -> (command: Command<String>)
    ensures
        command@ == command_for(op@, text_option(*declared)),
{
    match op {
        Operation::Connect { address } => Command::Connect { address: copy_text(address) },
        Operation::CreateChannel => Command::CreateChannel,
        Operation::DeclareQueue { queue, options } =>
            Command::DeclareQueue { queue: copy_text(queue), options: *options },
        Operation::DeclareExchange { exchange, kind, options } =>
            Command::DeclareExchange { exchange: copy_text(exchange), kind: *kind, options: *options },
        Operation::BindQueue { queue, exchange, routing_key } => Command::BindQueue {
            queue: resolve(queue, declared),
            exchange: copy_text(exchange),
            routing_key: copy_text(routing_key),
        },
        Operation::Publish { exchange, routing_key, message, persistent } => Command::Publish {
            exchange: copy_text(exchange),
            routing_key: copy_text(routing_key),
            message: copy_text(message),
            persistent: *persistent,
        },
        Operation::Consume { queue, consumer_tag, handling } =>
            Command::Consume { queue: resolve(queue, declared), consumer_tag: copy_text(consumer_tag) },
        Operation::Print { line } => Command::Print { line: copy_text(line) },
        Operation::Fail { fault } => Command::Print { line: String::new() },
    }
}

fn acks_each(handling: &Option<DeliveryHandling<String>>) -> (b: bool)
    ensures
        b == (handling_option(*handling) matches Some(DeliveryHandling::AckEach { .. })),
{
    match handling {
        Some(DeliveryHandling::AckEach { .. }) => true,
        _ => false,
    }
}

fn acks_first(handling: &Option<DeliveryHandling<String>>) -> (b: bool)
    ensures
        b == (handling_option(*handling) matches Some(DeliveryHandling::AckThenPrint { .. })),
{
    match handling {
        Some(DeliveryHandling::AckThenPrint { .. }) => true,
        _ => false,
    }
}

fn ack_context_of(handling: &Option<DeliveryHandling<String>>) -> (context: String)
    ensures
        context@ == ack_context(handling_option(*handling)),
{
    match handling {
        Some(DeliveryHandling::AckEach { ack_context }) => copy_text(ack_context),
        Some(DeliveryHandling::AckThenPrint { ack_context }) => copy_text(ack_context),
        _ => String::new(),
    }
}

/// A running program. It hands out one action at a time; its caller carries
/// the action out and reports back with `resume` (after a command) or
/// `receive` (after waiting for a delivery).
pub struct Session {
    steps: Vec<Step<String>>,
    next: usize,
    queue: Option<String>,
    handling: Option<DeliveryHandling<String>>,
    phase: Phase<String, Vec<u8>>,
}

impl View for Session {
    type V = SessionView;

    closed spec fn view(&self) -> SessionView {
        SessionView {
            steps: step_views(self.steps@),
            next: self.next as nat,
            queue: text_option(self.queue),
            handling: handling_option(self.handling),
            phase: self.phase@,
        }
    }
}

impl Session {
    #[verifier::type_invariant]
    spec fn well_formed(self) -> bool {
        self@.wf()
    }

    fn with_phase(self, phase: Phase<String, Vec<u8>>) -> (session: Session)
        requires
            self@.with_phase(phase@).wf(),
        ensures
            session@ == self@.with_phase(phase@),
    {
        Session { phase, ..self }
    }

    fn issue(self) -> (result: (Session, Action<String>))
        ensures
            (result.0@, result.1@) == issue_step(self@),
    {
        proof {
            use_type_invariant(&self);
        }
        let Session { steps, next, queue, handling, phase } = self;
        let ghost before = SessionView {
            steps: step_views(steps@),
            next: next as nat,
            queue: text_option(queue),
            handling: handling_option(handling),
            phase: phase@,
        };
        if next >= steps.len() {
            if handling.is_some() {
                (Session { steps, next, queue, handling, phase: Phase::Receiving }, Action::NextDelivery)
            } else {
                (Session { steps, next, queue, handling, phase: Phase::Finished }, Action::Finish)
            }
        } else {
            assert(before.steps[next as int] == steps@[next as int]@);
            let failing = match &steps[next].op {
                Operation::Fail { .. } => true,
                _ => false,
            };
            if failing {
                let fault = match &steps[next].op {
                    Operation::Fail { fault } => copy_fault(fault),
                    _ => Fault::InvalidUtf8,
                };
                (Session { steps, next: next + 1, queue, handling, phase: Phase::Failed }, Action::Panic(fault))
            } else {
                let command = command_of(&steps[next].op, &queue);
                (Session { steps, next: next + 1, queue, handling, phase: Phase::Script }, Action::Perform(command))
            }
        }
    }

    fn print_message(self, routing_key: String, data: Vec<u8>) -> (result: (Session, Action<String>))
        requires
            self@.handling is Some,
        ensures
            (result.0@, result.1@) == print_received(self@, routing_key@, data@),
    {
        proof {
            use_type_invariant(&self);
        }
        match decode_body(data) {
            Some(body) => {
                let line = format_received(routing_key.as_str(), body.as_str());
                (self.with_phase(Phase::Printing), Action::Perform(Command::Print { line }))
            },
            None => (self.with_phase(Phase::Failed), Action::Panic(Fault::InvalidUtf8)),
        }
    }

    /// Starts running `steps`: hands out the first action.
    pub fn start(steps: Vec<Step<String>>) -> (result: (Session, Action<String>))
        ensures
            (result.0@, result.1@) == issue_step(initial_session(step_views(steps@))),
    {
        let session = Session { steps, next: 0, queue: None, handling: None, phase: Phase::Ready };
        session.issue()
    }

    /// Whether the session waits for the outcome of a command.
    pub fn awaits_outcome(&self) -> (b: bool)
        ensures
            b == self@.awaits_outcome(),
    {
        match self.phase {
            Phase::Script | Phase::Acking { .. } | Phase::Printing => true,
            _ => false,
        }
    }

    /// Whether the session waits for a delivery.
    pub fn awaits_delivery(&self) -> (b: bool)
        ensures
            b == self@.awaits_delivery(),
    {
        match self.phase {
            Phase::Receiving => true,
            _ => false,
        }
    }

    /// Takes the outcome of the command last handed out and hands out the
    /// next action.
    pub fn resume(self, outcome: Outcome<String>) -> (result: (Session, Action<String>))
        requires
            self@.awaits_outcome(),
        ensures
            (result.0@, result.1@) == step_on_outcome(self@, outcome@),
    {
        proof {
            use_type_invariant(&self);
        }
        let ghost before = self@;
        let Session { steps, next, queue, handling, phase } = self;
        match phase {
            Phase::Script => {
                assert(before.steps[next - 1] == steps@[next - 1]@);
                let failed = match outcome {
                    Outcome::Failed => true,
                    _ => false,
                };
                if failed {
                    let panics = match &steps[next - 1].on_error {
                        OnError::Panic { .. } => true,
                        OnError::Ignore => false,
                    };
                    if panics {
                        let context = match &steps[next - 1].on_error {
                            OnError::Panic { context } => copy_text(context),
                            OnError::Ignore => String::new(),
                        };
                        (
                            Session { steps, next, queue, handling, phase: Phase::Failed },
                            Action::Panic(Fault::Expect { context }),
                        )
                    } else {
                        Session { steps, next, queue, handling, phase: Phase::Script }.issue()
                    }
                } else {
                    let declared = match &steps[next - 1].op {
                        Operation::DeclareQueue { queue: requested, .. } => Some(
                            match outcome {
                                Outcome::QueueDeclared { queue: name } => name,
                                _ => copy_text(requested),
                            },
                        ),
                        _ => None,
                    };
                    let started = match &steps[next - 1].op {
                        Operation::Consume { handling: h, .. } => Some(copy_handling(h)),
                        _ => None,
                    };
                    let queue = if declared.is_some() { declared } else { queue };
                    let handling = if started.is_some() { started } else { handling };
                    Session { steps, next, queue, handling, phase: Phase::Script }.issue()
                }
            },
            Phase::Acking { pending } => {
                let failed = match outcome {
                    Outcome::Failed => true,
                    _ => false,
                };
                if failed {
                    let context = ack_context_of(&handling);
                    (
                        Session { steps, next, queue, handling, phase: Phase::Failed },
                        Action::Panic(Fault::Expect { context }),
                    )
                } else {
                    match pending {
                        Some((routing_key, data)) => Session {
                            steps,
                            next,
                            queue,
                            handling,
                            phase: Phase::Printing,
                        }.print_message(routing_key, data),
                        None => (
                            Session { steps, next, queue, handling, phase: Phase::Receiving },
                            Action::NextDelivery,
                        ),
                    }
                }
            },
            Phase::Printing => (
                Session { steps, next, queue, handling, phase: Phase::Receiving },
                Action::NextDelivery,
            ),
            other => (Session { steps, next, queue, handling, phase: other }, Action::Finish),
        }
    }

    /// Takes what the consumer's stream gave and hands out the next action.
    pub fn receive(self, delivery: Delivery<String, Vec<u8>>) -> (result: (Session, Action<String>))
        requires
            self@.awaits_delivery(),
        ensures
            (result.0@, result.1@) == step_on_delivery(self@, delivery@),
    {
        proof {
            use_type_invariant(&self);
        }
        match delivery {
            Delivery::Received { delivery_tag, routing_key, data } => {
                if acks_each(&self.handling) {
                    match decode_body(data) {
                        Some(_) => (
                            self.with_phase(Phase::Acking { pending: None }),
                            Action::Perform(Command::Ack { delivery_tag }),
                        ),
                        None => (self.with_phase(Phase::Failed), Action::Panic(Fault::InvalidUtf8)),
                    }
                } else if acks_first(&self.handling) {
                    (
                        self.with_phase(Phase::Acking { pending: Some((routing_key, data)) }),
                        Action::Perform(Command::Ack { delivery_tag }),
                    )
                } else {
                    self.print_message(routing_key, data)
                }
            },
            Delivery::Failed => {
                if acks_each(&self.handling) {
                    (self.with_phase(Phase::Failed), Action::Panic(Fault::DeliveryFailed))
                } else {
                    (self, Action::NextDelivery)
                }
            },
            Delivery::Ended => (self.with_phase(Phase::Finished), Action::Finish),
        }
    }
}


/// The session after handing out an action waits for what the action asks:
/// the outcome of a performed command, the next delivery, or nothing once
/// it panicked or finished.
pub open spec fn action_fits(s: SessionView, action: Action<Seq<char>>) -> bool {
    match action {
        Action::Perform(_) => s.awaits_outcome(),
        Action::NextDelivery => s.awaits_delivery(),
        Action::Panic(_) => s.phase is Failed,
        Action::Finish => s.phase is Finished,
    }
}

proof fn lemma_issue_fits(s: SessionView)
    requires
        s.wf(),
    ensures
        issue_step(s).0.wf(),
        action_fits(issue_step(s).0, issue_step(s).1),
{
}

/// A started session is well formed and waits for what its first action
/// asks.
pub proof fn lemma_start_fits(steps: Seq<Step<Seq<char>>>)
    ensures
        issue_step(initial_session(steps)).0.wf(),
        action_fits(issue_step(initial_session(steps)).0, issue_step(initial_session(steps)).1),
{
    lemma_issue_fits(initial_session(steps));
}

/// Every step of a session keeps it well formed, and leaves it waiting for
/// what the action it hands out asks: after a panic or the finish it waits
/// for nothing more.
pub proof fn lemma_step_fits(s: SessionView, outcome: Outcome<Seq<char>>, delivery: Delivery<Seq<char>, Seq<u8>>)
    requires
        s.wf(),
    ensures
        s.awaits_outcome() ==> step_on_outcome(s, outcome).0.wf() && action_fits(
            step_on_outcome(s, outcome).0,
            step_on_outcome(s, outcome).1,
        ),
        s.awaits_delivery() ==> step_on_delivery(s, delivery).0.wf() && action_fits(
            step_on_delivery(s, delivery).0,
            step_on_delivery(s, delivery).1,
        ),
{
    if s.phase is Script {
        lemma_issue_fits(s);
        if !(outcome is Failed) {
            lemma_issue_fits(record_success(s, outcome));
        }
    }
}

/// Whether `action` carries out `op`, whatever queue name the session
/// resolved for it.
pub open spec fn performs(action: Action<Seq<char>>, op: Operation<Seq<char>>) -> bool {
    exists|declared: Option<Seq<char>>| action == Action::Perform(command_for(op, declared))
}

/// The actions that a session hands out when it is given `outcomes` one
/// after the other, as long as it waits for outcomes.
pub open spec fn run_outcomes(s: SessionView, outcomes: Seq<Outcome<Seq<char>>>) -> (SessionView, Seq<Action<Seq<char>>>)
    decreases outcomes.len(),
{
    if outcomes.len() == 0 || !s.awaits_outcome() {
        (s, Seq::empty())
    } else {
        let (next, action) = step_on_outcome(s, outcomes[0]);
        let (last, rest) = run_outcomes(next, outcomes.drop_first());
        (last, seq![action] + rest)
    }
}

/// `n` successful outcomes.
pub open spec fn successes(n: nat) -> Seq<Outcome<Seq<char>>> {
    Seq::new(n, |i: int| Outcome::Done)
}

proof fn lemma_run_in_order(s: SessionView, n: nat)
    requires
        s.wf(),
        s.phase is Script,
        s.next + n <= s.steps.len(),
        forall|j: int| s.next <= j < s.next + n ==> !(#[trigger] s.steps[j].op is Fail),
    ensures
        run_outcomes(s, successes(n)).1.len() == n,
        forall|i: int| 0 <= i < n ==> performs(#[trigger] run_outcomes(s, successes(n)).1[i], s.steps[s.next + i].op),
    decreases n,
{
    if n > 0 {
        let r = record_success(s, Outcome::Done);
        let (t, a) = step_on_outcome(s, Outcome::Done);
        assert(step_on_outcome(s, Outcome::Done) == issue_step(r));
        assert(r.next == s.next && r.steps == s.steps);
        assert(a == Action::Perform(command_for(s.steps[s.next as int].op, r.queue)));
        assert(performs(a, s.steps[s.next as int].op));
        assert(successes(n).drop_first() =~= successes((n - 1) as nat));
        lemma_run_in_order(t, (n - 1) as nat);
        let rest = run_outcomes(t, successes((n - 1) as nat)).1;
        assert(run_outcomes(s, successes(n)).1 == seq![a] + rest);
        assert forall|i: int| 0 <= i < n implies performs(#[trigger] run_outcomes(s, successes(n)).1[i], s.steps[s.next + i].op) by {
            if i > 0 {
                assert(run_outcomes(s, successes(n)).1[i] == rest[i - 1]);
                assert(t.next + (i - 1) == s.next + i);
            }
        }
    }
}

/// A program whose first `n` steps are operations (no `Fail`) and all
/// succeed is carried out in its own order: the session hands out the
/// command of step 0 when it starts, and the command of step `i + 1` on the
/// `i`-th success.
pub proof fn lemma_program_runs_in_order(steps: Seq<Step<Seq<char>>>, n: nat)
    requires
        1 <= n <= steps.len(),
        forall|j: int| 0 <= j < n ==> !(#[trigger] steps[j].op is Fail),
    ensures
        performs(issue_step(initial_session(steps)).1, steps[0].op),
        run_outcomes(issue_step(initial_session(steps)).0, successes((n - 1) as nat)).1.len() == n - 1,
        forall|i: int|
            0 <= i < n - 1 ==> performs(
                #[trigger] run_outcomes(issue_step(initial_session(steps)).0, successes((n - 1) as nat)).1[i],
                steps[i + 1].op,
            ),
{
    let s = initial_session(steps);
    assert(!(steps[0].op is Fail));
    assert(issue_step(s).1 == Action::Perform(command_for(steps[0].op, s.queue)));
    let t = issue_step(s).0;
    lemma_issue_fits(s);
    assert forall|j: int| t.next <= j < t.next + (n - 1) implies !(#[trigger] t.steps[j].op is Fail) by {
        assert(t.steps[j] == steps[j]);
    }
    lemma_run_in_order(t, (n - 1) as nat);
}

/// A failed command ends the session with the context of its step where the
/// step must succeed; where its failure is passed over, the session goes on
/// with the next step as if nothing had happened.
pub proof fn lemma_failure_policy(s: SessionView)
    requires
        s.wf(),
        s.phase is Script,
    ensures
        match s.steps[s.next - 1].on_error {
            OnError::Panic { context } => step_on_outcome(s, Outcome::Failed) == (
                s.with_phase(Phase::Failed),
                Action::<Seq<char>>::Panic(Fault::Expect { context }),
            ),
            OnError::Ignore => step_on_outcome(s, Outcome::Failed) == issue_step(s),
        },
{
}

/// The broker's name for a declared queue is what the session keeps, and
/// what the bind or consume it hands out next names when it refers to the
/// declared queue.
pub proof fn lemma_declared_queue_name(s: SessionView, name: Seq<char>)
    requires
        s.wf(),
        s.phase is Script,
        s.steps[s.next - 1].op is DeclareQueue,
    ensures
        step_on_outcome(s, Outcome::QueueDeclared { queue: name }).0.queue == Some(name),
        s.next < s.steps.len() ==> match s.steps[s.next as int].op {
            Operation::BindQueue { queue: QueueRef::Declared, exchange, routing_key } =>
                step_on_outcome(s, Outcome::QueueDeclared { queue: name }).1 == Action::Perform(
                    Command::BindQueue { queue: name, exchange, routing_key },
                ),
            Operation::Consume { queue: QueueRef::Declared, consumer_tag, handling } =>
                step_on_outcome(s, Outcome::QueueDeclared { queue: name }).1 == Action::Perform(
                    Command::Consume { queue: name, consumer_tag },
                ),
            _ => true,
        },
{
}

/// Only a successful queue declaration changes the queue name a session
/// keeps; every other step leaves it as it was.
pub proof fn lemma_queue_name_kept(s: SessionView, outcome: Outcome<Seq<char>>, delivery: Delivery<Seq<char>, Seq<u8>>)
    requires
        s.wf(),
    ensures
        s.awaits_delivery() ==> step_on_delivery(s, delivery).0.queue == s.queue,
        s.awaits_outcome() && !(s.phase is Script && s.steps[s.next - 1].op is DeclareQueue && !(outcome is Failed))
            ==> step_on_outcome(s, outcome).0.queue == s.queue,
{
}

/// A bind or consume of the declared queue that a session hands out names
/// the queue whose name the session keeps.
pub proof fn lemma_declared_queue_used(s: SessionView)
    requires
        s.wf(),
        s.next < s.steps.len(),
        s.queue is Some,
    ensures
        match s.steps[s.next as int].op {
            Operation::BindQueue { queue: QueueRef::Declared, exchange, routing_key } =>
                issue_step(s).1 == Action::Perform(Command::BindQueue { queue: s.queue->0, exchange, routing_key }),
            Operation::Consume { queue: QueueRef::Declared, consumer_tag, handling } =>
                issue_step(s).1 == Action::Perform(Command::Consume { queue: s.queue->0, consumer_tag }),
            _ => true,
        },
{
}

/// A consumer that acknowledges each message acknowledges a received
/// message under its own delivery tag, once its body is decoded, and asks for
/// the next delivery only once the acknowledgement succeeded; a body that is
/// not UTF-8, a failed delivery or a failed acknowledgement ends it.
pub proof fn lemma_ack_each(s: SessionView, delivery_tag: u64, routing_key: Seq<char>, data: Seq<u8>, ack_outcome: Outcome<Seq<char>>)
    requires
        s.wf(),
        s.awaits_delivery(),
        s.handling matches Some(DeliveryHandling::AckEach { .. }),
    ensures
        valid_utf8(data) ==> {
            let (acking, ack) = step_on_delivery(s, Delivery::Received { delivery_tag, routing_key, data });
            &&& ack == Action::<Seq<char>>::Perform(Command::Ack { delivery_tag })
            &&& step_on_outcome(acking, ack_outcome).1 == if ack_outcome is Failed {
                Action::<Seq<char>>::Panic(Fault::Expect { context: ack_context(s.handling) })
            } else {
                Action::NextDelivery
            }
        },
        !valid_utf8(data) ==> step_on_delivery(s, Delivery::Received { delivery_tag, routing_key, data }).1
            == Action::<Seq<char>>::Panic(Fault::InvalidUtf8),
        step_on_delivery(s, Delivery::Failed).1 == Action::<Seq<char>>::Panic(Fault::DeliveryFailed),
{
}

/// A consumer that acknowledges first acknowledges a received message under
/// its own delivery tag, then prints `[x] <routing key>:<body>`, then asks
/// for the next delivery; failed deliveries are passed over.
pub proof fn lemma_ack_then_print(s: SessionView, delivery_tag: u64, routing_key: Seq<char>, data: Seq<u8>)
    requires
        s.wf(),
        s.awaits_delivery(),
        s.handling matches Some(DeliveryHandling::AckThenPrint { .. }),
    ensures
        ({
            let (acking, ack) = step_on_delivery(s, Delivery::Received { delivery_tag, routing_key, data });
            let (printing, print) = step_on_outcome(acking, Outcome::Done);
            &&& ack == Action::<Seq<char>>::Perform(Command::Ack { delivery_tag })
            &&& print == if valid_utf8(data) {
                Action::<Seq<char>>::Perform(Command::Print { line: received_line(routing_key, decode_utf8(data)) })
            } else {
                Action::<Seq<char>>::Panic(Fault::InvalidUtf8)
            }
            &&& valid_utf8(data) ==> step_on_outcome(printing, Outcome::Done).1 == Action::<Seq<char>>::NextDelivery
        }),
        step_on_delivery(s, Delivery::Failed) == (s, Action::<Seq<char>>::NextDelivery),
{
}

/// A consumer that only prints never acknowledges: it prints
/// `[x] <routing key>:<body>` for each message and passes over failed
/// deliveries.
pub proof fn lemma_print_only(s: SessionView, delivery_tag: u64, routing_key: Seq<char>, data: Seq<u8>)
    requires
        s.wf(),
        s.awaits_delivery(),
        s.handling == Some(DeliveryHandling::<Seq<char>>::PrintOnly),
    ensures
        step_on_delivery(s, Delivery::Received { delivery_tag, routing_key, data }).1 == if valid_utf8(data) {
            Action::<Seq<char>>::Perform(Command::Print { line: received_line(routing_key, decode_utf8(data)) })
        } else {
            Action::<Seq<char>>::Panic(Fault::InvalidUtf8)
        },
        step_on_delivery(s, Delivery::Failed) == (s, Action::<Seq<char>>::NextDelivery),
{
}

/// The end of the consumer's stream ends the session.
pub proof fn lemma_stream_end(s: SessionView)
    requires
        s.wf(),
        s.awaits_delivery(),
    ensures
        step_on_delivery(s, Delivery::Ended) == (s.with_phase(Phase::Finished), Action::<Seq<char>>::Finish),
{
}


/// A successful outcome of a program step makes the session hand out the
/// next step of the same program, from the same position: recording the
/// outcome changes neither the program nor the position.
pub proof fn lemma_success_issues_next(s: SessionView, outcome: Outcome<Seq<char>>)
    requires
        s.wf(),
        s.phase is Script,
        !(outcome is Failed),
    ensures
        step_on_outcome(s, outcome) == issue_step(record_success(s, outcome)),
        record_success(s, outcome).steps == s.steps,
        record_success(s, outcome).next == s.next,
        record_success(s, outcome).wf(),
{
}

/// The connection a session hands out goes to the address of its step.
pub proof fn lemma_issue_connect(s: SessionView, address: Seq<char>)
    requires
        s.next < s.steps.len(),
        s.steps[s.next as int].op == (Operation::Connect { address }),
    ensures
        issue_step(s).1 == Action::Perform(Command::Connect { address }),
        issue_step(s).0.next == s.next + 1,
{
}

/// A channel step is handed out as opening a channel.
pub proof fn lemma_issue_create_channel(s: SessionView)
    requires
        s.next < s.steps.len(),
        s.steps[s.next as int].op == Operation::<Seq<char>>::CreateChannel,
    ensures
        issue_step(s).1 == Action::<Seq<char>>::Perform(Command::CreateChannel),
        issue_step(s).0.next == s.next + 1,
{
}

/// A queue declaration is handed out with the step's queue name and flags
/// unchanged.
pub proof fn lemma_issue_declare_queue(s: SessionView, queue: Seq<char>, options: QueueOptions)
    requires
        s.next < s.steps.len(),
        s.steps[s.next as int].op == (Operation::DeclareQueue { queue, options }),
    ensures
        issue_step(s).1 == Action::Perform(Command::DeclareQueue { queue, options }),
        issue_step(s).0.next == s.next + 1,
{
}

/// An exchange declaration is handed out with the step's exchange name,
/// kind and flags unchanged.
pub proof fn lemma_issue_declare_exchange(s: SessionView, exchange: Seq<char>, kind: ExchangeKind, options: ExchangeOptions)
    requires
        s.next < s.steps.len(),
        s.steps[s.next as int].op == (Operation::DeclareExchange { exchange, kind, options }),
    ensures
        issue_step(s).1 == Action::Perform(Command::DeclareExchange { exchange, kind, options }),
        issue_step(s).0.next == s.next + 1,
{
}

/// A publication is handed out with the step's exchange, routing key,
/// message and persistence unchanged.
pub proof fn lemma_issue_publish(s: SessionView, exchange: Seq<char>, routing_key: Seq<char>, message: Seq<char>, persistent: bool)
    requires
        s.next < s.steps.len(),
        s.steps[s.next as int].op == (Operation::Publish { exchange, routing_key, message, persistent }),
    ensures
        issue_step(s).1 == Action::Perform(Command::Publish { exchange, routing_key, message, persistent }),
        issue_step(s).0.next == s.next + 1,
{
}

/// A print step is handed out with its line unchanged.
pub proof fn lemma_issue_print(s: SessionView, line: Seq<char>)
    requires
        s.next < s.steps.len(),
        s.steps[s.next as int].op == (Operation::Print { line }),
    ensures
        issue_step(s).1 == Action::Perform(Command::Print { line }),
        issue_step(s).0.next == s.next + 1,
{
}

/// A bind of a queue known by name is handed out with that name, the
/// exchange and the binding key unchanged.
pub proof fn lemma_issue_bind_named(s: SessionView, queue: Seq<char>, exchange: Seq<char>, routing_key: Seq<char>)
    requires
        s.next < s.steps.len(),
        s.steps[s.next as int].op == (Operation::BindQueue { queue: QueueRef::Named(queue), exchange, routing_key }),
    ensures
        issue_step(s).1 == Action::Perform(Command::BindQueue { queue, exchange, routing_key }),
        issue_step(s).0.next == s.next + 1,
{
}

/// Consuming a queue known by name is handed out with that name and the
/// consumer tag unchanged; the session then handles deliveries as the step
/// says once the consume succeeds.
pub proof fn lemma_issue_consume_named(s: SessionView, queue: Seq<char>, consumer_tag: Seq<char>, handling: DeliveryHandling<Seq<char>>)
    requires
        s.next < s.steps.len(),
        s.steps[s.next as int].op == (Operation::Consume { queue: QueueRef::Named(queue), consumer_tag, handling }),
    ensures
        issue_step(s).1 == Action::Perform(Command::Consume { queue, consumer_tag }),
        issue_step(s).0.next == s.next + 1,
        issue_step(s).0.wf() ==> record_success(issue_step(s).0, Outcome::Done).handling == Some(handling),
{
}

/// A `Fail` step is handed out as a panic with its fault.
pub proof fn lemma_issue_fail(s: SessionView, fault: Fault<Seq<char>>)
    requires
        s.next < s.steps.len(),
        s.steps[s.next as int].op == (Operation::Fail { fault }),
    ensures
        issue_step(s).1 == Action::Panic(fault),
        issue_step(s).0.phase is Failed,
{
}


/// A failed acknowledgement ends the session with the panic text that the
/// consumer's handling names, whether it acknowledges each message after
/// decoding it or before printing it.
pub proof fn lemma_ack_failure_context(
    s: SessionView,
    context: Seq<char>,
    delivery_tag: u64,
    routing_key: Seq<char>,
    data: Seq<u8>,
)
    requires
        s.wf(),
        s.awaits_delivery(),
        s.handling == Some(DeliveryHandling::AckEach { ack_context: context }) || s.handling == Some(
            DeliveryHandling::AckThenPrint { ack_context: context },
        ),
        valid_utf8(data),
    ensures
        ({
            let (acking, ack) = step_on_delivery(s, Delivery::Received { delivery_tag, routing_key, data });
            &&& ack == Action::<Seq<char>>::Perform(Command::Ack { delivery_tag })
            &&& step_on_outcome(acking, Outcome::Failed) == (
                acking.with_phase(Phase::Failed),
                Action::<Seq<char>>::Panic(Fault::Expect { context }),
            )
        }),
{
}

/// A consumer that only prints asks for the next delivery once the line is
/// printed.
pub proof fn lemma_print_then_next(s: SessionView, delivery_tag: u64, routing_key: Seq<char>, data: Seq<u8>)
    requires
        s.wf(),
        s.awaits_delivery(),
        s.handling == Some(DeliveryHandling::<Seq<char>>::PrintOnly),
        valid_utf8(data),
    ensures
        step_on_outcome(
            step_on_delivery(s, Delivery::Received { delivery_tag, routing_key, data }).0,
            Outcome::Done,
        ) == (s.with_phase(Phase::Receiving), Action::<Seq<char>>::NextDelivery),
{
}

/// Once every step is handed out, a session that started a consumer waits
/// for deliveries, and one that did not is finished.
pub proof fn lemma_issue_end(s: SessionView)
    requires
        s.next >= s.steps.len(),
    ensures
        s.handling is Some ==> issue_step(s) == (s.with_phase(Phase::Receiving), Action::<Seq<char>>::NextDelivery),
        s.handling is None ==> issue_step(s) == (s.with_phase(Phase::Finished), Action::<Seq<char>>::Finish),
{
}

} // verus!
