//! The AMQP 0-9-1 methods that the tutorial programs send, as plain values.
//! The text fields are generic: programs hold `String`s, and the view of each
//! value holds `Seq<char>`s in their place.

use vstd::prelude::*;

verus! {

/// The flags of `queue.declare`.
#[derive(Clone, Copy, Debug, PartialEq, Eq, Structural)]
pub struct QueueOptions {
    pub passive: bool,
    pub durable: bool,
    pub exclusive: bool,
    pub auto_delete: bool,
    pub nowait: bool,
}

/// The flags of `exchange.declare`.
#[derive(Clone, Copy, Debug, PartialEq, Eq, Structural)]
pub struct ExchangeOptions {
    pub passive: bool,
    pub durable: bool,
    pub auto_delete: bool,
    pub internal: bool,
    pub nowait: bool,
}

/// How an exchange routes the messages published to it.
#[derive(Clone, Copy, Debug, PartialEq, Eq, Structural)]
pub enum ExchangeKind {
    /// To the queues bound with a binding key equal to the routing key.
    Direct,
    /// To every bound queue.
    Fanout,
    /// To the queues whose binding pattern matches the routing key.
    Topic,
    /// By the message headers.
    Headers,
}

/// The queue that a bind or a consume names.
#[derive(Clone, Debug, PartialEq, Eq)]
pub enum QueueRef<S> {
    /// A queue known by name beforehand.
    Named(S),
    /// The queue that the broker reported for the last `queue.declare` of
    /// the session (the broker names a queue declared with an empty name).
    Declared,
}

/// What a consumer does with each message it receives.
#[derive(Clone, Debug, PartialEq, Eq)]
pub enum DeliveryHandling<S> {
    /// Decode the body as UTF-8, then acknowledge the message; a failed
    /// delivery or an undecodable body ends the program; a failed
    /// acknowledgement ends it with `ack_context`.
    AckEach { ack_context: S },
    /// Decode the body and print `[x] <routing key>:<body>`; failed
    /// deliveries are skipped; nothing is acknowledged.
    PrintOnly,
    /// Acknowledge the message, then decode and print it as `PrintOnly`
    /// does; failed deliveries are skipped.
    AckThenPrint { ack_context: S },
}

/// Why a program stops with a panic.
#[derive(Clone, Debug, PartialEq, Eq)]
pub enum Fault<S> {
    /// The last operation failed, and the program requires it to succeed;
    /// `context` is the text it panics with.
    Expect { context: S },
    /// A command-line severity was refused with `message`.
    InvalidSeverity { message: S },
    /// The broker reported a failed delivery to a consumer that requires
    /// every delivery to succeed.
    DeliveryFailed,
    /// A received body is not valid UTF-8.
    InvalidUtf8,
}

/// What a program does when an operation fails.
#[derive(Clone, Debug, PartialEq, Eq)]
pub enum OnError<S> {
    /// Stop, with `context` as the panic text.
    Panic { context: S },
    /// Go on with the next operation.
    Ignore,
}

/// One operation of a program, before the session resolves the queue it
/// names.
#[derive(Clone, Debug, PartialEq, Eq)]
pub enum Operation<S> {
    Connect { address: S },
    CreateChannel,
    DeclareQueue { queue: S, options: QueueOptions },
    DeclareExchange { exchange: S, kind: ExchangeKind, options: ExchangeOptions },
    BindQueue { queue: QueueRef<S>, exchange: S, routing_key: S },
    /// Publishing `message`; a persistent message is stored by the broker
    /// (delivery mode 2) where its queue is durable.
    Publish { exchange: S, routing_key: S, message: S, persistent: bool },
    Consume { queue: QueueRef<S>, consumer_tag: S, handling: DeliveryHandling<S> },
    Print { line: S },
    /// Stop here with the given fault.
    Fail { fault: Fault<S> },
}

/// An operation with what the program does when it fails.
#[derive(Clone, Debug, PartialEq, Eq)]
pub struct Step<S> {
    pub op: Operation<S>,
    pub on_error: OnError<S>,
}

/// An operation for the caller to carry out, with every queue named.
#[derive(Clone, Debug, PartialEq, Eq)]
pub enum Command<S> {
    Connect { address: S },
    CreateChannel,
    DeclareQueue { queue: S, options: QueueOptions },
    DeclareExchange { exchange: S, kind: ExchangeKind, options: ExchangeOptions },
    BindQueue { queue: S, exchange: S, routing_key: S },
    Publish { exchange: S, routing_key: S, message: S, persistent: bool },
    Consume { queue: S, consumer_tag: S },
    Print { line: S },
    Ack { delivery_tag: u64 },
}

/// What a session asks its caller to do next.
#[derive(Clone, Debug, PartialEq, Eq)]
pub enum Action<S> {
    /// Carry out the command, then report its outcome.
    Perform(Command<S>),
    /// Wait for the next delivery of the consumer, then report it.
    NextDelivery,
    /// Stop with a panic.
    Panic(Fault<S>),
    /// The program is over.
    Finish,
}

/// How a command went.
#[derive(Clone, Debug, PartialEq, Eq)]
pub enum Outcome<S> {
    /// It succeeded.
    Done,
    /// A `queue.declare` succeeded and the broker named the queue `queue`.
    QueueDeclared { queue: S },
    /// It failed.
    Failed,
}

/// What the consumer's stream gave.
#[derive(Clone, Debug, PartialEq, Eq)]
pub enum Delivery<S, B> {
    /// A message with its delivery tag, routing key and body.
    Received { delivery_tag: u64, routing_key: S, data: B },
    /// The broker reported an error in place of a message.
    Failed,
    /// The stream is over.
    Ended,
}

impl View for QueueRef<String> {
    type V = QueueRef<Seq<char>>;

    open spec fn view(&self) -> QueueRef<Seq<char>> {
        match self {
            QueueRef::Named(name) => QueueRef::Named(name@),
            QueueRef::Declared => QueueRef::Declared,
        }
    }
}

impl View for DeliveryHandling<String> {
    type V = DeliveryHandling<Seq<char>>;

    open spec fn view(&self) -> DeliveryHandling<Seq<char>> {
        match self {
            DeliveryHandling::AckEach { ack_context } => DeliveryHandling::AckEach { ack_context: ack_context@ },
            DeliveryHandling::PrintOnly => DeliveryHandling::PrintOnly,
            DeliveryHandling::AckThenPrint { ack_context } => DeliveryHandling::AckThenPrint { ack_context: ack_context@ },
        }
    }
}

impl View for Fault<String> {
    type V = Fault<Seq<char>>;

    open spec fn view(&self) -> Fault<Seq<char>> {
        match self {
            Fault::Expect { context } => Fault::Expect { context: context@ },
            Fault::InvalidSeverity { message } => Fault::InvalidSeverity { message: message@ },
            Fault::DeliveryFailed => Fault::DeliveryFailed,
            Fault::InvalidUtf8 => Fault::InvalidUtf8,
        }
    }
}

impl View for OnError<String> {
    type V = OnError<Seq<char>>;

    open spec fn view(&self) -> OnError<Seq<char>> {
        match self {
            OnError::Panic { context } => OnError::Panic { context: context@ },
            OnError::Ignore => OnError::Ignore,
        }
    }
}

impl View for Operation<String> {
    type V = Operation<Seq<char>>;

    open spec fn view(&self) -> Operation<Seq<char>> {
        match self {
            Operation::Connect { address } => Operation::Connect { address: address@ },
            Operation::CreateChannel => Operation::CreateChannel,
            Operation::DeclareQueue { queue, options } => Operation::DeclareQueue { queue: queue@, options: *options },
            Operation::DeclareExchange { exchange, kind, options } =>
                Operation::DeclareExchange { exchange: exchange@, kind: *kind, options: *options },
            Operation::BindQueue { queue, exchange, routing_key } =>
                Operation::BindQueue { queue: queue@, exchange: exchange@, routing_key: routing_key@ },
            Operation::Publish { exchange, routing_key, message, persistent } => Operation::Publish {
                exchange: exchange@,
                routing_key: routing_key@,
                message: message@,
                persistent: *persistent,
            },
            Operation::Consume { queue, consumer_tag, handling } =>
                Operation::Consume { queue: queue@, consumer_tag: consumer_tag@, handling: handling@ },
            Operation::Print { line } => Operation::Print { line: line@ },
            Operation::Fail { fault } => Operation::Fail { fault: fault@ },
        }
    }
}

impl View for Step<String> {
    type V = Step<Seq<char>>;

    open spec fn view(&self) -> Step<Seq<char>> {
        Step { op: self.op@, on_error: self.on_error@ }
    }
}

impl View for Command<String> {
    type V = Command<Seq<char>>;

    open spec fn view(&self) -> Command<Seq<char>> {
        match self {
            Command::Connect { address } => Command::Connect { address: address@ },
            Command::CreateChannel => Command::CreateChannel,
            Command::DeclareQueue { queue, options } => Command::DeclareQueue { queue: queue@, options: *options },
            Command::DeclareExchange { exchange, kind, options } =>
                Command::DeclareExchange { exchange: exchange@, kind: *kind, options: *options },
            Command::BindQueue { queue, exchange, routing_key } =>
                Command::BindQueue { queue: queue@, exchange: exchange@, routing_key: routing_key@ },
            Command::Publish { exchange, routing_key, message, persistent } => Command::Publish {
                exchange: exchange@,
                routing_key: routing_key@,
                message: message@,
                persistent: *persistent,
            },
            Command::Consume { queue, consumer_tag } =>
                Command::Consume { queue: queue@, consumer_tag: consumer_tag@ },
            Command::Print { line } => Command::Print { line: line@ },
            Command::Ack { delivery_tag } => Command::Ack { delivery_tag: *delivery_tag },
        }
    }
}

impl View for Action<String> {
    type V = Action<Seq<char>>;

    open spec fn view(&self) -> Action<Seq<char>> {
        match self {
            Action::Perform(command) => Action::Perform(command@),
            Action::NextDelivery => Action::NextDelivery,
            Action::Panic(fault) => Action::Panic(fault@),
            Action::Finish => Action::Finish,
        }
    }
}

impl View for Outcome<String> {
    type V = Outcome<Seq<char>>;

    open spec fn view(&self) -> Outcome<Seq<char>> {
        match self {
            Outcome::Done => Outcome::Done,
            Outcome::QueueDeclared { queue } => Outcome::QueueDeclared { queue: queue@ },
            Outcome::Failed => Outcome::Failed,
        }
    }
}

impl View for Delivery<String, Vec<u8>> {
    type V = Delivery<Seq<char>, Seq<u8>>;

    open spec fn view(&self) -> Delivery<Seq<char>, Seq<u8>> {
        match self {
            Delivery::Received { delivery_tag, routing_key, data } =>
                Delivery::Received { delivery_tag: *delivery_tag, routing_key: routing_key@, data: data@ },
            Delivery::Failed => Delivery::Failed,
            Delivery::Ended => Delivery::Ended,
        }
    }
}

} // verus!
