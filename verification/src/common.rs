use vstd::prelude::*;
use crate::amqp::{OnError, Operation, QueueOptions, Step};
use crate::session::step_views;

verus! {

/// Where the broker listens when `AMQP_ADDR` does not say otherwise.
pub const RABBITMQ_URL: &'static str = "amqp://127.0.0.1:5672/%2f";

/// The environment variable that may name the broker's address.
pub const AMQP_ADDR_KEY: &'static str = "AMQP_ADDR";

/// The environment variable that sets the log filter.
pub const RUST_LOG_KEY: &'static str = "RUST_LOG";

/// The log filter used when `RUST_LOG` is not set.
pub const RUST_LOG_DEFAULT_VALUE: &'static str = "info";

/// The broker's address: the value of `AMQP_ADDR` where it is set (and is
/// valid unicode), else `RABBITMQ_URL`.
pub fn get_rabbitmq_address(amqp_addr: Option<String>) -> (address: String)
    ensures
        address@ == match amqp_addr {
            Some(value) => value@,
            None => RABBITMQ_URL@,
        },
{
    match amqp_addr {
        Some(value) => value,
        None => String::from_str(RABBITMQ_URL),
    }
}

/// The value to give `RUST_LOG`, given its present value: `info` where it is
/// not set (or not valid unicode), and nothing to change where it is.
pub fn set_default_logging_env(rust_log: Option<String>) -> (assignment: Option<String>)
    ensures
        assignment is Some <==> rust_log is None,
        assignment matches Some(value) ==> value@ == RUST_LOG_DEFAULT_VALUE@,
{
    match rust_log {
        Some(_) => None,
        None => Some(String::from_str(RUST_LOG_DEFAULT_VALUE)),
    }
}

/// A step that ends the program, panicking with `context`, if its operation fails.
pub open spec fn expect_step(op: Operation<Seq<char>>, context: Seq<char>) -> Step<Seq<char>> {
    Step { op, on_error: OnError::Panic { context } }
}

/// A step whose failure the program passes over.
pub open spec fn ignore_step(op: Operation<Seq<char>>) -> Step<Seq<char>> {
    Step { op, on_error: OnError::Ignore }
}

/// `op`, ending the program with `context` where it fails.
pub fn expect(op: Operation<String>, context: &str) -> (step: Step<String>)
    ensures
        step@ == expect_step(op@, context@),
{
    Step { op, on_error: OnError::Panic { context: String::from_str(context) } }
}

/// `op`, with its failure passed over.
pub fn ignore(op: Operation<String>) -> (step: Step<String>)
    ensures
        step@ == ignore_step(op@),
{
    Step { op, on_error: OnError::Ignore }
}

/// Connecting to the broker at `address`, which the programs require.
pub open spec fn connect_step(address: Seq<char>) -> Step<Seq<char>> {
    expect_step(Operation::Connect { address }, "connection error"@)
}

/// Connects to the broker at `address`; a failure ends the program with
/// `connection error`, the text that the Hello World producer panics with
/// when it cannot connect. Every program but the `tutorial_1` consumer
/// connects this way.
pub fn connect(address: String) -> (step: Step<String>)
    ensures
        step@ == connect_step(address@),
{
    expect(Operation::Connect { address }, "connection error")
}

/// Opening a channel, ending the program with `context` where it fails.
pub open spec fn create_channel_step(context: Seq<char>) -> Step<Seq<char>> {
    expect_step(Operation::CreateChannel, context)
}

/// Opens a channel; a failure ends the program with `context`.
pub fn create_channel(context: &str) -> (step: Step<String>)
    ensures
        step@ == create_channel_step(context@),
{
    expect(Operation::CreateChannel, context)
}

/// A queue with every flag of `queue.declare` off.
pub open spec fn plain_queue() -> QueueOptions {
    QueueOptions { passive: false, durable: false, exclusive: false, auto_delete: false, nowait: false }
}

/// A queue that only its connection uses and that goes with it.
pub open spec fn exclusive_queue_options() -> QueueOptions {
    QueueOptions { passive: false, durable: false, exclusive: true, auto_delete: false, nowait: false }
}

/// The waiting notice that the log receivers print.
pub const WAITING_NOTICE: &'static str = "[*] Waiting for logs. To exit press Ctrl + C";

/// Why a program refuses its command-line arguments before it connects.
#[derive(Clone, Debug, PartialEq, Eq)]
pub enum UsageError<S> {
    /// A required argument is missing; the program panics with `message`.
    MissingArgument { message: S },
    /// An argument is not a severity; `message` is its refusal, which the
    /// program unwraps.
    InvalidSeverity { message: S },
}

impl View for UsageError<String> {
    type V = UsageError<Seq<char>>;

    open spec fn view(&self) -> UsageError<Seq<char>> {
        match self {
            UsageError::MissingArgument { message } => UsageError::MissingArgument { message: message@ },
            UsageError::InvalidSeverity { message } => UsageError::InvalidSeverity { message: message@ },
        }
    }
}

/// The view of a program built from command-line arguments, or of the
/// reason it was refused.
pub open spec fn program_view(program: Result<Vec<Step<String>>, UsageError<String>>) -> Result<
    Seq<Step<Seq<char>>>,
    UsageError<Seq<char>>,
> {
    match program {
        Ok(steps) => Ok(step_views(steps@)),
        Err(error) => Err(error@),
    }
}


/// The default broker is `amqp://127.0.0.1:5672/%2f` and the default log
/// filter is `info`, whatever the environment holds otherwise.
pub proof fn lemma_defaults()
    ensures
        RABBITMQ_URL@ == "amqp://127.0.0.1:5672/%2f"@,
        RUST_LOG_DEFAULT_VALUE@ == "info"@,
        AMQP_ADDR_KEY@ == "AMQP_ADDR"@,
        RUST_LOG_KEY@ == "RUST_LOG"@,
{
}

} // verus!
