//! Hello World: a producer sends one message through the default exchange to
//! the queue `hello`, and a consumer acknowledges what arrives there.

use vstd::prelude::*;
use crate::amqp::{DeliveryHandling, Operation, QueueOptions, QueueRef, Step};
use crate::common::{connect, connect_step, create_channel, create_channel_step, expect, expect_step, plain_queue};
use crate::session::step_views;

verus! {

/// The queue of the tutorial.
pub const QUEUE_NAME: &'static str = "hello";

/// The consumer tag of the consumer.
pub const CONSUMER_TAG: &'static str = "consumer";

/// The message that the producer sends.
pub const MESSAGE: &'static str = "Hello world!";

/// Declaring the queue `hello` with every flag off.
pub open spec fn declare_queue_step() -> Step<Seq<char>> {
    expect_step(
        Operation::DeclareQueue {
            queue: QUEUE_NAME@,
            options: plain_queue(),
        },
        "declare queue error"@,
    )
}

/// Declares the queue `hello`; a failure ends the program.
pub fn declare_queue() -> (step: Step<String>)
    ensures
        step@ == declare_queue_step(),
{
    expect(
        Operation::DeclareQueue {
            queue: String::from_str(QUEUE_NAME),
            options: QueueOptions { passive: false, durable: false, exclusive: false, auto_delete: false, nowait: false },
        },
        "declare queue error",
    )
}

/// The producer: connect, open a channel, declare `hello`, publish
/// `Hello world!` to the default exchange with the routing key `hello`.
pub open spec fn producer_program(address: Seq<char>) -> Seq<Step<Seq<char>>> {
    seq![
        connect_step(address),
        create_channel_step("create channel error"@),
        declare_queue_step(),
        expect_step(
            Operation::Publish {
                exchange: Seq::empty(),
                routing_key: QUEUE_NAME@,
                message: MESSAGE@,
                persistent: false,
            },
            "basic publish error"@,
        ),
    ]
}

/// The producer's program, for the broker at `address`.
pub fn producer(address: String) -> (steps: Vec<Step<String>>)
    ensures
        step_views(steps@) == producer_program(address@),
{
    let mut steps = Vec::new();
    steps.push(connect(address));
    steps.push(create_channel("create channel error"));
    steps.push(declare_queue());
    steps.push(
        expect(
            Operation::Publish {
                exchange: String::new(),
                routing_key: String::from_str(QUEUE_NAME),
                message: String::from_str(MESSAGE),
                persistent: false,
            },
            "basic publish error",
        ),
    );
    assert(step_views(steps@) =~= producer_program(address@));
    steps
}

/// The consumer: connect, open a channel, declare `hello`, consume from it,
/// acknowledging each message once its body is decoded.
pub open spec fn consumer_program(address: Seq<char>) -> Seq<Step<Seq<char>>> {
    seq![
        connect_step(address),
        create_channel_step("create channel error"@),
        declare_queue_step(),
        expect_step(
            Operation::Consume {
                queue: QueueRef::Named(QUEUE_NAME@),
                consumer_tag: CONSUMER_TAG@,
                handling: DeliveryHandling::AckEach { ack_context: "basic ack error"@ },
            },
            "basic consume error"@,
        ),
    ]
}

/// The consumer's program, for the broker at `address`.
pub fn consumer(address: String) -> (steps: Vec<Step<String>>)
    ensures
        step_views(steps@) == consumer_program(address@),
{
    let mut steps = Vec::new();
    steps.push(connect(address));
    steps.push(create_channel("create channel error"));
    steps.push(declare_queue());
    steps.push(
        expect(
            Operation::Consume {
                queue: QueueRef::Named(String::from_str(QUEUE_NAME)),
                consumer_tag: String::from_str(CONSUMER_TAG),
                handling: DeliveryHandling::AckEach { ack_context: String::from_str("basic ack error") },
            },
            "basic consume error",
        ),
    );
    assert(step_views(steps@) =~= consumer_program(address@));
    steps
}


/// The producer and the consumer declare the queue `hello` alike, and the
/// producer publishes through the default exchange with the name of the
/// queue that the consumer reads as its routing key: the default exchange
/// hands each message to the queue named by its routing key.
pub proof fn lemma_producer_reaches_consumer(producer_address: Seq<char>, consumer_address: Seq<char>)
    ensures
        ({
            let producer = producer_program(producer_address);
            let consumer = consumer_program(consumer_address);
            &&& producer[2] == consumer[2]
            &&& producer[3].op is Publish
            &&& producer[3].op->Publish_exchange.len() == 0
            &&& consumer[3].op is Consume
            &&& consumer[3].op->Consume_queue == QueueRef::Named(producer[3].op->Publish_routing_key)
            &&& producer[2].op->DeclareQueue_queue == producer[3].op->Publish_routing_key
        }),
{
}


/// The producer connects to the given address, declares the queue `hello`
/// with every flag off, and publishes `Hello world!` to the default exchange
/// with `hello` as routing key, not persistently.
pub proof fn lemma_producer_publishes(address: Seq<char>)
    ensures
        ({
            let program = producer_program(address);
            &&& program.len() == 4
            &&& program[0].op == (Operation::Connect { address })
            &&& program[2].op == (Operation::DeclareQueue {
                queue: "hello"@,
                options: QueueOptions { passive: false, durable: false, exclusive: false, auto_delete: false, nowait: false },
            })
            &&& program[3].op == (Operation::Publish {
                exchange: Seq::empty(),
                routing_key: "hello"@,
                message: "Hello world!"@,
                persistent: false,
            })
        }),
{
}

/// The consumer connects to the given address, declares `hello` with every
/// flag off and consumes it under the tag `consumer`, acknowledging each
/// message once its body is decoded.
pub proof fn lemma_consumer_consumes(address: Seq<char>)
    ensures
        ({
            let program = consumer_program(address);
            &&& program[0].op == (Operation::Connect { address })
            &&& program[2].op == (Operation::DeclareQueue {
                queue: "hello"@,
                options: QueueOptions { passive: false, durable: false, exclusive: false, auto_delete: false, nowait: false },
            })
            &&& program[3].op == (Operation::Consume {
                queue: QueueRef::Named("hello"@),
                consumer_tag: "consumer"@,
                handling: DeliveryHandling::AckEach { ack_context: "basic ack error"@ },
            })
        }),
{
}

} // verus!
