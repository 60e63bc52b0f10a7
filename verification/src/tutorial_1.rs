//! The first version of the Hello World consumer, which connects by itself
//! and marks its panics with `[CONSUMER]`. It has no settings of its own: it
//! reads the Hello World queue `hello` under the Hello World consumer tag
//! `consumer`, and connects to the address that
//! `common::get_rabbitmq_address` resolves.

use vstd::prelude::*;
use crate::amqp::{DeliveryHandling, Operation, QueueOptions, QueueRef, Step};
use crate::common::{create_channel, create_channel_step, expect, expect_step, plain_queue};
use crate::hello_world::{CONSUMER_TAG, QUEUE_NAME};
use crate::session::step_views;

verus! {

/// The consumer: connect, open a channel, declare `hello`, consume from it,
/// acknowledging each message once its body is decoded.
pub open spec fn consumer_program(address: Seq<char>) -> Seq<Step<Seq<char>>> {
    seq![
        expect_step(Operation::Connect { address }, "[CONSUMER] connection error"@),
        create_channel_step("create channel error"@),
        expect_step(
            Operation::DeclareQueue { queue: QUEUE_NAME@, options: plain_queue() },
            "[CONSUMER] declare queue error"@,
        ),
        expect_step(
            Operation::Consume {
                queue: QueueRef::Named(QUEUE_NAME@),
                consumer_tag: CONSUMER_TAG@,
                handling: DeliveryHandling::AckEach { ack_context: "[CONSUMER] basic ack error"@ },
            },
            "[CONSUMER] basic consume error"@,
        ),
    ]
}

/// The consumer's program, for the broker at `address`.
pub fn consumer(address: String) -> (steps: Vec<Step<String>>)
    ensures
        step_views(steps@) == consumer_program(address@),
{
    let mut steps = Vec::new();
    steps.push(expect(Operation::Connect { address }, "[CONSUMER] connection error"));
    steps.push(create_channel("create channel error"));
    steps.push(
        expect(
            Operation::DeclareQueue {
                queue: String::from_str(QUEUE_NAME),
                options: QueueOptions { passive: false, durable: false, exclusive: false, auto_delete: false, nowait: false },
            },
            "[CONSUMER] declare queue error",
        ),
    );
    steps.push(
        expect(
            Operation::Consume {
                queue: QueueRef::Named(String::from_str(QUEUE_NAME)),
                consumer_tag: String::from_str(CONSUMER_TAG),
                handling: DeliveryHandling::AckEach { ack_context: String::from_str("[CONSUMER] basic ack error") },
            },
            "[CONSUMER] basic consume error",
        ),
    );
    assert(step_views(steps@) =~= consumer_program(address@));
    steps
}


/// This consumer declares the queue of the Hello World producer with the
/// same options, and reads the queue that the producer's routing key names.
pub proof fn lemma_consumer_matches_producer(producer_address: Seq<char>, consumer_address: Seq<char>)
    ensures
        ({
            let producer = crate::hello_world::producer_program(producer_address);
            let consumer = consumer_program(consumer_address);
            &&& producer[2].op == consumer[2].op
            &&& consumer[3].op is Consume
            &&& consumer[3].op->Consume_queue == QueueRef::Named(producer[3].op->Publish_routing_key)
        }),
{
}


/// This consumer connects to the given address, declares `hello` with every
/// flag off and consumes it under the tag `consumer`, acknowledging each
/// message once its body is decoded.
pub proof fn lemma_consumer_consumes(address: Seq<char>)
    ensures
        ({
            let program = consumer_program(address);
            &&& program[0].op == (Operation::Connect { address })
            &&& program[2].op == (Operation::DeclareQueue {
                queue: "hello"@,
                options: QueueOptions { passive: false, durable: false, exclusive: false, auto_delete: false, nowait: false },
            })
            &&& program[3].op == (Operation::Consume {
                queue: QueueRef::Named("hello"@),
                consumer_tag: "consumer"@,
                handling: DeliveryHandling::AckEach { ack_context: "[CONSUMER] basic ack error"@ },
            })
        }),
{
}

} // verus!
