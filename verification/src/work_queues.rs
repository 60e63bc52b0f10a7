//! Work Queues: a producer puts a task as a persistent message on the
//! durable queue `task_queue`; workers share that queue and acknowledge each
//! task once its body is decoded.

use vstd::prelude::*;
use crate::amqp::{DeliveryHandling, Operation, QueueOptions, QueueRef, Step};
use crate::common::{connect, connect_step, create_channel, create_channel_step, expect, expect_step};
use crate::session::step_views;
use crate::text::{join_from, seq_join, texts};

verus! {

/// The queue of the tutorial.
pub const QUEUE_NAME: &'static str = "task_queue";

/// The consumer tag of a worker.
pub const WORKER_TAG: &'static str = "consume_worker_tag";

/// A queue that outlives a restart of the broker.
pub open spec fn durable_queue() -> QueueOptions {
    QueueOptions { passive: false, durable: true, exclusive: false, auto_delete: false, nowait: false }
}

/// Declaring the durable queue `task_queue`.
pub open spec fn declare_queue_step() -> Step<Seq<char>> {
    expect_step(Operation::DeclareQueue { queue: QUEUE_NAME@, options: durable_queue() }, "declare queue error"@)
}

/// Declares the durable queue `task_queue`; a failure ends the program.
pub fn declare_queue() -> (step: Step<String>)
    ensures
        step@ == declare_queue_step(),
{
    expect(
        Operation::DeclareQueue {
            queue: String::from_str(QUEUE_NAME),
            options: QueueOptions { passive: false, durable: true, exclusive: false, auto_delete: false, nowait: false },
        },
        "declare queue error",
    )
}

/// The task sent when the command line gives none.
pub const DEFAULT_TASK: &'static str = "Hello World!";

/// The producer's task: its arguments after the program's path joined with
/// spaces, or the default task where there are none.
pub open spec fn task_message(args: Seq<Seq<char>>) -> Seq<char> {
    if args.len() < 2 {
        DEFAULT_TASK@
    } else {
        seq_join(args.skip(1), " "@)
    }
}

/// The producer: connect, open a channel, declare the durable `task_queue`,
/// publish the task through the default exchange with `task_queue` as
/// routing key, as a persistent message.
pub open spec fn producer_program(args: Seq<Seq<char>>, address: Seq<char>) -> Seq<Step<Seq<char>>> {
    seq![
        connect_step(address),
        create_channel_step("create channel error"@),
        declare_queue_step(),
        expect_step(
            Operation::Publish {
                exchange: Seq::empty(),
                routing_key: QUEUE_NAME@,
                message: task_message(args),
                persistent: true,
            },
            "basic publish error"@,
        ),
    ]
}

/// The producer's program, given its command-line arguments (the program's
/// path first) and the broker's address.
pub fn producer(args: &Vec<String>, address: String) -> (steps: Vec<Step<String>>)
    ensures
        step_views(steps@) == producer_program(texts(args@), address@),
{
    let message = if args.len() < 2 {
        String::from_str(DEFAULT_TASK)
    } else {
        join_from(args, 1, " ")
    };
    let mut steps = Vec::new();
    steps.push(connect(address));
    steps.push(create_channel("create channel error"));
    steps.push(declare_queue());
    steps.push(
        expect(
            Operation::Publish {
                exchange: String::new(),
                routing_key: String::from_str(QUEUE_NAME),
                message,
                persistent: true,
            },
            "basic publish error",
        ),
    );
    assert(step_views(steps@) =~= producer_program(texts(args@), address@));
    steps
}

/// A worker: connect, open a channel, declare `task_queue`, consume from it,
/// acknowledging each task once its body is decoded.
pub open spec fn worker_program(address: Seq<char>) -> Seq<Step<Seq<char>>> {
    seq![
        connect_step(address),
        create_channel_step("create channel error"@),
        declare_queue_step(),
        expect_step(
            Operation::Consume {
                queue: QueueRef::Named(QUEUE_NAME@),
                consumer_tag: WORKER_TAG@,
                handling: DeliveryHandling::AckEach { ack_context: "basic ack error"@ },
            },
            "basic consume error"@,
        ),
    ]
}

/// A worker's program, for the broker at `address`.
pub fn worker(address: String) -> (steps: Vec<Step<String>>)
    ensures
        step_views(steps@) == worker_program(address@),
{
    let mut steps = Vec::new();
    steps.push(connect(address));
    steps.push(create_channel("create channel error"));
    steps.push(declare_queue());
    steps.push(
        expect(
            Operation::Consume {
                queue: QueueRef::Named(String::from_str(QUEUE_NAME)),
                consumer_tag: String::from_str(WORKER_TAG),
                handling: DeliveryHandling::AckEach { ack_context: String::from_str("basic ack error") },
            },
            "basic consume error",
        ),
    );
    assert(step_views(steps@) =~= worker_program(address@));
    steps
}


/// The producer and every worker declare the durable `task_queue` alike; the
/// producer publishes its task as a persistent message through the default
/// exchange with the name of the queue the workers read as routing key, so
/// the task reaches that queue and is kept there across a broker restart.
pub proof fn lemma_producer_feeds_workers(args: Seq<Seq<char>>, producer_address: Seq<char>, worker_address: Seq<char>)
    ensures
        ({
            let producer = producer_program(args, producer_address);
            let worker = worker_program(worker_address);
            &&& producer[2] == worker[2]
            &&& producer[2].op->DeclareQueue_options.durable
            &&& producer[3].op is Publish
            &&& producer[3].op->Publish_exchange.len() == 0
            &&& producer[3].op->Publish_persistent
            &&& worker[3].op is Consume
            &&& worker[3].op->Consume_queue == QueueRef::Named(producer[3].op->Publish_routing_key)
        }),
{
}


/// What the task producer does with its arguments: it connects to the given
/// address, declares `task_queue` as a durable queue, and publishes to the
/// default exchange with `task_queue` as routing key, as a persistent
/// message. The task is the arguments after the program's path joined with
/// single spaces (the second argument itself where it is the last), and
/// `Hello World!` only where there are none.
pub proof fn lemma_producer_publishes(args: Seq<Seq<char>>, address: Seq<char>)
    ensures
        ({
            let program = producer_program(args, address);
            &&& program.len() == 4
            &&& program[0].op == (Operation::Connect { address })
            &&& program[2].op == (Operation::DeclareQueue {
                queue: "task_queue"@,
                options: QueueOptions { passive: false, durable: true, exclusive: false, auto_delete: false, nowait: false },
            })
            &&& program[3].op is Publish
            &&& program[3].op->Publish_exchange.len() == 0
            &&& program[3].op->Publish_routing_key == "task_queue"@
            &&& program[3].op->Publish_persistent
            &&& (args.len() < 2 ==> program[3].op->Publish_message == "Hello World!"@)
            &&& (args.len() == 2 ==> program[3].op->Publish_message == args[1])
            &&& (args.len() >= 2 ==> program[3].op->Publish_message == seq_join(args.skip(1), " "@))
        }),
{
    if args.len() == 2 {
        assert(args.skip(1).len() == 1);
        assert(args.skip(1)[0] == args[1]);
    }
}

/// A worker connects to the given address, declares `task_queue` as a
/// durable queue and consumes it under the tag `consume_worker_tag`,
/// acknowledging each task once its body is decoded.
pub proof fn lemma_worker_consumes(address: Seq<char>)
    ensures
        ({
            let program = worker_program(address);
            &&& program[0].op == (Operation::Connect { address })
            &&& program[2].op == (Operation::DeclareQueue {
                queue: "task_queue"@,
                options: QueueOptions { passive: false, durable: true, exclusive: false, auto_delete: false, nowait: false },
            })
            &&& program[3].op == (Operation::Consume {
                queue: QueueRef::Named("task_queue"@),
                consumer_tag: "consume_worker_tag"@,
                handling: DeliveryHandling::AckEach { ack_context: "basic ack error"@ },
            })
        }),
{
}

} // verus!
