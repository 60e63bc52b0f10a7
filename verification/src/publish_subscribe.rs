//! Publish/Subscribe: an emitter broadcasts a log line through the fanout
//! exchange `logs`, and every receiver gets it in a queue of its own.

use vstd::prelude::*;
use crate::amqp::{DeliveryHandling, ExchangeKind, ExchangeOptions, Operation, QueueOptions, QueueRef, Step};
use crate::common::{
    connect, connect_step, create_channel, create_channel_step, exclusive_queue_options, expect, expect_step,
    ignore, ignore_step,
};
use crate::session::step_views;
use crate::text::{join_from, seq_join, texts};

verus! {

/// The exchange of the tutorial.
pub const EXCHANGE_NAME: &'static str = "logs";

/// The message sent when there are no command-line arguments.
pub const DEFAULT_MESSAGE: &'static str = "info: Hello World!";

/// The consumer tag of a receiver.
pub const RECEIVER_TAG: &'static str = "receive_log";

/// The notice a receiver prints once its queue is declared.
pub const WAITING_NOTICE: &'static str = "[*] Waiting for logs. To exist press Ctrl + C";

/// Declaring the fanout exchange `logs` with every flag off.
pub open spec fn declare_exchange_step() -> Step<Seq<char>> {
    expect_step(
        Operation::DeclareExchange {
            exchange: EXCHANGE_NAME@,
            kind: ExchangeKind::Fanout,
            options: ExchangeOptions { passive: false, durable: false, auto_delete: false, internal: false, nowait: false },
        },
        "exchange error"@,
    )
}

/// Declares the fanout exchange `logs`; a failure ends the program.
pub fn declare_exchange() -> (step: Step<String>)
    ensures
        step@ == declare_exchange_step(),
{
    expect(
        Operation::DeclareExchange {
            exchange: String::from_str(EXCHANGE_NAME),
            kind: ExchangeKind::Fanout,
            options: ExchangeOptions { passive: false, durable: false, auto_delete: false, internal: false, nowait: false },
        },
        "exchange error",
    )
}

/// The message of the emitter: its command-line arguments (the program's
/// own path among them) joined with spaces, or the default message where
/// there are none.
pub open spec fn emit_log_message(args: Seq<Seq<char>>) -> Seq<char> {
    if args.len() == 0 {
        DEFAULT_MESSAGE@
    } else {
        seq_join(args, " "@)
    }
}

/// The emitter: connect, open a channel, declare `logs`, publish the message
/// to it with an empty routing key.
pub open spec fn emit_log_program(args: Seq<Seq<char>>, address: Seq<char>) -> Seq<Step<Seq<char>>> {
    seq![
        connect_step(address),
        create_channel_step("create channel error "@),
        declare_exchange_step(),
        expect_step(
            Operation::Publish {
                exchange: EXCHANGE_NAME@,
                routing_key: Seq::empty(),
                message: emit_log_message(args),
                persistent: false,
            },
            "basic publish error"@,
        ),
    ]
}

/// The emitter's program, given its command-line arguments and the broker's
/// address.
pub fn emit_log(args: &Vec<String>, address: String) -> (steps: Vec<Step<String>>)
    ensures
        step_views(steps@) == emit_log_program(texts(args@), address@),
{
    let message = if args.len() == 0 {
        String::from_str(DEFAULT_MESSAGE)
    } else {
        let joined = join_from(args, 0, " ");
        assert(texts(args@).skip(0) =~= texts(args@));
        joined
    };
    let mut steps = Vec::new();
    steps.push(connect(address));
    steps.push(create_channel("create channel error "));
    steps.push(declare_exchange());
    steps.push(
        expect(
            Operation::Publish { exchange: String::from_str(EXCHANGE_NAME), routing_key: String::new(), message, persistent: false },
            "basic publish error",
        ),
    );
    assert(step_views(steps@) =~= emit_log_program(texts(args@), address@));
    steps
}

/// The receiver: connect, open a channel, declare `logs`, declare a queue of
/// its own that the broker names, print the waiting notice, bind the queue to
/// `logs` (passing over a failure), consume from it, acknowledging each
/// message once its body is decoded.
pub open spec fn receive_log_program(address: Seq<char>) -> Seq<Step<Seq<char>>> {
    seq![
        connect_step(address),
        create_channel_step("create channel error"@),
        declare_exchange_step(),
        expect_step(
            Operation::DeclareQueue { queue: Seq::empty(), options: exclusive_queue_options() },
            "declare queue error"@,
        ),
        ignore_step(Operation::Print { line: WAITING_NOTICE@ }),
        ignore_step(
            Operation::BindQueue { queue: QueueRef::Declared, exchange: EXCHANGE_NAME@, routing_key: Seq::empty() },
        ),
        expect_step(
            Operation::Consume {
                queue: QueueRef::Declared,
                consumer_tag: RECEIVER_TAG@,
                handling: DeliveryHandling::AckEach { ack_context: "basic ack error"@ },
            },
            "basic consume error"@,
        ),
    ]
}

/// The receiver's program, for the broker at `address`.
pub fn receive_log(address: String) -> (steps: Vec<Step<String>>)
    ensures
        step_views(steps@) == receive_log_program(address@),
{
    let mut steps = Vec::new();
    steps.push(connect(address));
    steps.push(create_channel("create channel error"));
    steps.push(declare_exchange());
    steps.push(
        expect(
            Operation::DeclareQueue {
                queue: String::new(),
                options: QueueOptions { passive: false, durable: false, exclusive: true, auto_delete: false, nowait: false },
            },
            "declare queue error",
        ),
    );
    steps.push(ignore(Operation::Print { line: String::from_str(WAITING_NOTICE) }));
    steps.push(
        ignore(
            Operation::BindQueue {
                queue: QueueRef::Declared,
                exchange: String::from_str(EXCHANGE_NAME),
                routing_key: String::new(),
            },
        ),
    );
    steps.push(
        expect(
            Operation::Consume {
                queue: QueueRef::Declared,
                consumer_tag: String::from_str(RECEIVER_TAG),
                handling: DeliveryHandling::AckEach { ack_context: String::from_str("basic ack error") },
            },
            "basic consume error",
        ),
    );
    assert(step_views(steps@) =~= receive_log_program(address@));
    steps
}


/// The emitter and every receiver declare the exchange `logs` alike; each
/// receiver binds the queue it declared (and then consumes) to the exchange
/// the emitter publishes to, so every receiver gets every message.
pub proof fn lemma_emitter_reaches_receivers(args: Seq<Seq<char>>, emitter_address: Seq<char>, receiver_address: Seq<char>)
    ensures
        ({
            let emitter = emit_log_program(args, emitter_address);
            let receiver = receive_log_program(receiver_address);
            &&& emitter[2] == receiver[2]
            &&& emitter[3].op is Publish
            &&& receiver[3].op is DeclareQueue
            &&& receiver[5].op == Operation::BindQueue {
                queue: QueueRef::Declared,
                exchange: emitter[3].op->Publish_exchange,
                routing_key: Seq::empty(),
            }
            &&& receiver[6].op is Consume
            &&& receiver[6].op->Consume_queue == QueueRef::<Seq<char>>::Declared
        }),
{
}


/// What the fanout emitter does with its arguments: it connects to the given
/// address, declares `logs` as a fanout exchange, and publishes to it with an
/// empty routing key. The message is all its arguments (the program's path
/// among them) joined with single spaces, the only one itself where there is
/// one, and `info: Hello World!` only where there are none.
pub proof fn lemma_emit_log_publishes(args: Seq<Seq<char>>, address: Seq<char>)
    ensures
        ({
            let program = emit_log_program(args, address);
            let publish = program[3].op;
            &&& program.len() == 4
            &&& program[0].op == (Operation::Connect { address })
            &&& program[2].op == (Operation::DeclareExchange {
                exchange: "logs"@,
                kind: ExchangeKind::Fanout,
                options: ExchangeOptions { passive: false, durable: false, auto_delete: false, internal: false, nowait: false },
            })
            &&& publish is Publish
            &&& publish->Publish_exchange == "logs"@
            &&& publish->Publish_routing_key.len() == 0
            &&& !publish->Publish_persistent
            &&& (args.len() == 0 ==> publish->Publish_message == "info: Hello World!"@)
            &&& (args.len() == 1 ==> publish->Publish_message == args[0])
            &&& (args.len() >= 1 ==> publish->Publish_message == seq_join(args, " "@))
        }),
{
}

/// The fanout receiver connects to the given address, declares `logs` as a
/// fanout exchange, declares a queue with an empty name (the broker names
/// it) that is exclusive to its connection and not durable, binds that queue
/// to `logs`, and consumes it under the tag `receive_log`, acknowledging each
/// message once its body is decoded.
pub proof fn lemma_receive_log_queue(address: Seq<char>)
    ensures
        ({
            let program = receive_log_program(address);
            &&& program[0].op == (Operation::Connect { address })
            &&& program[2].op == (Operation::DeclareExchange {
                exchange: "logs"@,
                kind: ExchangeKind::Fanout,
                options: ExchangeOptions { passive: false, durable: false, auto_delete: false, internal: false, nowait: false },
            })
            &&& program[3].op == (Operation::DeclareQueue {
                queue: Seq::<char>::empty(),
                options: QueueOptions { passive: false, durable: false, exclusive: true, auto_delete: false, nowait: false },
            })
            &&& program[5].op == (Operation::BindQueue {
                queue: QueueRef::Declared,
                exchange: "logs"@,
                routing_key: Seq::empty(),
            })
            &&& program[6].op == (Operation::Consume {
                queue: QueueRef::Declared,
                consumer_tag: "receive_log"@,
                handling: DeliveryHandling::AckEach { ack_context: "basic ack error"@ },
            })
        }),
{
}

} // verus!
