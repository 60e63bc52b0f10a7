//! Topics: an emitter publishes to the topic exchange `topic_logs` with a
//! dotted routing key, and each receiver binds its own queue once per binding
//! pattern it is given.

use vstd::prelude::*;
use crate::amqp::{DeliveryHandling, ExchangeKind, ExchangeOptions, Operation, QueueOptions, QueueRef, Step};
use crate::common::{
    connect, connect_step, create_channel, create_channel_step, exclusive_queue_options, expect, expect_step,
    ignore, ignore_step, program_view, UsageError, WAITING_NOTICE,
};
use crate::session::step_views;
use crate::text::{join_from, seq_join, texts};

verus! {

/// The exchange of the tutorial.
pub const EXCHANGE_NAME: &'static str = "topic_logs";

/// The routing key used when the command line gives none.
pub const DEFAULT_ROUTING_KEY: &'static str = "anonymous.info";

/// The message sent when the command line gives none.
pub const DEFAULT_MESSAGE: &'static str = "Hello World!";

/// What a receiver panics with when no binding key is given.
pub const MISSING_BINDING_KEY: &'static str = "Binding Key didn't find in arguments.";

/// The consumer tag of a receiver.
pub const RECEIVER_TAG: &'static str = "receive_logs_topic";

/// Declaring the topic exchange `topic_logs` with every flag off; a failure
/// is passed over.
pub open spec fn declare_exchange_step() -> Step<Seq<char>> {
    ignore_step(
        Operation::DeclareExchange {
            exchange: EXCHANGE_NAME@,
            kind: ExchangeKind::Topic,
            options: ExchangeOptions { passive: false, durable: false, auto_delete: false, internal: false, nowait: false },
        },
    )
}

/// Declares the topic exchange `topic_logs`, passing over a failure.
pub fn declare_exchange() -> (step: Step<String>)
    ensures
        step@ == declare_exchange_step(),
{
    ignore(
        Operation::DeclareExchange {
            exchange: String::from_str(EXCHANGE_NAME),
            kind: ExchangeKind::Topic,
            options: ExchangeOptions { passive: false, durable: false, auto_delete: false, internal: false, nowait: false },
        },
    )
}

/// The emitter's routing key: the first argument, or the default one.
pub open spec fn topic_routing_key(args: Seq<Seq<char>>) -> Seq<char> {
    if args.len() < 2 {
        DEFAULT_ROUTING_KEY@
    } else {
        args[1]
    }
}

/// The emitter's message: the arguments after the routing key joined with
/// spaces, or the default message where there are none.
pub open spec fn topic_message(args: Seq<Seq<char>>) -> Seq<char> {
    if args.len() < 3 {
        DEFAULT_MESSAGE@
    } else {
        seq_join(args.skip(2), " "@)
    }
}

/// The emitter: connect, open a channel, declare `topic_logs`, publish the
/// message to it with the routing key.
pub open spec fn emit_log_topic_program(args: Seq<Seq<char>>, address: Seq<char>) -> Seq<Step<Seq<char>>> {
    seq![
        connect_step(address),
        create_channel_step("create channel error"@),
        declare_exchange_step(),
        expect_step(
            Operation::Publish {
                exchange: EXCHANGE_NAME@,
                routing_key: topic_routing_key(args),
                message: topic_message(args),
                persistent: false,
            },
            "basic publish error"@,
        ),
    ]
}

/// The emitter's program, given its command-line arguments (the program's
/// path first) and the broker's address.
pub fn emit_log_topic(args: &Vec<String>, address: String) -> (steps: Vec<Step<String>>)
    ensures
        step_views(steps@) == emit_log_topic_program(texts(args@), address@),
{
    let routing_key = if args.len() < 2 {
        String::from_str(DEFAULT_ROUTING_KEY)
    } else {
        args[1].clone()
    };
    let message = if args.len() < 3 {
        String::from_str(DEFAULT_MESSAGE)
    } else {
        join_from(args, 2, " ")
    };
    let mut steps = Vec::new();
    steps.push(connect(address));
    steps.push(create_channel("create channel error"));
    steps.push(declare_exchange());
    steps.push(
        expect(
            Operation::Publish { exchange: String::from_str(EXCHANGE_NAME), routing_key, message, persistent: false },
            "basic publish error",
        ),
    );
    assert(step_views(steps@) =~= emit_log_topic_program(texts(args@), address@));
    steps
}

/// Binding a receiver's queue to `topic_logs` with one binding key.
pub open spec fn binding_step(key: Seq<char>) -> Step<Seq<char>> {
    expect_step(
        Operation::BindQueue { queue: QueueRef::Declared, exchange: EXCHANGE_NAME@, routing_key: key },
        "queue bind error"@,
    )
}

/// The steps that open a receiver: connect, open a channel, declare
/// `topic_logs`, declare a queue of its own that the broker names.
pub open spec fn receiver_setup(address: Seq<char>) -> Seq<Step<Seq<char>>> {
    seq![
        connect_step(address),
        create_channel_step("create queue error"@),
        declare_exchange_step(),
        expect_step(
            Operation::DeclareQueue { queue: Seq::empty(), options: exclusive_queue_options() },
            "declare queue error"@,
        ),
    ]
}

/// The steps that close a receiver: consume from its queue, acknowledging
/// each message and then printing it, and print the waiting notice.
pub open spec fn receiver_consume() -> Seq<Step<Seq<char>>> {
    seq![
        expect_step(
            Operation::Consume {
                queue: QueueRef::Declared,
                consumer_tag: RECEIVER_TAG@,
                handling: DeliveryHandling::AckThenPrint { ack_context: "basic ack error"@ },
            },
            "basic consume error"@,
        ),
        ignore_step(Operation::Print { line: WAITING_NOTICE@ }),
    ]
}

/// The receiver: with at least one binding key, the setup, one binding per
/// key in order, then the consumer. Without keys the arguments are refused.
pub open spec fn receive_logs_topic_program(args: Seq<Seq<char>>, address: Seq<char>) -> Result<
    Seq<Step<Seq<char>>>,
    UsageError<Seq<char>>,
> {
    if args.len() < 2 {
        Err(UsageError::MissingArgument { message: MISSING_BINDING_KEY@ })
    } else {
        Ok(receiver_setup(address) + args.skip(1).map_values(|key: Seq<char>| binding_step(key)) + receiver_consume())
    }
}

/// The receiver's program, given its command-line arguments (the program's
/// path first) and the broker's address.
pub fn receive_logs_topic(args: &Vec<String>, address: String) -> (program: Result<Vec<Step<String>>, UsageError<String>>)
    ensures
        program_view(program) == receive_logs_topic_program(texts(args@), address@),
{
    if args.len() < 2 {
        return Err(UsageError::MissingArgument { message: String::from_str(MISSING_BINDING_KEY) });
    }
    let ghost all = texts(args@);
    let mut steps = Vec::new();
    steps.push(connect(address));
    steps.push(create_channel("create queue error"));
    steps.push(declare_exchange());
    steps.push(
        expect(
            Operation::DeclareQueue {
                queue: String::new(),
                options: QueueOptions { passive: false, durable: false, exclusive: true, auto_delete: false, nowait: false },
            },
            "declare queue error",
        ),
    );
    let ghost setup = receiver_setup(address@);
    assert(step_views(steps@) =~= setup);
    let mut i: usize = 1;
    while i < args.len()
        invariant
            1 <= i <= args.len(),
            all == texts(args@),
            step_views(steps@) == setup + all.skip(1).take(i - 1).map_values(|key: Seq<char>| binding_step(key)),
        decreases args.len() - i,
    {
        let ghost before = step_views(steps@);
        let step = expect(
            Operation::BindQueue {
                queue: QueueRef::Declared,
                exchange: String::from_str(EXCHANGE_NAME),
                routing_key: args[i].clone(),
            },
            "queue bind error",
        );
        assert(step@ == binding_step(all[i as int]));
        steps.push(step);
        assert(all.skip(1).take(i as int) =~= all.skip(1).take(i - 1).push(all[i as int]));
        assert(step_views(steps@) =~= before.push(step@));
        i = i + 1;
    }
    assert(all.skip(1).take(i - 1) =~= all.skip(1));
    steps.push(
        expect(
            Operation::Consume {
                queue: QueueRef::Declared,
                consumer_tag: String::from_str(RECEIVER_TAG),
                handling: DeliveryHandling::AckThenPrint { ack_context: String::from_str("basic ack error") },
            },
            "basic consume error",
        ),
    );
    steps.push(ignore(Operation::Print { line: String::from_str(WAITING_NOTICE) }));
    assert(step_views(steps@) =~= receive_logs_topic_program(all, address@)->Ok_0);
    Ok(steps)
}


/// The emitter and every receiver declare `topic_logs` alike. The emitter
/// publishes to it with its first argument (or `anonymous.info`) as routing
/// key; a receiver binds its queue to it once per argument, in order, with
/// the argument as written as binding pattern, and then consumes that queue.
pub proof fn lemma_topic_bindings(
    emitter_args: Seq<Seq<char>>,
    receiver_args: Seq<Seq<char>>,
    emitter_address: Seq<char>,
    receiver_address: Seq<char>,
)
    requires
        receiver_args.len() >= 2,
    ensures
        ({
            let emitter = emit_log_topic_program(emitter_args, emitter_address);
            let receiver = receive_logs_topic_program(receiver_args, receiver_address)->Ok_0;
            &&& emitter[2] == receiver[2]
            &&& emitter[3].op == Operation::Publish {
                exchange: EXCHANGE_NAME@,
                routing_key: topic_routing_key(emitter_args),
                message: topic_message(emitter_args),
                persistent: false,
            }
            &&& receiver.len() == receiver_args.len() + 5
            &&& forall|j: int|
                1 <= j < receiver_args.len() ==> #[trigger] receiver[j + 3].op == Operation::BindQueue {
                    queue: QueueRef::Declared,
                    exchange: EXCHANGE_NAME@,
                    routing_key: receiver_args[j],
                }
            &&& receiver[receiver_args.len() + 3int].op is Consume
            &&& receiver[receiver_args.len() + 3int].op->Consume_queue == QueueRef::<Seq<char>>::Declared
        }),
{
    let receiver = receive_logs_topic_program(receiver_args, receiver_address)->Ok_0;
    let binds = receiver_args.skip(1).map_values(|key: Seq<char>| binding_step(key));
    assert(receiver == receiver_setup(receiver_address) + binds + receiver_consume());
    assert forall|j: int| 1 <= j < receiver_args.len() implies #[trigger] receiver[j + 3].op == Operation::BindQueue {
        queue: QueueRef::Declared,
        exchange: EXCHANGE_NAME@,
        routing_key: receiver_args[j],
    } by {
        assert(receiver[j + 3] == binds[j - 1]);
    }
    assert(receiver[receiver_args.len() + 3int] == receiver_consume()[0]);
}


/// What the topic emitter does with its arguments: it connects to the given
/// address, declares `topic_logs` as a topic exchange, and publishes to it.
/// The routing key is the second argument, or `anonymous.info` where there
/// is none. The message is the arguments from the third on joined with
/// single spaces (the third itself where it is the last), and `Hello World!`
/// only where there are fewer than three arguments.
pub proof fn lemma_emit_log_topic_publishes(args: Seq<Seq<char>>, address: Seq<char>)
    ensures
        ({
            let program = emit_log_topic_program(args, address);
            let publish = program[3].op;
            &&& program.len() == 4
            &&& program[0].op == (Operation::Connect { address })
            &&& program[2].op == (Operation::DeclareExchange {
                exchange: "topic_logs"@,
                kind: ExchangeKind::Topic,
                options: ExchangeOptions { passive: false, durable: false, auto_delete: false, internal: false, nowait: false },
            })
            &&& publish is Publish
            &&& publish->Publish_exchange == "topic_logs"@
            &&& (args.len() < 2 ==> publish->Publish_routing_key == "anonymous.info"@)
            &&& (args.len() >= 2 ==> publish->Publish_routing_key == args[1])
            &&& !publish->Publish_persistent
            &&& (args.len() < 3 ==> publish->Publish_message == "Hello World!"@)
            &&& (args.len() == 3 ==> publish->Publish_message == args[2])
            &&& (args.len() >= 3 ==> publish->Publish_message == seq_join(args.skip(2), " "@))
        }),
{
    if args.len() == 3 {
        assert(args.skip(2).len() == 1);
        assert(args.skip(2)[0] == args[2]);
    }
}

/// The topic receiver needs at least one binding key; it connects to the
/// given address, declares `topic_logs` as a topic exchange, declares a queue
/// with an empty name (the broker names it) that is exclusive to its
/// connection and not durable, and consumes that queue under the tag
/// `receive_logs_topic`, acknowledging each message before printing it.
pub proof fn lemma_receive_logs_topic_queue(args: Seq<Seq<char>>, address: Seq<char>)
    ensures
        receive_logs_topic_program(args, address) is Err <==> args.len() < 2,
        args.len() >= 2 ==> ({
            let program = receive_logs_topic_program(args, address)->Ok_0;
            &&& program[0].op == (Operation::Connect { address })
            &&& program[2].op == (Operation::DeclareExchange {
                exchange: "topic_logs"@,
                kind: ExchangeKind::Topic,
                options: ExchangeOptions { passive: false, durable: false, auto_delete: false, internal: false, nowait: false },
            })
            &&& program[3].op == (Operation::DeclareQueue {
                queue: Seq::<char>::empty(),
                options: QueueOptions { passive: false, durable: false, exclusive: true, auto_delete: false, nowait: false },
            })
            &&& program[args.len() + 3int].op == (Operation::Consume {
                queue: QueueRef::Declared,
                consumer_tag: "receive_logs_topic"@,
                handling: DeliveryHandling::AckThenPrint { ack_context: "basic ack error"@ },
            })
        }),
{
    if args.len() >= 2 {
        let program = receive_logs_topic_program(args, address)->Ok_0;
        let binds = args.skip(1).map_values(|key: Seq<char>| binding_step(key));
        assert(program == receiver_setup(address) + binds + receiver_consume());
        assert(program[args.len() + 3int] == receiver_consume()[0]);
    }
}

} // verus!
