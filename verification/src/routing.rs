//! Routing: an emitter publishes a log line to the direct exchange
//! `direct_log` with its severity as routing key, and each receiver binds its
//! own queue once per severity it wants.

use vstd::prelude::*;
use vstd::std_specs::convert::TryFromSpecImpl;
use crate::amqp::{DeliveryHandling, ExchangeKind, ExchangeOptions, Fault, Operation, QueueOptions, QueueRef, Step};
use crate::common::{
    connect, connect_step, create_channel, create_channel_step, exclusive_queue_options, expect, expect_step,
    ignore, ignore_step, program_view, UsageError, WAITING_NOTICE,
};
use crate::session::step_views;
use crate::text::{join_from, seq_join, texts};

verus! {

/// The importance of a log message. On the direct exchange of the routing
/// tutorial its text is the routing key of the message.
#[derive(Clone, Copy, Debug, PartialEq, Eq, Structural)]
pub enum Severity {
    Info,
    Warn,
    Error,
}

/// The text of a severity: `info`, `warn` or `error`.
pub open spec fn severity_text(severity: Severity) -> Seq<char> {
    match severity {
        Severity::Info => "info"@,
        Severity::Warn => "warn"@,
        Severity::Error => "error"@,
    }
}

/// The severity whose text is `text`, if there is one.
pub open spec fn parse_severity(text: Seq<char>) -> Option<Severity> {
    if text == "info"@ {
        Some(Severity::Info)
    } else if text == "warn"@ {
        Some(Severity::Warn)
    } else if text == "error"@ {
        Some(Severity::Error)
    } else {
        None
    }
}

/// The message with which an unknown severity text is refused.
pub open spec fn unknown_severity_message(text: Seq<char>) -> Seq<char> {
    "不明な重要度("@ + text + ")です。"@
}

impl<'a> TryFrom<&'a str> for Severity {
    type Error = String;

    /// Reads a severity from its text; any other text is refused with a
    /// message that quotes it.
    fn try_from(value: &'a str) -> (result: Result<Severity, String>)
        ensures
            match parse_severity(value@) {
                Some(severity) => result == Ok::<Severity, String>(severity),
                None => result matches Err(message) && message@ == unknown_severity_message(value@),
            },
    {
        let owned = value.to_owned();
        if owned == String::from_str("info") {
            Ok(Severity::Info)
        } else if owned == String::from_str("warn") {
            Ok(Severity::Warn)
        } else if owned == String::from_str("error") {
            Ok(Severity::Error)
        } else {
            let mut message = String::from_str("不明な重要度(");
            message.append(value);
            message.append(")です。");
            Err(message)
        }
    }
}

/// The refusal is a `String` built at run time, which a spec function cannot
/// name, so the generic `TryFrom` contract is not claimed; the contract of
/// `Severity::try_from` itself states the result exactly.
impl<'a> TryFromSpecImpl<&'a str> for Severity {
    open spec fn obeys_try_from_spec() -> bool {
        false
    }

    open spec fn try_from_spec(value: &'a str) -> Result<Severity, String> {
        arbitrary()
    }
}

impl Severity {
    /// The text of the severity, as it is printed and used as a routing key.
    pub fn to_string(&self) -> (text: String)
        ensures
            text@ == severity_text(*self),
    {
        match self {
            Severity::Info => String::from_str("info"),
            Severity::Warn => String::from_str("warn"),
            Severity::Error => String::from_str("error"),
        }
    }
}

/// Reading the text of a severity gives that severity back.
pub proof fn lemma_parse_severity_text(severity: Severity)
    ensures
        parse_severity(severity_text(severity)) == Some(severity),
{
    reveal_strlit("info");
    reveal_strlit("warn");
    reveal_strlit("error");
    assert("warn"@[0] != "info"@[0]);
    assert("error"@.len() != "info"@.len());
    assert("error"@.len() != "warn"@.len());
}

/// A text that is read as a severity is exactly the text of that severity.
pub proof fn lemma_severity_text_of_parse(text: Seq<char>)
    ensures
        parse_severity(text) matches Some(severity) ==> severity_text(severity) == text,
{
}

/// Two severities with the same text are the same severity.
pub proof fn lemma_severity_text_injective(a: Severity, b: Severity)
    ensures
        severity_text(a) == severity_text(b) ==> a == b,
{
    lemma_parse_severity_text(a);
    lemma_parse_severity_text(b);
}


/// The exchange of the tutorial.
pub const EXCHANGE_NAME: &'static str = "direct_log";

/// The message sent when the command line gives none.
pub const DEFAULT_MESSAGE: &'static str = "Hello World!";

/// What a program of this tutorial panics with when no severity is given.
pub const MISSING_SEVERITY: &'static str = "Severity didn't find in arguments.";

/// The consumer tag of a receiver.
pub const RECEIVER_TAG: &'static str = "receive_logs_direct";

/// Declaring the direct exchange `direct_log` with every flag off; a failure
/// is passed over.
pub open spec fn declare_exchange_step() -> Step<Seq<char>> {
    ignore_step(
        Operation::DeclareExchange {
            exchange: EXCHANGE_NAME@,
            kind: ExchangeKind::Direct,
            options: ExchangeOptions { passive: false, durable: false, auto_delete: false, internal: false, nowait: false },
        },
    )
}

/// Declares the direct exchange `direct_log`, passing over a failure.
pub fn declare_exchange() -> (step: Step<String>)
    ensures
        step@ == declare_exchange_step(),
{
    ignore(
        Operation::DeclareExchange {
            exchange: String::from_str(EXCHANGE_NAME),
            kind: ExchangeKind::Direct,
            options: ExchangeOptions { passive: false, durable: false, auto_delete: false, internal: false, nowait: false },
        },
    )
}

/// The emitter's message: the arguments after the severity joined with
/// spaces, or the default message where there are none.
pub open spec fn direct_message(args: Seq<Seq<char>>) -> Seq<char> {
    if args.len() == 2 {
        DEFAULT_MESSAGE@
    } else {
        seq_join(args.skip(2), " "@)
    }
}

/// The emitter: with a severity as its first argument, connect, open a
/// channel, declare `direct_log`, publish the message to it with the
/// severity's text as routing key. Without one, or with another word, the
/// arguments are refused.
pub open spec fn emit_log_direct_program(args: Seq<Seq<char>>, address: Seq<char>) -> Result<
    Seq<Step<Seq<char>>>,
    UsageError<Seq<char>>,
> {
    if args.len() < 2 {
        Err(UsageError::MissingArgument { message: MISSING_SEVERITY@ })
    } else {
        match parse_severity(args[1]) {
            None => Err(UsageError::InvalidSeverity { message: unknown_severity_message(args[1]) }),
            Some(severity) => Ok(
                seq![
                    connect_step(address),
                    create_channel_step("create channel error"@),
                    declare_exchange_step(),
                    expect_step(
                        Operation::Publish {
                            exchange: EXCHANGE_NAME@,
                            routing_key: severity_text(severity),
                            message: direct_message(args),
                            persistent: false,
                        },
                        "basic publish error"@,
                    ),
                ],
            ),
        }
    }
}

/// The emitter's program, given its command-line arguments (the program's
/// path first) and the broker's address.
pub fn emit_log_direct(args: &Vec<String>, address: String) -> (program: Result<Vec<Step<String>>, UsageError<String>>)
    ensures
        program_view(program) == emit_log_direct_program(texts(args@), address@),
{
    if args.len() < 2 {
        return Err(UsageError::MissingArgument { message: String::from_str(MISSING_SEVERITY) });
    }
    let severity = match Severity::try_from(args[1].as_str()) {
        Ok(severity) => severity,
        Err(message) => return Err(UsageError::InvalidSeverity { message }),
    };
    let message = if args.len() == 2 {
        String::from_str(DEFAULT_MESSAGE)
    } else {
        join_from(args, 2, " ")
    };
    let mut steps = Vec::new();
    steps.push(connect(address));
    steps.push(create_channel("create channel error"));
    steps.push(declare_exchange());
    steps.push(
        expect(
            Operation::Publish { exchange: String::from_str(EXCHANGE_NAME), routing_key: severity.to_string(), message, persistent: false },
            "basic publish error",
        ),
    );
    assert(texts(args@)[1] == args@[1]@);
    assert(step_views(steps@) =~= emit_log_direct_program(texts(args@), address@)->Ok_0);
    Ok(steps)
}

/// The step for one severity argument of a receiver: bind its queue to
/// `direct_log` with the severity's text, or stop the program where the
/// argument is not a severity.
pub open spec fn binding_step(arg: Seq<char>) -> Step<Seq<char>> {
    match parse_severity(arg) {
        Some(severity) => expect_step(
            Operation::BindQueue {
                queue: QueueRef::Declared,
                exchange: EXCHANGE_NAME@,
                routing_key: severity_text(severity),
            },
            "binding error"@,
        ),
        None => ignore_step(
            Operation::Fail { fault: Fault::InvalidSeverity { message: unknown_severity_message(arg) } },
        ),
    }
}

/// The steps that open a receiver: connect, open a channel, declare
/// `direct_log`, declare a queue of its own that the broker names.
pub open spec fn receiver_setup(address: Seq<char>) -> Seq<Step<Seq<char>>> {
    seq![
        connect_step(address),
        create_channel_step("create channel error"@),
        declare_exchange_step(),
        expect_step(
            Operation::DeclareQueue { queue: Seq::empty(), options: exclusive_queue_options() },
            "declare queue error"@,
        ),
    ]
}

/// The steps that close a receiver: consume from its queue, printing each
/// message without acknowledging it, and print the waiting notice.
pub open spec fn receiver_consume() -> Seq<Step<Seq<char>>> {
    seq![
        expect_step(
            Operation::Consume {
                queue: QueueRef::Declared,
                consumer_tag: RECEIVER_TAG@,
                handling: DeliveryHandling::PrintOnly,
            },
            "basic consume error"@,
        ),
        ignore_step(Operation::Print { line: WAITING_NOTICE@ }),
    ]
}

/// The receiver: with at least one argument, the setup, one binding step per
/// argument in order, then the consumer. Without arguments they are refused.
pub open spec fn receive_logs_direct_program(args: Seq<Seq<char>>, address: Seq<char>) -> Result<
    Seq<Step<Seq<char>>>,
    UsageError<Seq<char>>,
> {
    if args.len() < 2 {
        Err(UsageError::MissingArgument { message: MISSING_SEVERITY@ })
    } else {
        Ok(receiver_setup(address) + args.skip(1).map_values(|arg: Seq<char>| binding_step(arg)) + receiver_consume())
    }
}

/// The receiver's program, given its command-line arguments (the program's
/// path first) and the broker's address.
pub fn receive_logs_direct(args: &Vec<String>, address: String) -> (program: Result<Vec<Step<String>>, UsageError<String>>)
    ensures
        program_view(program) == receive_logs_direct_program(texts(args@), address@),
{
    if args.len() < 2 {
        return Err(UsageError::MissingArgument { message: String::from_str(MISSING_SEVERITY) });
    }
    let ghost all = texts(args@);
    let mut steps = Vec::new();
    steps.push(connect(address));
    steps.push(create_channel("create channel error"));
    steps.push(declare_exchange());
    steps.push(
        expect(
            Operation::DeclareQueue {
                queue: String::new(),
                options: QueueOptions { passive: false, durable: false, exclusive: true, auto_delete: false, nowait: false },
            },
            "declare queue error",
        ),
    );
    assert(step_views(steps@) =~= receiver_setup(address@));
    let mut i: usize = 1;
    while i < args.len()
        invariant
            1 <= i <= args.len(),
            all == texts(args@),
            step_views(steps@) == receiver_setup(address@) + all.skip(1).take(i - 1).map_values(
                |arg: Seq<char>| binding_step(arg),
            ),
        decreases args.len() - i,
    {
        let ghost before = step_views(steps@);
        let step = match Severity::try_from(args[i].as_str()) {
            Ok(severity) => expect(
                Operation::BindQueue {
                    queue: QueueRef::Declared,
                    exchange: String::from_str(EXCHANGE_NAME),
                    routing_key: severity.to_string(),
                },
                "binding error",
            ),
            Err(message) => ignore(Operation::Fail { fault: Fault::InvalidSeverity { message } }),
        };
        assert(step@ == binding_step(all[i as int]));
        steps.push(step);
        assert(all.skip(1).take(i as int) =~= all.skip(1).take(i - 1).push(all[i as int]));
        assert(step_views(steps@) =~= before.push(step@));
        i = i + 1;
    }
    assert(all.skip(1).take(i - 1) =~= all.skip(1));
    steps.push(
        expect(
            Operation::Consume {
                queue: QueueRef::Declared,
                consumer_tag: String::from_str(RECEIVER_TAG),
                handling: DeliveryHandling::PrintOnly,
            },
            "basic consume error",
        ),
    );
    steps.push(ignore(Operation::Print { line: String::from_str(WAITING_NOTICE) }));
    assert(step_views(steps@) =~= receive_logs_direct_program(all, address@)->Ok_0);
    Ok(steps)
}


/// The emitter and every receiver declare `direct_log` alike. The emitter
/// publishes with its severity argument, as written, as routing key; a
/// receiver whose arguments are all severities binds its queue to
/// `direct_log` once per argument, in order, with the argument as binding
/// key, and never stops early. So a receiver that names the emitter's
/// severity holds a binding that the direct exchange matches to the message.
pub proof fn lemma_direct_routing(
    emitter_args: Seq<Seq<char>>,
    receiver_args: Seq<Seq<char>>,
    emitter_address: Seq<char>,
    receiver_address: Seq<char>,
)
    requires
        emit_log_direct_program(emitter_args, emitter_address) is Ok,
        receiver_args.len() >= 2,
        forall|j: int| 1 <= j < receiver_args.len() ==> #[trigger] parse_severity(receiver_args[j]) is Some,
    ensures
        ({
            let emitter = emit_log_direct_program(emitter_args, emitter_address)->Ok_0;
            let receiver = receive_logs_direct_program(receiver_args, receiver_address)->Ok_0;
            &&& emitter[2] == receiver[2]
            &&& emitter[3].op == Operation::Publish {
                exchange: EXCHANGE_NAME@,
                routing_key: emitter_args[1],
                message: direct_message(emitter_args),
                persistent: false,
            }
            &&& receiver.len() == receiver_args.len() + 5
            &&& forall|j: int|
                1 <= j < receiver_args.len() ==> #[trigger] receiver[j + 3] == expect_step(
                    Operation::BindQueue {
                        queue: QueueRef::Declared,
                        exchange: EXCHANGE_NAME@,
                        routing_key: receiver_args[j],
                    },
                    "binding error"@,
                )
            &&& forall|k: int| 0 <= k < receiver.len() ==> !(#[trigger] receiver[k].op is Fail)
        }),
{
    lemma_severity_text_of_parse(emitter_args[1]);
    let receiver = receive_logs_direct_program(receiver_args, receiver_address)->Ok_0;
    let binds = receiver_args.skip(1).map_values(|arg: Seq<char>| binding_step(arg));
    assert(receiver == receiver_setup(receiver_address) + binds + receiver_consume());
    assert forall|j: int| 1 <= j < receiver_args.len() implies #[trigger] receiver[j + 3] == expect_step(
        Operation::BindQueue { queue: QueueRef::Declared, exchange: EXCHANGE_NAME@, routing_key: receiver_args[j] },
        "binding error"@,
    ) by {
        assert(parse_severity(receiver_args[j]) is Some);
        lemma_severity_text_of_parse(receiver_args[j]);
        assert(receiver[j + 3] == binds[j - 1]);
    }
    assert forall|k: int| 0 <= k < receiver.len() implies !(#[trigger] receiver[k].op is Fail) by {
        if 4 <= k < receiver_args.len() + 3 {
            assert(parse_severity(receiver_args[k - 3]) is Some);
            assert(receiver[k] == binds[k - 4]);
        }
    }
}


/// What the routing emitter does with its arguments: it runs exactly when
/// the second argument is one of `info`, `warn`, `error`; it then connects
/// to the given address, declares `direct_log` as a direct exchange, and
/// publishes to it with the second argument as routing key. The message is
/// the arguments from the third on joined with single spaces (the third
/// itself where it is the last), and `Hello World!` only where there are
/// just two arguments.
pub proof fn lemma_emit_log_direct_publishes(args: Seq<Seq<char>>, address: Seq<char>)
    ensures
        emit_log_direct_program(args, address) is Ok <==> (args.len() >= 2 && (args[1] == "info"@ || args[1]
            == "warn"@ || args[1] == "error"@)),
        emit_log_direct_program(args, address) is Ok ==> ({
            let program = emit_log_direct_program(args, address)->Ok_0;
            let publish = program[3].op;
            &&& program.len() == 4
            &&& program[0].op == (Operation::Connect { address })
            &&& program[2].op == (Operation::DeclareExchange {
                exchange: "direct_log"@,
                kind: ExchangeKind::Direct,
                options: ExchangeOptions { passive: false, durable: false, auto_delete: false, internal: false, nowait: false },
            })
            &&& publish is Publish
            &&& publish->Publish_exchange == "direct_log"@
            &&& publish->Publish_routing_key == args[1]
            &&& !publish->Publish_persistent
            &&& (args.len() == 2 ==> publish->Publish_message == "Hello World!"@)
            &&& (args.len() == 3 ==> publish->Publish_message == args[2])
            &&& (args.len() >= 3 ==> publish->Publish_message == seq_join(args.skip(2), " "@))
        }),
{
    if args.len() >= 2 {
        lemma_severity_text_of_parse(args[1]);
        reveal_strlit("info");
        reveal_strlit("warn");
        reveal_strlit("error");
        if args.len() == 3 {
            assert(args.skip(2).len() == 1);
            assert(args.skip(2)[0] == args[2]);
        }
    }
}

/// The routing receiver needs at least one argument; it connects to the
/// given address, declares `direct_log` as a direct exchange, declares a
/// queue with an empty name (the broker names it) that is exclusive to its
/// connection and not durable, and consumes that queue under the tag
/// `receive_logs_direct`, printing each message without acknowledging it.
pub proof fn lemma_receive_logs_direct_queue(args: Seq<Seq<char>>, address: Seq<char>)
    ensures
        receive_logs_direct_program(args, address) is Err <==> args.len() < 2,
        args.len() >= 2 ==> ({
            let program = receive_logs_direct_program(args, address)->Ok_0;
            &&& program[0].op == (Operation::Connect { address })
            &&& program[2].op == (Operation::DeclareExchange {
                exchange: "direct_log"@,
                kind: ExchangeKind::Direct,
                options: ExchangeOptions { passive: false, durable: false, auto_delete: false, internal: false, nowait: false },
            })
            &&& program[3].op == (Operation::DeclareQueue {
                queue: Seq::<char>::empty(),
                options: QueueOptions { passive: false, durable: false, exclusive: true, auto_delete: false, nowait: false },
            })
            &&& program[args.len() + 3int].op == (Operation::Consume {
                queue: QueueRef::Declared,
                consumer_tag: "receive_logs_direct"@,
                handling: DeliveryHandling::PrintOnly,
            })
        }),
{
    if args.len() >= 2 {
        let program = receive_logs_direct_program(args, address)->Ok_0;
        let binds = args.skip(1).map_values(|arg: Seq<char>| binding_step(arg));
        assert(program == receiver_setup(address) + binds + receiver_consume());
        assert(program[args.len() + 3int] == receiver_consume()[0]);
    }
}


/// The severities are exactly the words `info`, `warn` and `error`, read as
/// `Info`, `Warn` and `Error`, and each severity's text is its word.
pub proof fn lemma_severity_words(text: Seq<char>)
    ensures
        parse_severity(text) is Some <==> (text == "info"@ || text == "warn"@ || text == "error"@),
        parse_severity("info"@) == Some(Severity::Info),
        parse_severity("warn"@) == Some(Severity::Warn),
        parse_severity("error"@) == Some(Severity::Error),
        severity_text(Severity::Info) == "info"@,
        severity_text(Severity::Warn) == "warn"@,
        severity_text(Severity::Error) == "error"@,
{
    lemma_parse_severity_text(Severity::Info);
    lemma_parse_severity_text(Severity::Warn);
    lemma_parse_severity_text(Severity::Error);
}

/// The refusal of a word that is not a severity is `不明な重要度(`, then the
/// word as given, then `)です。`, with nothing else.
pub proof fn lemma_unknown_severity_message_parts(text: Seq<char>)
    ensures
        ({
            let message = unknown_severity_message(text);
            &&& message.len() == text.len() + 11
            &&& message.subrange(0, 7) == seq!['不', '明', 'な', '重', '要', '度', '(']
            &&& message.subrange(7, 7int + text.len()) == text
            &&& message.subrange(7int + text.len(), message.len() as int) == seq![')', 'で', 'す', '。']
        }),
{
    reveal_strlit("不明な重要度(");
    reveal_strlit(")です。");
    let message = unknown_severity_message(text);
    assert(message.subrange(0, 7) =~= seq!['不', '明', 'な', '重', '要', '度', '(']);
    assert(message.subrange(7, 7int + text.len()) =~= text);
    assert(message.subrange(7int + text.len(), message.len() as int) =~= seq![')', 'で', 'す', '。']);
}

/// Each argument of the routing receiver after the program's path becomes,
/// in order, one step after the four setup steps: a bind of its queue to
/// `direct_log` with the argument as binding key where the argument is a
/// severity, and otherwise a stop with the refusal of that argument.
pub proof fn lemma_receive_logs_direct_bindings(args: Seq<Seq<char>>, address: Seq<char>, j: int)
    requires
        args.len() >= 2,
        1 <= j < args.len(),
    ensures
        ({
            let program = receive_logs_direct_program(args, address)->Ok_0;
            &&& program.len() == args.len() + 5
            &&& parse_severity(args[j]) is Some ==> program[j + 3].op == (Operation::BindQueue {
                queue: QueueRef::Declared,
                exchange: "direct_log"@,
                routing_key: args[j],
            })
            &&& parse_severity(args[j]) is None ==> program[j + 3].op == (Operation::Fail {
                fault: Fault::InvalidSeverity { message: unknown_severity_message(args[j]) },
            })
        }),
{
    let program = receive_logs_direct_program(args, address)->Ok_0;
    let binds = args.skip(1).map_values(|arg: Seq<char>| binding_step(arg));
    assert(program == receiver_setup(address) + binds + receiver_consume());
    assert(program[j + 3] == binds[j - 1]);
    lemma_severity_text_of_parse(args[j]);
}

} // verus!
