use rabbitmq_tutorial::amqp::{
    DeliveryHandling, ExchangeKind, ExchangeOptions, Fault, OnError, Operation, QueueOptions, QueueRef, Step,
};
use rabbitmq_tutorial::common::UsageError;
use rabbitmq_tutorial::{hello_world, publish_subscribe, routing, topics, tutorial_1, work_queues};

fn s(text: &str) -> String {
    text.to_string()
}

fn args(words: &[&str]) -> Vec<String> {
    words.iter().map(|w| w.to_string()).collect()
}

fn expect(op: Operation<String>, context: &str) -> Step<String> {
    Step { op, on_error: OnError::Panic { context: s(context) } }
}

fn ignore(op: Operation<String>) -> Step<String> {
    Step { op, on_error: OnError::Ignore }
}

const ADDR: &str = "amqp://127.0.0.1:5672/%2f";

fn plain() -> QueueOptions {
    QueueOptions { passive: false, durable: false, exclusive: false, auto_delete: false, nowait: false }
}

fn exclusive() -> QueueOptions {
    QueueOptions { exclusive: true, ..plain() }
}

fn plain_exchange() -> ExchangeOptions {
    ExchangeOptions { passive: false, durable: false, auto_delete: false, internal: false, nowait: false }
}

fn connect() -> Step<String> {
    expect(Operation::Connect { address: s(ADDR) }, "connection error")
}

#[test]
fn hello_world_declares_plain_hello_queue() {
    assert_eq!(
        hello_world::declare_queue(),
        expect(Operation::DeclareQueue { queue: s("hello"), options: plain() }, "declare queue error")
    );
}

#[test]
fn hello_world_producer_program() {
    assert_eq!(
        hello_world::producer(s(ADDR)),
        vec![
            connect(),
            expect(Operation::CreateChannel, "create channel error"),
            expect(Operation::DeclareQueue { queue: s("hello"), options: plain() }, "declare queue error"),
            expect(
                Operation::Publish { exchange: s(""), routing_key: s("hello"), message: s("Hello world!"), persistent: false },
                "basic publish error"
            ),
        ]
    );
}

#[test]
fn hello_world_consumer_program() {
    assert_eq!(
        hello_world::consumer(s("amqp://other")),
        vec![
            expect(Operation::Connect { address: s("amqp://other") }, "connection error"),
            expect(Operation::CreateChannel, "create channel error"),
            expect(Operation::DeclareQueue { queue: s("hello"), options: plain() }, "declare queue error"),
            expect(
                Operation::Consume {
                    queue: QueueRef::Named(s("hello")),
                    consumer_tag: s("consumer"),
                    handling: DeliveryHandling::AckEach { ack_context: s("basic ack error") },
                },
                "basic consume error"
            ),
        ]
    );
}

#[test]
fn tutorial_1_consumer_program() {
    assert_eq!(
        tutorial_1::consumer(s(ADDR)),
        vec![
            expect(Operation::Connect { address: s(ADDR) }, "[CONSUMER] connection error"),
            expect(Operation::CreateChannel, "create channel error"),
            expect(Operation::DeclareQueue { queue: s("hello"), options: plain() }, "[CONSUMER] declare queue error"),
            expect(
                Operation::Consume {
                    queue: QueueRef::Named(s("hello")),
                    consumer_tag: s("consumer"),
                    handling: DeliveryHandling::AckEach { ack_context: s("[CONSUMER] basic ack error") },
                },
                "[CONSUMER] basic consume error"
            ),
        ]
    );
}

#[test]
fn work_queues_programs() {
    assert_eq!(
        work_queues::declare_queue(),
        expect(
            Operation::DeclareQueue { queue: s("task_queue"), options: QueueOptions { durable: true, ..plain() } },
            "declare queue error"
        )
    );
    let task = |message: &str| {
        expect(
            Operation::Publish { exchange: s(""), routing_key: s("task_queue"), message: s(message), persistent: true },
            "basic publish error",
        )
    };
    assert_eq!(
        work_queues::producer(&args(&["new_task", "A", "task..."]), s(ADDR)),
        vec![
            connect(),
            expect(Operation::CreateChannel, "create channel error"),
            work_queues::declare_queue(),
            task("A task..."),
        ]
    );
    assert_eq!(work_queues::producer(&args(&["new_task"]), s(ADDR))[3], task("Hello World!"));
    assert_eq!(work_queues::producer(&args(&[]), s(ADDR))[3], task("Hello World!"));
    assert_eq!(work_queues::producer(&args(&["new_task", "x"]), s(ADDR))[2], work_queues::worker(s(ADDR))[2]);
    assert_eq!(
        work_queues::worker(s(ADDR)),
        vec![
            connect(),
            expect(Operation::CreateChannel, "create channel error"),
            work_queues::declare_queue(),
            expect(
                Operation::Consume {
                    queue: QueueRef::Named(s("task_queue")),
                    consumer_tag: s("consume_worker_tag"),
                    handling: DeliveryHandling::AckEach { ack_context: s("basic ack error") },
                },
                "basic consume error"
            ),
        ]
    );
}

fn emit_log_publish(message: &str) -> Step<String> {
    expect(
        Operation::Publish { exchange: s("logs"), routing_key: s(""), message: s(message), persistent: false },
        "basic publish error",
    )
}

#[test]
fn publish_subscribe_emitter_joins_all_arguments() {
    let logs = expect(
        Operation::DeclareExchange { exchange: s("logs"), kind: ExchangeKind::Fanout, options: plain_exchange() },
        "exchange error",
    );
    assert_eq!(publish_subscribe::declare_exchange(), logs);
    assert_eq!(
        publish_subscribe::emit_log(&args(&["./emit_log", "spam", "grok", "egg"]), s(ADDR)),
        vec![
            connect(),
            expect(Operation::CreateChannel, "create channel error "),
            logs.clone(),
            emit_log_publish("./emit_log spam grok egg"),
        ]
    );
    assert_eq!(publish_subscribe::emit_log(&args(&["./emit_log"]), s(ADDR))[3], emit_log_publish("./emit_log"));
    assert_eq!(publish_subscribe::emit_log(&args(&[]), s(ADDR))[3], emit_log_publish("info: Hello World!"));
}

#[test]
fn publish_subscribe_receiver_program() {
    assert_eq!(
        publish_subscribe::receive_log(s(ADDR)),
        vec![
            connect(),
            expect(Operation::CreateChannel, "create channel error"),
            publish_subscribe::declare_exchange(),
            expect(Operation::DeclareQueue { queue: s(""), options: exclusive() }, "declare queue error"),
            ignore(Operation::Print { line: s("[*] Waiting for logs. To exist press Ctrl + C") }),
            ignore(Operation::BindQueue { queue: QueueRef::Declared, exchange: s("logs"), routing_key: s("") }),
            expect(
                Operation::Consume {
                    queue: QueueRef::Declared,
                    consumer_tag: s("receive_log"),
                    handling: DeliveryHandling::AckEach { ack_context: s("basic ack error") },
                },
                "basic consume error"
            ),
        ]
    );
}

fn direct_exchange() -> Step<String> {
    ignore(Operation::DeclareExchange { exchange: s("direct_log"), kind: ExchangeKind::Direct, options: plain_exchange() })
}

#[test]
fn routing_emitter_publishes_with_severity_key() {
    assert_eq!(routing::declare_exchange(), direct_exchange());
    assert_eq!(
        routing::emit_log_direct(&args(&["emit", "warn", "Run.", "Run.", "Or", "it", "will", "explode."]), s(ADDR)),
        Ok(vec![
            connect(),
            expect(Operation::CreateChannel, "create channel error"),
            direct_exchange(),
            expect(
                Operation::Publish {
                    exchange: s("direct_log"),
                    routing_key: s("warn"),
                    message: s("Run. Run. Or it will explode."),
                    persistent: false,
                },
                "basic publish error"
            ),
        ])
    );
    let only_severity = routing::emit_log_direct(&args(&["emit", "error"]), s(ADDR)).unwrap();
    assert_eq!(
        only_severity[3].op,
        Operation::Publish { exchange: s("direct_log"), routing_key: s("error"), message: s("Hello World!"), persistent: false }
    );
}

#[test]
fn routing_emitter_refuses_bad_arguments() {
    assert_eq!(
        routing::emit_log_direct(&args(&["emit"]), s(ADDR)),
        Err(UsageError::MissingArgument { message: s("Severity didn't find in arguments.") })
    );
    assert_eq!(
        routing::emit_log_direct(&args(&["emit", "fatal", "boom"]), s(ADDR)),
        Err(UsageError::InvalidSeverity { message: s("不明な重要度(fatal)です。") })
    );
}

fn direct_bind(key: &str) -> Step<String> {
    expect(
        Operation::BindQueue { queue: QueueRef::Declared, exchange: s("direct_log"), routing_key: s(key) },
        "binding error",
    )
}

#[test]
fn routing_receiver_binds_each_severity() {
    let head = vec![
        connect(),
        expect(Operation::CreateChannel, "create channel error"),
        direct_exchange(),
        expect(Operation::DeclareQueue { queue: s(""), options: exclusive() }, "declare queue error"),
    ];
    let tail = vec![
        expect(
            Operation::Consume {
                queue: QueueRef::Declared,
                consumer_tag: s("receive_logs_direct"),
                handling: DeliveryHandling::PrintOnly,
            },
            "basic consume error",
        ),
        ignore(Operation::Print { line: s("[*] Waiting for logs. To exit press Ctrl + C") }),
    ];
    let mut expected = head.clone();
    expected.push(direct_bind("warn"));
    expected.push(direct_bind("error"));
    expected.extend(tail.clone());
    assert_eq!(routing::receive_logs_direct(&args(&["recv", "warn", "error"]), s(ADDR)), Ok(expected));

    let mut with_bad = head.clone();
    with_bad.push(direct_bind("info"));
    with_bad.push(ignore(Operation::Fail {
        fault: Fault::InvalidSeverity { message: s("不明な重要度(debug)です。") },
    }));
    with_bad.push(direct_bind("error"));
    with_bad.extend(tail);
    assert_eq!(routing::receive_logs_direct(&args(&["recv", "info", "debug", "error"]), s(ADDR)), Ok(with_bad));

    assert_eq!(
        routing::receive_logs_direct(&args(&["recv"]), s(ADDR)),
        Err(UsageError::MissingArgument { message: s("Severity didn't find in arguments.") })
    );
}

fn topic_exchange() -> Step<String> {
    ignore(Operation::DeclareExchange { exchange: s("topic_logs"), kind: ExchangeKind::Topic, options: plain_exchange() })
}

#[test]
fn topics_emitter_defaults_and_arguments() {
    assert_eq!(topics::declare_exchange(), topic_exchange());
    let publish = |key: &str, message: &str| {
        expect(
            Operation::Publish { exchange: s("topic_logs"), routing_key: s(key), message: s(message), persistent: false },
            "basic publish error",
        )
    };
    assert_eq!(
        topics::emit_log_topic(&args(&["emit"]), s(ADDR)),
        vec![
            connect(),
            expect(Operation::CreateChannel, "create channel error"),
            topic_exchange(),
            publish("anonymous.info", "Hello World!"),
        ]
    );
    assert_eq!(topics::emit_log_topic(&args(&["emit", "kern.critical"]), s(ADDR))[3], publish("kern.critical", "Hello World!"));
    assert_eq!(
        topics::emit_log_topic(&args(&["emit", "kern.critical", "A", "critical", "kernel", "error"]), s(ADDR))[3],
        publish("kern.critical", "A critical kernel error")
    );
}

#[test]
fn topics_receiver_binds_each_key_verbatim() {
    assert_eq!(
        topics::receive_logs_topic(&args(&["recv", "kern.*", "*.critical", "#"]), s(ADDR)),
        Ok(vec![
            connect(),
            expect(Operation::CreateChannel, "create queue error"),
            topic_exchange(),
            expect(Operation::DeclareQueue { queue: s(""), options: exclusive() }, "declare queue error"),
            expect(
                Operation::BindQueue { queue: QueueRef::Declared, exchange: s("topic_logs"), routing_key: s("kern.*") },
                "queue bind error"
            ),
            expect(
                Operation::BindQueue { queue: QueueRef::Declared, exchange: s("topic_logs"), routing_key: s("*.critical") },
                "queue bind error"
            ),
            expect(
                Operation::BindQueue { queue: QueueRef::Declared, exchange: s("topic_logs"), routing_key: s("#") },
                "queue bind error"
            ),
            expect(
                Operation::Consume {
                    queue: QueueRef::Declared,
                    consumer_tag: s("receive_logs_topic"),
                    handling: DeliveryHandling::AckThenPrint { ack_context: s("basic ack error") },
                },
                "basic consume error"
            ),
            ignore(Operation::Print { line: s("[*] Waiting for logs. To exit press Ctrl + C") }),
        ])
    );
    assert_eq!(
        topics::receive_logs_topic(&args(&["recv"]), s(ADDR)),
        Err(UsageError::MissingArgument { message: s("Binding Key didn't find in arguments.") })
    );
}

#[test]
fn producer_and_consumers_agree_on_the_hello_queue() {
    let producer = hello_world::producer(s(ADDR));
    let consumer = hello_world::consumer(s(ADDR));
    let first = tutorial_1::consumer(s(ADDR));
    assert_eq!(producer[2], consumer[2]);
    assert_eq!(producer[2].op, first[2].op);
    let key = match &producer[3].op {
        Operation::Publish { exchange, routing_key, .. } => {
            assert_eq!(exchange, "");
            routing_key.clone()
        }
        other => panic!("not a publish: {:?}", other),
    };
    for program in [consumer, first] {
        match &program[3].op {
            Operation::Consume { queue, .. } => assert_eq!(queue, &QueueRef::Named(key.clone())),
            other => panic!("not a consume: {:?}", other),
        }
    }
}

#[test]
fn emitters_and_receivers_agree_on_exchanges() {
    let emit = publish_subscribe::emit_log(&args(&["emit"]), s(ADDR));
    let receive = publish_subscribe::receive_log(s(ADDR));
    assert_eq!(emit[2], receive[2]);
    let emit = routing::emit_log_direct(&args(&["emit", "error", "x"]), s(ADDR)).unwrap();
    let receive = routing::receive_logs_direct(&args(&["recv", "info", "error"]), s(ADDR)).unwrap();
    assert_eq!(emit[2], receive[2]);
    match (&emit[3].op, &receive[5].op) {
        (
            Operation::Publish { exchange, routing_key, .. },
            Operation::BindQueue { exchange: bound, routing_key: binding_key, .. },
        ) => {
            assert_eq!(exchange, bound);
            assert_eq!(routing_key, binding_key);
        }
        other => panic!("unexpected steps: {:?}", other),
    }
    let emit = topics::emit_log_topic(&args(&["emit", "kern.critical"]), s(ADDR));
    let receive = topics::receive_logs_topic(&args(&["recv", "kern.*"]), s(ADDR)).unwrap();
    assert_eq!(emit[2], receive[2]);
}
