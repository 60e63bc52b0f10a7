use rabbitmq_tutorial::amqp::{Action, Command, Delivery, ExchangeKind, ExchangeOptions, Fault, Outcome, QueueOptions};
use rabbitmq_tutorial::session::Session;
use rabbitmq_tutorial::{hello_world, publish_subscribe, routing, topics, work_queues};

fn s(text: &str) -> String {
    text.to_string()
}

fn args(words: &[&str]) -> Vec<String> {
    words.iter().map(|w| w.to_string()).collect()
}

const ADDR: &str = "amqp://127.0.0.1:5672/%2f";

/// Runs a program, answering each command with the next outcome of
/// `outcomes` and each wait for a delivery with the next of `deliveries`,
/// until it finishes or panics (or the answers run out).
fn run(
    steps: Vec<rabbitmq_tutorial::amqp::Step<String>>,
    outcomes: Vec<Outcome<String>>,
    deliveries: Vec<Delivery<String, Vec<u8>>>,
) -> Vec<Action<String>> {
    let mut outcomes = outcomes.into_iter();
    let mut deliveries = deliveries.into_iter();
    let (mut session, mut action) = Session::start(steps);
    let mut actions = vec![action.clone()];
    loop {
        let next = match action {
            Action::Perform(_) => {
                assert!(session.awaits_outcome());
                match outcomes.next() {
                    Some(outcome) => session.resume(outcome),
                    None => return actions,
                }
            }
            Action::NextDelivery => {
                assert!(session.awaits_delivery());
                match deliveries.next() {
                    Some(delivery) => session.receive(delivery),
                    None => return actions,
                }
            }
            Action::Panic(_) | Action::Finish => {
                assert!(!session.awaits_outcome() && !session.awaits_delivery());
                return actions;
            }
        };
        session = next.0;
        action = next.1;
        actions.push(action.clone());
    }
}

fn done(n: usize) -> Vec<Outcome<String>> {
    vec![Outcome::Done; n]
}

fn plain() -> QueueOptions {
    QueueOptions { passive: false, durable: false, exclusive: false, auto_delete: false, nowait: false }
}

fn received(tag: u64, key: &str, body: &[u8]) -> Delivery<String, Vec<u8>> {
    Delivery::Received { delivery_tag: tag, routing_key: s(key), data: body.to_vec() }
}

#[test]
fn hello_producer_runs_its_steps_in_order() {
    assert_eq!(
        run(hello_world::producer(s(ADDR)), done(4), vec![]),
        vec![
            Action::Perform(Command::Connect { address: s(ADDR) }),
            Action::Perform(Command::CreateChannel),
            Action::Perform(Command::DeclareQueue { queue: s("hello"), options: plain() }),
            Action::Perform(Command::Publish { exchange: s(""), routing_key: s("hello"), message: s("Hello world!"), persistent: false }),
            Action::Finish,
        ]
    );
}

#[test]
fn required_step_failure_panics_with_its_context() {
    assert_eq!(
        run(hello_world::producer(s(ADDR)), vec![Outcome::Done, Outcome::Failed], vec![]),
        vec![
            Action::Perform(Command::Connect { address: s(ADDR) }),
            Action::Perform(Command::CreateChannel),
            Action::Panic(Fault::Expect { context: s("create channel error") }),
        ]
    );
    assert_eq!(
        run(hello_world::producer(s(ADDR)), vec![Outcome::Failed], vec![])[1],
        Action::Panic(Fault::Expect { context: s("connection error") })
    );
}

#[test]
fn ignored_exchange_failure_goes_on() {
    let actions = run(
        routing::emit_log_direct(&args(&["emit", "info"]), s(ADDR)).unwrap(),
        vec![Outcome::Done, Outcome::Done, Outcome::Failed, Outcome::Done],
        vec![],
    );
    assert_eq!(
        actions[2],
        Action::Perform(Command::DeclareExchange {
            exchange: s("direct_log"),
            kind: ExchangeKind::Direct,
            options: ExchangeOptions { passive: false, durable: false, auto_delete: false, internal: false, nowait: false },
        })
    );
    assert_eq!(
        actions[3],
        Action::Perform(Command::Publish { exchange: s("direct_log"), routing_key: s("info"), message: s("Hello World!"), persistent: false })
    );
    assert_eq!(actions[4], Action::Finish);
    assert_eq!(actions.len(), 5);
}

#[test]
fn hello_consumer_acks_each_message() {
    let actions = run(
        hello_world::consumer(s(ADDR)),
        vec![Outcome::Done, Outcome::Done, Outcome::QueueDeclared { queue: s("hello") }, Outcome::Done, Outcome::Done, Outcome::Done],
        vec![received(1, "hello", b"Hello world!"), received(2, "hello", b"again"), Delivery::Ended],
    );
    assert_eq!(
        actions[3..].to_vec(),
        vec![
            Action::Perform(Command::Consume { queue: s("hello"), consumer_tag: s("consumer") }),
            Action::NextDelivery,
            Action::Perform(Command::Ack { delivery_tag: 1 }),
            Action::NextDelivery,
            Action::Perform(Command::Ack { delivery_tag: 2 }),
            Action::NextDelivery,
            Action::Finish,
        ]
    );
}

#[test]
fn hello_consumer_stops_on_bad_delivery_body_or_ack() {
    let setup = || vec![Outcome::Done, Outcome::Done, Outcome::Done, Outcome::Done];
    assert_eq!(
        run(hello_world::consumer(s(ADDR)), setup(), vec![Delivery::Failed]).last().unwrap(),
        &Action::Panic(Fault::DeliveryFailed)
    );
    assert_eq!(
        run(hello_world::consumer(s(ADDR)), setup(), vec![received(7, "hello", &[0xff, 0xfe])]).last().unwrap(),
        &Action::Panic(Fault::InvalidUtf8)
    );
    let mut outcomes = setup();
    outcomes.push(Outcome::Failed);
    let actions = run(hello_world::consumer(s(ADDR)), outcomes, vec![received(3, "hello", b"x")]);
    assert_eq!(actions[actions.len() - 2], Action::Perform(Command::Ack { delivery_tag: 3 }));
    assert_eq!(actions.last().unwrap(), &Action::Panic(Fault::Expect { context: s("basic ack error") }));
}

#[test]
fn receiver_uses_the_queue_name_the_broker_gave() {
    let actions = run(
        publish_subscribe::receive_log(s(ADDR)),
        vec![
            Outcome::Done,
            Outcome::Done,
            Outcome::Done,
            Outcome::QueueDeclared { queue: s("amq.gen-JzTY20BRgKO") },
            Outcome::Done,
            Outcome::Failed,
            Outcome::Done,
        ],
        vec![],
    );
    assert_eq!(
        actions[4..].to_vec(),
        vec![
            Action::Perform(Command::Print { line: s("[*] Waiting for logs. To exist press Ctrl + C") }),
            Action::Perform(Command::BindQueue { queue: s("amq.gen-JzTY20BRgKO"), exchange: s("logs"), routing_key: s("") }),
            Action::Perform(Command::Consume { queue: s("amq.gen-JzTY20BRgKO"), consumer_tag: s("receive_log") }),
            Action::NextDelivery,
        ]
    );
}

#[test]
fn direct_receiver_prints_without_ack_and_skips_failed_deliveries() {
    let actions = run(
        routing::receive_logs_direct(&args(&["recv", "warn", "error"]), s(ADDR)).unwrap(),
        vec![
            Outcome::Done,
            Outcome::Done,
            Outcome::Done,
            Outcome::QueueDeclared { queue: s("amq.gen-1") },
            Outcome::Done,
            Outcome::Done,
            Outcome::Done,
            Outcome::Done,
            Outcome::Done,
            Outcome::Done,
        ],
        vec![received(1, "warn", "ディスク".as_bytes()), Delivery::Failed, received(2, "error", b"boom"), Delivery::Ended],
    );
    assert_eq!(
        actions[4..].to_vec(),
        vec![
            Action::Perform(Command::BindQueue { queue: s("amq.gen-1"), exchange: s("direct_log"), routing_key: s("warn") }),
            Action::Perform(Command::BindQueue { queue: s("amq.gen-1"), exchange: s("direct_log"), routing_key: s("error") }),
            Action::Perform(Command::Consume { queue: s("amq.gen-1"), consumer_tag: s("receive_logs_direct") }),
            Action::Perform(Command::Print { line: s("[*] Waiting for logs. To exit press Ctrl + C") }),
            Action::NextDelivery,
            Action::Perform(Command::Print { line: s("[x] warn:ディスク") }),
            Action::NextDelivery,
            Action::NextDelivery,
            Action::Perform(Command::Print { line: s("[x] error:boom") }),
            Action::NextDelivery,
            Action::Finish,
        ]
    );
}

#[test]
fn direct_receiver_fails_at_the_first_unknown_severity() {
    let actions = run(
        routing::receive_logs_direct(&args(&["recv", "info", "verbose", "error"]), s(ADDR)).unwrap(),
        vec![Outcome::Done; 10],
        vec![],
    );
    assert_eq!(
        actions[4..].to_vec(),
        vec![
            Action::Perform(Command::BindQueue { queue: s(""), exchange: s("direct_log"), routing_key: s("info") }),
            Action::Panic(Fault::InvalidSeverity { message: s("不明な重要度(verbose)です。") }),
        ]
    );
}

#[test]
fn topic_receiver_acks_then_prints() {
    let actions = run(
        topics::receive_logs_topic(&args(&["recv", "kern.*"]), s(ADDR)).unwrap(),
        vec![
            Outcome::Done,
            Outcome::Done,
            Outcome::Done,
            Outcome::QueueDeclared { queue: s("amq.gen-t") },
            Outcome::Done,
            Outcome::Done,
            Outcome::Done,
            Outcome::Done,
            Outcome::Done,
            Outcome::Done,
        ],
        vec![received(5, "kern.critical", b"A critical kernel error"), Delivery::Failed, received(6, "kern.info", &[0xc3]), ],
    );
    assert_eq!(
        actions[4..].to_vec(),
        vec![
            Action::Perform(Command::BindQueue { queue: s("amq.gen-t"), exchange: s("topic_logs"), routing_key: s("kern.*") }),
            Action::Perform(Command::Consume { queue: s("amq.gen-t"), consumer_tag: s("receive_logs_topic") }),
            Action::Perform(Command::Print { line: s("[*] Waiting for logs. To exit press Ctrl + C") }),
            Action::NextDelivery,
            Action::Perform(Command::Ack { delivery_tag: 5 }),
            Action::Perform(Command::Print { line: s("[x] kern.critical:A critical kernel error") }),
            Action::NextDelivery,
            Action::NextDelivery,
            Action::Perform(Command::Ack { delivery_tag: 6 }),
            Action::Panic(Fault::InvalidUtf8),
        ]
    );
}

#[test]
fn topic_receiver_ack_failure_panics() {
    let mut outcomes = vec![Outcome::Done; 7];
    outcomes.push(Outcome::Failed);
    let actions = run(
        topics::receive_logs_topic(&args(&["recv", "#"]), s(ADDR)).unwrap(),
        outcomes,
        vec![received(9, "a.b", b"m")],
    );
    assert_eq!(actions.last().unwrap(), &Action::Panic(Fault::Expect { context: s("basic ack error") }));
}

#[test]
fn task_producer_publishes_persistently_to_the_durable_queue() {
    let actions = run(work_queues::producer(&args(&["new_task", "First", "message."]), s(ADDR)), done(4), vec![]);
    assert_eq!(
        actions[2..].to_vec(),
        vec![
            Action::Perform(Command::DeclareQueue {
                queue: s("task_queue"),
                options: QueueOptions { durable: true, ..plain() },
            }),
            Action::Perform(Command::Publish {
                exchange: s(""),
                routing_key: s("task_queue"),
                message: s("First message."),
                persistent: true,
            }),
            Action::Finish,
        ]
    );
}
