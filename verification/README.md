# rabbitmq_tutorial

The RabbitMQ tutorial programs (Hello World, Work Queues, Publish/Subscribe,
Routing, Topics), with every decision they take verified by Verus.

- `src/` is the verified library. Each tutorial module (`hello_world`,
  `tutorial_1`, `work_queues`, `publish_subscribe`, `routing`, `topics`)
  builds a program as a list of AMQP steps (`amqp`) from the command line and
  the broker's address. `session` runs such a program as a state machine:
  it hands out one command at a time and decides, from each outcome and each
  delivery, what comes next (acknowledge, print, go on, or stop). `common`
  resolves the broker's address and the default log filter; `text` joins
  arguments and formats received messages.
- `app/main.rs` talks to the broker with lapin: it performs the commands the
  session hands out and reports back how they went.
- `tests/` runs the programs and sessions on concrete inputs.
