//! Plain-value model of the RabbitMQ tutorial programs: what each program
//! declares, binds, publishes and consumes, and the decisions it takes on
//! every reply of the broker.

pub mod amqp;
pub mod common;
pub mod text;
pub mod session;
pub mod hello_world;
pub mod tutorial_1;
pub mod work_queues;
pub mod publish_subscribe;
pub mod routing;
pub mod topics;
