//! Event hooks: the events that the server raises, the hooks that deliver them
//! over HTTP or NATS, and the rules that decide which hook receives what.
pub mod events;
pub mod payload;
pub mod entity;
pub mod nats;
pub mod task;
pub mod channel;
pub mod vrl;
pub mod http_client;
