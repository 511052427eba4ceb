//! Privileged task handling for an identity client: the wire messages, the
//! framing of the local channel, the provisioning of home directories as a
//! sequence of filesystem actions, and the reconnect cycle around them.

pub mod names;
pub mod paths;
pub mod proto;
pub mod provision;
pub mod provisioner;
pub mod provision_laws;
pub mod dispatch;
pub mod resilience;
pub mod codec;
pub mod backend;
