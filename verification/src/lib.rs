//! A message-interception framework for an actor-style node built from
//! subsystems that communicate only through a central dispatcher (the
//! overseer). A subsystem can be wrapped in a decorator that runs every
//! inbound and outbound message through an interceptor policy, which may
//! pass the message on, rewrite it, or drop it; a small library of
//! adversarial policies (dispute valid work, fabricate negative validation
//! verdicts) is built on that capability.

pub mod interceptor;
pub mod laws;
pub mod messages;
pub mod overseer;
pub mod policies;
