//! A minimal HTTP edge service core: a guarded shared counter, an upstream
//! tags-proxy protocol with a fixed error-translation table, body echoing,
//! and request routing, all specified over byte sequences.
//!
//! The pieces that touch the network (the HTTP listener, the outbound call,
//! configuration loading) live outside this crate; the logic that decides
//! what every request and every upstream outcome turns into lives here.

pub mod counter;
pub mod env;
pub mod errors;
pub mod router;
pub mod tags;
pub mod wire;
