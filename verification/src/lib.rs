//! Native-side command-invocation bridge for a desktop application shell.
//!
//! A UI layer calls typed native capabilities through a string-named command
//! boundary: a [`registry::CommandRegistry`] maps stable command names to
//! capability functions, the bridge in [`bridge`] validates an invocation's
//! arguments against the command's schema and produces exactly one outcome
//! per request, and [`deep_link`] buffers OS-delivered URI activations until
//! a consumer attaches. The host process glue (window creation, event loop,
//! the actual browser launch) stays outside this crate.

pub mod args;
pub mod bridge;
pub mod deep_link;
pub mod registry;
