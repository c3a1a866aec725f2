//! Blocking companions for asynchronous methods.
//!
//! Given the ordered members of one type and the name of an execution
//! backend, [`block_on`] keeps every member as it is and adds, for each
//! asynchronous method, a synchronous method that drives the asynchronous
//! one to completion on the chosen backend. The asynchronous method
//! `fetch` gets the wrapper `fetch_blocking`, with the same parameters.
//!
//! The crate works on a small syntax tree of its own ([`MethodCollection`]),
//! so that every step can be stated and proved:
//!
//! - [`resolve`] tells which backend a selector names;
//! - [`classify`] tells which members are asynchronous methods;
//! - [`plan_call`] and [`wrapper_signature`] derive the wrapper's name,
//!   its parameters, and the call that it makes;
//! - [`synthesize`] builds the wrapper's body for a backend, and
//!   [`MethodBody::render`] writes it as a block.
//!
//! The module [`laws`] states what holds of every transformation.
//!
//! A wrapper blocks the calling thread until the asynchronous method has
//! finished. With the Tokio backend every call of a wrapper builds a
//! runtime of its own, and stops the thread if the runtime cannot be
//! built. Calling a wrapper from a thread that an asynchronous runtime is
//! already driving may deadlock or panic; nothing here guards against it.

pub mod backend;
pub mod laws;
pub mod model;
pub mod plan;
pub mod synth;
pub mod transform;

pub use backend::{resolve, BackendProfile, BlockingEntry, ConfigError, SetupStatement};
pub use model::{
    BlockingBody, CallExpr, Member, Method, MethodBody, MethodCollection, MethodSignature,
    Parameter, Qualifier,
};
pub use plan::{blocking_name, forwarded_args, plan_call, wrapper_signature, CallPlan};
pub use synth::{call_expr, join_strings, synthesize};
pub use transform::{block_on, block_on_with, classify, wrap_method, wrappers};
