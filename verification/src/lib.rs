//! Declaration-emission engine for a foreign-runtime binding generator.
//!
//! Given a fully resolved description of a foreign-runtime type (an object,
//! an interface, a boxed value, or a reference-counted shared value), the
//! library renders that description into syntactically exact, conditionally
//! compiled declaration text. Emitters append their output, line by line, to
//! an in-memory text sink (`String`); callers own the sink and decide where
//! the accumulated text finally goes.
//!
//! Every emitter's output is pinned down exactly by a specification function
//! over sequences of characters, so the generated text is byte-exact by proof.

pub mod ancestors;
pub mod annotations;
pub mod declarations;
pub mod default_impl;
pub mod derives;
pub mod env;
pub mod header;
pub mod imports;
pub mod text;
pub mod version;
