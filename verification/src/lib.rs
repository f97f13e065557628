//! Evaluation core of an interpreter for a dynamic, JavaScript-like scripting
//! language.
//!
//! The interpreter is a step machine. Everything that only the embedding host
//! can do (IEEE-754 arithmetic, objects, arrays, native calls, promises) is
//! emitted as a [`host::HostRequest`]; the embedder performs it and feeds the
//! [`host::Reply`] back into the next step. All decisions (scoping, coercion,
//! arity, destructuring, control flow) are taken here.
//!
//! - [`ast`] holds the program, [`value`] the runtime values, [`store`] the
//!   binding cells and closures, [`scope`] and [`environment`] the lexical
//!   scopes and the snapshots that closures capture.
//! - [`evaluator`] holds the operators and the transitions for expressions,
//!   statements, patterns, functions, objects and classes; [`machine`] holds
//!   the interpreter itself, whose [`machine::Interpreter::step`] takes one
//!   transition.
//! - [`hygiene`] and [`globals`] hold the names: the prefix that identifiers
//!   carry in native source, and the global names that reach the host.

pub mod ast;
pub mod builtin;
pub mod environment;
pub mod error;
pub mod evaluator;
pub mod globals;
pub mod host;
pub mod hygiene;
pub mod js;
pub mod machine;
pub mod number;
pub mod operation;
pub mod scope;
pub mod session;
pub mod store;
pub mod text;
pub mod value;

pub use crate::environment::Environments;
pub use crate::session::{get_type, list_properties};
