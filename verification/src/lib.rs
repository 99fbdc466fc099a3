//! The core of a macro that turns a function with positional arguments into a builder.

pub mod adapted;
pub mod attrs;
pub mod builder_params;
pub mod call;
pub mod config;
pub mod error;
pub mod generics;
pub mod input_fn;
pub mod item;
pub mod naming;
pub mod propagated;
pub mod punctuated;
mod seqs;
pub mod tokens;
