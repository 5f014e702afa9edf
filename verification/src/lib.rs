//! Rewrites a function so that every call goes through a decorator function.
//!
//! A directive names the decorator and says how it is called. The function
//! that carries the directive is replaced by two functions: the function
//! itself under a reserved name, and under its old name a function with the
//! same signature whose body calls the decorator, handing it the renamed
//! original (or a callable around it) and the function's parameters (or some
//! of them).

use vstd::prelude::*;

pub mod directive;
pub mod generator;
pub mod grammar;
pub mod laws;
pub mod selection;
pub mod signature;
pub mod syntax;
pub mod token;
pub mod transform;

use crate::transform::{is_result, transformed, use_decorator_impl, TransformError};

verus! {

/// Decorates a free function: `arg` is the text of the directive, `input`
/// the text of the function. The result is the text of the two functions
/// that replace it, or the reason why there is none.
pub fn use_decorator(arg: &str, input: &str) -> (result: Result<String, TransformError>)
    ensures
        is_result(result, transformed(arg@, input@, false)),
{
    use_decorator_impl(arg, input, false)
}

/// Decorates a function that is a member of a type: the replacement refers
/// to the renamed original as `Self::` and its name.
pub fn use_impl_decorator(arg: &str, input: &str) -> (result: Result<String, TransformError>)
    ensures
        is_result(result, transformed(arg@, input@, true)),
{
    use_decorator_impl(arg, input, true)
}

} // verus!
