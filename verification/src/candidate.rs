use vstd::prelude::*;
use vstd::string::StringExecFns;
use crate::decimal::dec_rep;
use crate::decimal::push_decimal;

verus! {

/// One rendered reason why a single overload candidate was rejected.
///
/// Only the final human-readable text is kept, not the structured inputs:
/// the value is built once per rejected candidate by the builders below and
/// consumed only by the aggregation into a resolution diagnostic.
/// Once built, its text never changes.
#[derive(Debug)]
pub struct FunctionResolutionError(String);

impl View for FunctionResolutionError {
    type V = Seq<char>;

    closed spec fn view(&self) -> Seq<char> {
        self.0@
    }
}

impl DeepView for FunctionResolutionError {
    type V = Seq<char>;

    open spec fn deep_view(&self) -> Seq<char> {
        self@
    }
}

impl PartialEq for FunctionResolutionError {
    fn eq(&self, other: &FunctionResolutionError) -> (r: bool) {
        self.0 == other.0
    }
}

impl vstd::std_specs::cmp::PartialEqSpecImpl for FunctionResolutionError {
    open spec fn obeys_eq_spec() -> bool {
        true
    }

    open spec fn eq_spec(&self, other: &FunctionResolutionError) -> bool {
        self@ == other@
    }
}

/// The text recording a parameter whose argument did not fit.
pub open spec fn parameter_mismatch_text(cause: Seq<char>, index: nat) -> Seq<char> {
    "Invalid parameter at position "@ + dec_rep(index) + ": "@ + cause
}

/// The text recording a return type other than the expected one.
pub open spec fn return_mismatch_text(expected: Seq<char>, given: Seq<char>) -> Seq<char> {
    "Return type "@ + given + " does not match expected "@ + expected
}

/// The text recording a call with more arguments than the candidate takes.
pub open spec fn too_many_args_text(expected: nat, got: nat) -> Seq<char> {
    "Too many arguments, expected "@ + dec_rep(expected) + " but got "@ + dec_rep(got)
}

/// The text recording an argument count outside the candidate's range.
pub open spec fn invalid_arg_count_text(received: nat, min: nat, max: nat) -> Seq<char> {
    "Expected "@ + dec_rep(min) + "-"@ + dec_rep(max) + " parameters, given "@ + dec_rep(received)
}

impl FunctionResolutionError {
    /// The rendered text of this rejection reason.
    pub fn text(&self) -> (r: &str)
        ensures
            r@ == self@,
    {
        self.0.as_str()
    }

    /// The argument at `index` did not fit the candidate's parameter,
    /// for the reason rendered in `cause`.
    pub fn parameter_mismatch(cause: &str, index: usize) -> (r: FunctionResolutionError)
        ensures
            r@ == parameter_mismatch_text(cause@, index as nat),
    {
        let mut message: String = String::from_str("Invalid parameter at position ");
        push_decimal(&mut message, index);
        message.append(": ");
        message.append(cause);
        FunctionResolutionError(message)
    }

    /// The candidate's return type `given` is not the `expected` one.
    pub fn return_mismatch(expected: &str, given: &str) -> (r: FunctionResolutionError)
        ensures
            r@ == return_mismatch_text(expected@, given@),
    {
        let mut message: String = String::from_str("Return type ");
        message.append(given);
        message.append(" does not match expected ");
        message.append(expected);
        FunctionResolutionError(message)
    }

    /// The call passed `got` arguments where the candidate takes `expected`.
    pub fn too_many_args(expected: usize, got: usize) -> (r: FunctionResolutionError)
        ensures
            r@ == too_many_args_text(expected as nat, got as nat),
    {
        let mut error: String = String::from_str("Too many arguments, expected ");
        push_decimal(&mut error, expected);
        error.append(" but got ");
        push_decimal(&mut error, got);
        FunctionResolutionError(error)
    }

    /// The call passed `received` arguments where the candidate takes
    /// between `min` and `max`.
    pub fn invalid_arg_count(received: usize, min: usize, max: usize) -> (r:
        FunctionResolutionError)
        ensures
            r@ == invalid_arg_count_text(received as nat, min as nat, max as nat),
    {
        let mut message: String = String::from_str("Expected ");
        push_decimal(&mut message, min);
        message.append("-");
        push_decimal(&mut message, max);
        message.append(" parameters, given ");
        push_decimal(&mut message, received);
        FunctionResolutionError(message)
    }
}

} // verus!
