//! What this library takes on trust from the RPC client crate.
//!
//! Nothing here is proved. Each item names the outside function that it
//! stands for and says no more than that function's source shows.

use vstd::prelude::*;
use neovim_lib::{CallError, Neovim, Value};

verus! {

/// `neovim_lib::Neovim`, opaque: one live connection to the editor process.
#[verifier::external_type_specification]
#[verifier::external_body]
pub struct ExNeovim(Neovim);

/// `neovim_lib::Value` (the MessagePack value of `rmpv`), opaque.
#[verifier::external_type_specification]
#[verifier::external_body]
pub struct ExValue(Value);

/// `neovim_lib::CallError`, opaque: why a remote call failed.
#[verifier::external_type_specification]
#[verifier::external_body]
pub struct ExCallError(CallError);

/// The text of `value` where it is a string of valid UTF-8, as
/// `Value::as_str` reports it.
pub uninterp spec fn value_text(value: Value) -> Option<Seq<char>>;

/// The boolean of `value` where it is one, as `Value::as_bool` reports it.
pub uninterp spec fn value_flag(value: Value) -> Option<bool>;

/// `Value::as_str`: the string inside a value, absent for any other kind of
/// value and for a string that is not valid UTF-8. It reads the value and
/// nothing else.
pub assume_specification[ Value::as_str ](value: &Value) -> (text: Option<&str>)
    ensures
        text.is_some() == value_text(*value).is_some(),
        text.is_some() ==> text.unwrap()@ == value_text(*value).unwrap(),
;

/// `Value::as_bool`: the boolean inside a value, absent for any other kind of
/// value. It reads the value and nothing else.
pub assume_specification[ Value::as_bool ](value: &Value) -> (flag: Option<bool>)
    ensures
        flag == value_flag(*value),
;

} // verus!
