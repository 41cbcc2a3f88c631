//! Reading the answer to a mode query: is the remote process waiting on a
//! prompt?

use vstd::prelude::*;
use neovim_lib::{CallError, Value};
use crate::remote::{value_flag, value_text};

verus! {

/// Whether `key` is the string `blocking`.
pub open spec fn is_blocking_key(key: Value) -> bool {
    value_text(key) == Some("blocking"@)
}

/// What an entry's value says: its boolean. A value that is no boolean
/// reports nothing, and counts as blocking.
pub open spec fn entry_flag(value: Value) -> bool {
    match value_flag(value) {
        Some(flag) => flag,
        None => true,
    }
}

/// Whether entry `i` of `mode` is the first one keyed `blocking`.
pub open spec fn is_first_blocking_entry(mode: Seq<(Value, Value)>, i: int) -> bool {
    &&& 0 <= i < mode.len()
    &&& is_blocking_key(mode[i].0)
    &&& forall|j: int| 0 <= j < i ==> !is_blocking_key(#[trigger] mode[j].0)
}

/// What a mode answer says of blocking: the flag of its first entry keyed
/// `blocking`, and nothing where no entry has that key.
pub open spec fn mode_blocking(mode: Seq<(Value, Value)>) -> Option<bool>
    decreases mode.len(),
{
    if mode.len() == 0 {
        None
    } else if is_blocking_key(mode[0].0) {
        Some(entry_flag(mode[0].1))
    } else {
        mode_blocking(mode.skip(1))
    }
}

/// Whether the outcome of a mode query says that the remote process takes
/// calls: the query succeeded, and the first entry of its answer that is
/// keyed `blocking` holds the boolean `false`.
///
/// A failed query, an answer without the flag, and a flag that is no boolean
/// count as blocked.
pub open spec fn reports_non_blocking(mode: Result<Vec<(Value, Value)>, CallError>) -> bool {
    mode matches Ok(entries) && mode_blocking(entries@) == Some(false)
}

/// `mode_blocking` is absent exactly when no entry is keyed `blocking`, and
/// is otherwise the flag of the first such entry.
pub proof fn lemma_mode_blocking_first(mode: Seq<(Value, Value)>)
    ensures
        mode_blocking(mode) is None <==> forall|i: int|
            0 <= i < mode.len() ==> !is_blocking_key(#[trigger] mode[i].0),
        forall|i: int|
            is_first_blocking_entry(mode, i) ==> mode_blocking(mode) == Some(
                entry_flag(mode[i].1),
            ),
    decreases mode.len(),
{
    if mode.len() == 0 {
    } else if is_blocking_key(mode[0].0) {
        assert forall|i: int| is_first_blocking_entry(mode, i) implies i == 0 by {
            if i > 0 {
                assert(!is_blocking_key(mode[0].0));
            }
        }
    } else {
        let rest = mode.skip(1);
        lemma_mode_blocking_first(rest);
        assert forall|i: int| 0 <= i < rest.len() implies rest[i] == mode[i + 1] by {}
        if mode_blocking(mode) is None {
            assert forall|i: int| 0 <= i < mode.len() implies !is_blocking_key(
                #[trigger] mode[i].0,
            ) by {
                if i > 0 {
                    assert(rest[i - 1] == mode[i]);
                }
            }
        } else {
            let k = choose|k: int| 0 <= k < rest.len() && is_blocking_key(#[trigger] rest[k].0);
            assert(is_blocking_key(mode[k + 1].0));
        }
        assert forall|i: int| is_first_blocking_entry(mode, i) implies mode_blocking(mode)
            == Some(entry_flag(mode[i].1)) by {
            assert(i > 0);
            assert forall|j: int| 0 <= j < i - 1 implies !is_blocking_key(
                #[trigger] rest[j].0,
            ) by {
                assert(rest[j] == mode[j + 1]);
            }
            assert(rest[i - 1] == mode[i]);
            assert(is_first_blocking_entry(rest, i - 1));
        }
    }
}

/// Whether `key` is the string `blocking`.
pub fn key_is_blocking(key: &Value) -> (found: bool)
    ensures
        found == is_blocking_key(*key),
{
    match key.as_str() {
        Some(text) => text.to_owned() == "blocking".to_owned(),
        None => false,
    }
}

/// Reads the blocking flag out of a mode answer.
///
/// The first entry keyed `blocking` decides; a value there that is no
/// boolean reads as `true`. Without such an entry there is no flag.
pub fn blocking_flag(mode: &Vec<(Value, Value)>) -> (flag: Option<bool>)
    ensures
        flag == mode_blocking(mode@),
{
    let mut i: usize = 0;
    proof {
        assert(mode@.skip(0) =~= mode@);
    }
    while i < mode.len()
        invariant
            0 <= i <= mode.len(),
            mode_blocking(mode@) == mode_blocking(mode@.skip(i as int)),
        decreases mode.len() - i,
    {
        let entry = &mode[i];
        proof {
            let rest = mode@.skip(i as int);
            assert(rest[0] == mode@[i as int]);
            assert(rest.skip(1) =~= mode@.skip(i + 1));
        }
        if key_is_blocking(&entry.0) {
            return Some(entry.1.as_bool().unwrap_or(true));
        }
        i += 1;
    }
    proof {
        assert(mode@.skip(i as int).len() == 0);
    }
    None
}

/// Decides from the outcome of a mode query whether calls may go on.
pub fn allows_calls(mode: &Result<Vec<(Value, Value)>, CallError>) -> (allowed: bool)
    ensures
        allowed == reports_non_blocking(*mode),
{
    match mode {
        Ok(entries) => {
            match blocking_flag(entries) {
                Some(blocking) => !blocking,
                None => false,
            }
        },
        Err(_) => false,
    }
}

} // verus!
