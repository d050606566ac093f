//! The checks around calling a function and around a host function's results.

use vstd::prelude::*;
use vstd::string::*;

use crate::error::{message_error, Error};
use crate::text::{decimal, push_decimal};
use crate::val::ValType;

verus! {

/// The text of an arity mismatch: `expected N parameters, got M`, or the same
/// with `results`.
pub open spec fn arity_message(expected: nat, what: Seq<char>, got: nat) -> Seq<char> {
    "expected "@ + decimal(expected) + what + ", got "@ + decimal(got)
}

fn arity_error(expected: usize, what: &str, got: usize) -> (e: Error)
    ensures
        e.is_message(arity_message(expected as nat, what@, got as nat)),
{
    let mut s = String::from_str("expected ");
    push_decimal(&mut s, expected as u64);
    s.append(what);
    s.append(", got ");
    push_decimal(&mut s, got as u64);
    Error::Message(s)
}

/// Checks a call's argument and result slices against the function's
/// declared arities, before anything runs.
///
/// The parameter count is checked first: a call wrong in both reports its
/// parameters.
pub fn check_call_arity(
    param_arity: usize,
    params_len: usize,
    result_arity: usize,
    results_len: usize,
) -> (r: Result<(), Error>)
    ensures
        params_len != param_arity ==> (r matches Err(e) && e.is_message(
            arity_message(param_arity as nat, " parameters"@, params_len as nat),
        )),
        params_len == param_arity && results_len != result_arity ==> (r matches Err(e)
            && e.is_message(arity_message(result_arity as nat, " results"@, results_len as nat))),
        r is Ok <==> (params_len == param_arity && results_len == result_arity),
{
    if params_len != param_arity {
        return Err(arity_error(param_arity, " parameters", params_len));
    }
    if results_len != result_arity {
        return Err(arity_error(result_arity, " results", results_len));
    }
    Ok(())
}

/// Checks the values a host function wrote against the result types it
/// declared, slot by slot, and reports the first slot that disagrees.
pub fn check_result_types(written: &[ValType], declared: &[ValType]) -> (r: Result<(), usize>)
    ensures
        match r {
            Ok(()) => forall|i: int|
                0 <= i < written@.len() && i < declared@.len() ==> written@[i] == declared@[i],
            Err(i) => i < written@.len() && i < declared@.len() && written@[i as int] != declared@[i as int]
                && forall|j: int| 0 <= j < i ==> written@[j] == declared@[j],
        },
{
    let n = if written.len() < declared.len() { written.len() } else { declared.len() };
    let mut i: usize = 0;
    while i < n
        invariant
            i <= n,
            n <= written@.len(),
            n <= declared@.len(),
            n == written@.len() || n == declared@.len(),
            forall|j: int| 0 <= j < i ==> written@[j] == declared@[j],
        decreases n - i,
    {
        if written[i] != declared[i] {
            return Err(i);
        }
        i = i + 1;
    }
    Ok(())
}


/// The error a host function's panic becomes: the panic's own message after
/// `host function panicked: `, when it carried one as text, and the bare
/// phrase when it did not.
pub fn host_panic_error(detail: Option<&str>) -> (e: Error)
    ensures
        match detail {
            Some(d) => e.is_message("host function panicked: "@ + d@),
            None => e.is_message("host function panicked"@),
        },
{
    match detail {
        Some(d) => {
            let mut s = String::from_str("host function panicked: ");
            s.append(d);
            Error::Message(s)
        },
        None => message_error("host function panicked"),
    }
}

/// Whether a value-type list the C side built is usable: an empty list may
/// come back with no storage, a non-empty one may not.
pub fn check_valtype_list(len: usize, has_storage: bool) -> (r: Result<(), Error>)
    ensures
        r is Ok <==> (len == 0 || has_storage),
        r is Err ==> (r matches Err(e) && e.is_message("failed to create value type list"@)),
{
    if len != 0 && !has_storage {
        Err(message_error("failed to create value type list"))
    } else {
        Ok(())
    }
}

/// Copies `produced` into the leading slots of `slots`, as many as both have,
/// leaving any further slot as it was.
pub fn copy_prefix<V: Copy>(slots: &mut [V], produced: &[V])
    ensures
        final(slots)@.len() == old(slots)@.len(),
        forall|i: int|
            0 <= i < final(slots)@.len() ==> #[trigger] final(slots)@[i] == if i < produced@.len() {
                produced@[i]
            } else {
                old(slots)@[i]
            },
{
    let n = if slots.len() < produced.len() { slots.len() } else { produced.len() };
    let mut i: usize = 0;
    while i < n
        invariant
            i <= n,
            n <= slots@.len(),
            n <= produced@.len(),
            n == slots@.len() || n == produced@.len(),
            slots@.len() == old(slots)@.len(),
            forall|j: int|
                0 <= j < slots@.len() ==> #[trigger] slots@[j] == if j < i {
                    produced@[j]
                } else {
                    old(slots)@[j]
                },
        decreases n - i,
    {
        slots[i] = produced[i];
        i = i + 1;
    }
}

/// Finishes a call once the C side has answered.
///
/// A trap becomes the call's error and leaves `results` as the caller had
/// it; success writes what the function produced into `results`.
pub fn finish_call<V: Copy>(trap: Option<Error>, results: &mut [V], produced: &[V]) -> (r: Result<
    (),
    Error,
>)
    ensures
        match trap {
            Some(e) => r == Err::<(), Error>(e) && final(results)@ == old(results)@,
            None => r is Ok && final(results)@.len() == old(results)@.len() && forall|i: int|
                0 <= i < old(results)@.len() ==> #[trigger] final(results)@[i] == if i
                    < produced@.len() {
                    produced@[i]
                } else {
                    old(results)@[i]
                },
        },
{
    match trap {
        Some(e) => Err(e),
        None => {
            copy_prefix(results, produced);
            Ok(())
        },
    }
}

} // verus!
