//! The checks WASI configuration makes before anything reaches the C side.

use vstd::prelude::*;
use vstd::string::*;

use crate::error::{message_error, Error};

verus! {

/// Whether the UTF-8 encoding of `s` holds a NUL byte, which a C string
/// cannot carry.
pub open spec fn has_nul(s: &str) -> bool {
    s.spec_bytes().contains(0u8)
}

/// Finds whether `s` holds a NUL byte.
pub fn contains_nul(s: &str) -> (r: bool)
    ensures
        r == has_nul(s),
{
    let bytes = s.as_bytes();
    let mut i: usize = 0;
    while i < bytes.len()
        invariant
            i <= bytes@.len(),
            bytes@ == s.spec_bytes(),
            forall|j: int| 0 <= j < i ==> bytes@[j] != 0u8,
        decreases bytes@.len() - i,
    {
        if bytes[i] == 0u8 {
            assert(bytes@[i as int] == 0u8);
            return true;
        }
        i = i + 1;
    }
    false
}

/// The message every string list refuses a NUL byte with.
pub open spec fn nul_in_string_message() -> Seq<char> {
    "string contains an interior null byte"@
}

/// Checks that each of `strs` can become a C string, as the arguments handed
/// to the guest must.
pub fn check_c_strings(strs: &[&str]) -> (r: Result<(), Error>)
    ensures
        r is Ok <==> forall|i: int| 0 <= i < strs@.len() ==> !has_nul(#[trigger] strs@[i]),
        r is Err ==> (r matches Err(e) && e.is_message(nul_in_string_message())),
{
    let mut i: usize = 0;
    while i < strs.len()
        invariant
            i <= strs@.len(),
            forall|j: int| 0 <= j < i ==> !has_nul(#[trigger] strs@[j]),
        decreases strs@.len() - i,
    {
        if contains_nul(strs[i]) {
            return Err(message_error("string contains an interior null byte"));
        }
        i = i + 1;
    }
    Ok(())
}

/// Checks that every key and every value of `envs` can become a C string, as
/// the environment handed to the guest must. The keys are checked before the
/// values, and either failure carries the same message.
pub fn check_env_strings(envs: &[(&str, &str)]) -> (r: Result<(), Error>)
    ensures
        r is Ok <==> forall|i: int|
            0 <= i < envs@.len() ==> !has_nul((#[trigger] envs@[i]).0) && !has_nul(envs@[i].1),
        r is Err ==> (r matches Err(e) && e.is_message(nul_in_string_message())),
{
    let mut i: usize = 0;
    while i < envs.len()
        invariant
            i <= envs@.len(),
            forall|j: int| 0 <= j < i ==> !has_nul((#[trigger] envs@[j]).0),
        decreases envs@.len() - i,
    {
        if contains_nul(envs[i].0) {
            return Err(message_error("string contains an interior null byte"));
        }
        i = i + 1;
    }
    let mut k: usize = 0;
    while k < envs.len()
        invariant
            k <= envs@.len(),
            forall|j: int| 0 <= j < envs@.len() ==> !has_nul((#[trigger] envs@[j]).0),
            forall|j: int| 0 <= j < k ==> !has_nul((#[trigger] envs@[j]).1),
        decreases envs@.len() - k,
    {
        if contains_nul(envs[k].1) {
            return Err(message_error("string contains an interior null byte"));
        }
        k = k + 1;
    }
    Ok(())
}

/// Checks the two paths of a preopen: the host path first, then the guest
/// path, each refused with a message that says which it was.
pub fn check_preopen_paths(host_path: &str, guest_path: &str) -> (r: Result<(), Error>)
    ensures
        has_nul(host_path) ==> (r matches Err(e) && e.is_message(
            "host path contains an interior null byte"@,
        )),
        !has_nul(host_path) && has_nul(guest_path) ==> (r matches Err(e) && e.is_message(
            "guest path contains an interior null byte"@,
        )),
        r is Ok <==> (!has_nul(host_path) && !has_nul(guest_path)),
{
    if contains_nul(host_path) {
        return Err(message_error("host path contains an interior null byte"));
    }
    if contains_nul(guest_path) {
        return Err(message_error("guest path contains an interior null byte"));
    }
    Ok(())
}

/// What copying the host environment comes to, given whether the C side did.
pub fn inherit_env_result(succeeded: bool) -> (r: Result<(), Error>)
    ensures
        succeeded ==> r is Ok,
        !succeeded ==> (r matches Err(e) && e.is_message("failed to inherit env"@)),
{
    if succeeded {
        Ok(())
    } else {
        Err(message_error("failed to inherit env"))
    }
}

/// What queueing a preopen comes to, given whether the C side took it.
pub fn preopen_result(succeeded: bool) -> (r: Result<(), Error>)
    ensures
        succeeded ==> r is Ok,
        !succeeded ==> (r matches Err(e) && e.is_message("failed to preopen directory"@)),
{
    if succeeded {
        Ok(())
    } else {
        Err(message_error("failed to preopen directory"))
    }
}

} // verus!
