//! The limits of a linear memory, and what a grow is allowed to do.

use vstd::prelude::*;

use crate::error::{message_error, Error};

verus! {

/// The wasm-c-api's "no maximum" sentinel for `wasm_limits_t.max`
/// (`wasm_limits_max_default`).
pub const NO_MAX: u32 = 0xffff_ffffu32;

/// The `max` of the `wasm_limits_t` a memory is created with: the maximum
/// asked for, or the "no maximum" sentinel when there is none.
pub open spec fn limits_max_of(max: Option<u32>) -> u32 {
    match max {
        Some(x) => x,
        None => NO_MAX,
    }
}

/// The `wasm_limits_t` of a memory: its size and maximum, in 64 KiB pages,
/// with the "no maximum" sentinel standing for no maximum.
#[derive(Debug, Clone, Copy, PartialEq, Eq, Structural)]
pub struct Limits {
    pub min: u32,
    pub max: u32,
}

impl Limits {
    /// The limits a memory of `min` pages, growable to `max` pages, is
    /// created with. `None` for `max` means no maximum.
    pub fn new(min: u32, max: Option<u32>) -> (l: Limits)
        ensures
            l.min == min,
            l.max == limits_max_of(max),
            max matches Some(x) ==> l.max == x,
            max is None ==> l.max == NO_MAX,
    {
        let max = match max {
            Some(x) => x,
            None => NO_MAX,
        };
        Limits { min, max }
    }
}

/// `Some(u32::MAX)` is indistinguishable from `None`: the sentinel that means
/// "no maximum" cannot also be a limit, so a memory created with the largest
/// maximum and one created with none have the same limits, and a grow is never
/// refused for exceeding the maximum of either. Every other maximum is kept as
/// asked.
pub proof fn lemma_largest_maximum_is_no_maximum(
    min: u32,
    max: Option<u32>,
    a: Limits,
    b: Limits,
    size: u32,
    delta: u32,
)
    requires
        a.min == min && a.max == limits_max_of(Some(u32::MAX)),
        b.min == min && b.max == limits_max_of(None),
    ensures
        a == b,
        limits_max_of(max) == limits_max_of(None) <==> (max is None || max == Some(u32::MAX)),
        grow_fits(size, a.max, delta),
        grow_fits(size, b.max, delta),
{
}

/// Whether growing a memory of `size` pages by `delta` pages stays within
/// the maximum `max` it declared.
pub open spec fn grow_fits(size: u32, max: u32, delta: u32) -> bool {
    max == NO_MAX || size + delta <= max
}

/// A grow fits a real maximum exactly when the new size, computed without
/// overflow, is at most that maximum: a memory already at its maximum refuses
/// any grow of a page or more, a grow of nothing always fits, and a fitting
/// grow stays fitting when the memory or the grow is smaller.
pub proof fn lemma_grow_fits_is_the_new_size_within_the_maximum(size: u32, max: u32, delta: u32)
    ensures
        max != NO_MAX ==> (grow_fits(size, max, delta) <==> size as int + delta as int <= max as int),
        max != NO_MAX && size == max && delta >= 1 ==> !grow_fits(size, max, delta),
        size <= max ==> grow_fits(size, max, 0),
        max == NO_MAX ==> grow_fits(size, max, delta),
        forall|s2: u32, d2: u32|
            grow_fits(size, max, delta) && s2 <= size && d2 <= delta ==> grow_fits(s2, max, d2),
{
}

/// The limits keep every maximum exactly as asked: only "no maximum" becomes
/// the sentinel, and two different maxima other than the sentinel never give
/// the same limits.
pub proof fn lemma_maximum_is_kept_as_asked(x: u32, y: u32)
    ensures
        limits_max_of(Some(x)) == x,
        limits_max_of(None) == NO_MAX,
        x != y ==> limits_max_of(Some(x)) != limits_max_of(Some(y)),
{
}

/// Decides, before the C call, whether a grow may go ahead.
///
/// `declared_max` is the maximum read from the memory's own type, or `None`
/// when the type could not be read. zwasm's host-side `wasm_memory_grow` does
/// not enforce the declared maximum, so it is enforced here: a grow that would
/// take the memory past it fails, and so does one whose new size would not
/// fit in a `u32`.
pub fn check_grow(declared_max: Option<u32>, size: u32, delta: u32) -> (r: Result<(), Error>)
    ensures
        declared_max is None ==> (r matches Err(e) && e.is_message(
            "failed to read the memory's type"@,
        )),
        declared_max matches Some(max) && !grow_fits(size, max, delta) ==> (r matches Err(e)
            && e.is_message("failed to grow memory"@)),
        r is Ok <==> (declared_max matches Some(max) && grow_fits(size, max, delta)),
        declared_max is Some && declared_max->0 != NO_MAX ==> (r is Ok <==> size as int
            + delta as int <= declared_max->0 as int),
        declared_max == Some(NO_MAX) ==> r is Ok,
{
    match declared_max {
        None => Err(message_error("failed to read the memory's type")),
        Some(max) => {
            if max != NO_MAX {
                match size.checked_add(delta) {
                    None => {
                        return Err(message_error("failed to grow memory"));
                    },
                    Some(total) => {
                        if total > max {
                            return Err(message_error("failed to grow memory"));
                        }
                    },
                }
            }
            Ok(())
        },
    }
}

/// What a grow returns once the C side has answered: the size before the
/// grow when it happened, an error when it did not.
pub fn grow_result(previous_size: u32, grew: bool) -> (r: Result<u32, Error>)
    ensures
        grew ==> r == Ok::<u32, Error>(previous_size),
        !grew ==> (r matches Err(e) && e.is_message("failed to grow memory"@)),
{
    if grew {
        Ok(previous_size)
    } else {
        Err(message_error("failed to grow memory"))
    }
}

} // verus!
