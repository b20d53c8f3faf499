//! How a partial update is laid over a stored record: a field that the
//! update names takes the new value, every other field keeps its own.

use vstd::prelude::*;

verus! {

/// The value of a field after an update.
pub open spec fn merged<T>(update: Option<T>, current: T) -> T {
    match update {
        Some(value) => value,
        None => current,
    }
}

/// The value of an optional field after an update: the update can set the
/// field, it cannot clear it.
pub open spec fn merged_optional<T>(update: Option<T>, current: Option<T>) -> Option<T> {
    match update {
        Some(value) => Some(value),
        None => current,
    }
}

/// The value of a field after an update.
pub fn or_keep<T>(update: Option<T>, current: T) -> (r: T)
    ensures
        r == merged(update, current),
{
    match update {
        Some(value) => value,
        None => current,
    }
}

/// The value of an optional field after an update.
pub fn or_keep_optional<T>(update: Option<T>, current: Option<T>) -> (r: Option<T>)
    ensures
        r == merged_optional(update, current),
{
    match update {
        Some(value) => Some(value),
        None => current,
    }
}

} // verus!
