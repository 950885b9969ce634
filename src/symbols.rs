use vstd::prelude::*;

use crate::error::StreamError;

verus! {

/// Number of entry points a host-runtime library must export.
pub const SYMBOL_COUNT: usize = 6;

/// Index of the create-context entry point.
pub const CREATE_CONTEXT: usize = 0;

/// Index of the tear-down-context entry point.
pub const TEAR_DOWN_CONTEXT: usize = 1;

/// Index of the detach-thread entry point.
pub const DETACH_THREAD: usize = 2;

/// Index of the attach-thread entry point.
pub const ATTACH_THREAD: usize = 3;

/// Index of the data-producing entry point.
pub const PRODUCE_STREAM: usize = 4;

/// Index of the error-retrieval entry point.
pub const LAST_ERROR: usize = 5;

/// The exported name of each required entry point, in resolution order.
pub open spec fn symbol_name(index: int) -> Seq<char> {
    if index == 0 {
        "graal_create_isolate"@
    } else if index == 1 {
        "graal_tear_down_isolate"@
    } else if index == 2 {
        "graal_detach_thread"@
    } else if index == 3 {
        "graal_attach_thread"@
    } else if index == 4 {
        "gas_reader_stream"@
    } else {
        "gas_last_error"@
    }
}

/// The exported name of entry point `index`.
pub fn required_symbol(index: usize) -> (r: &'static str)
    requires
        index < SYMBOL_COUNT,
    ensures
        r@ == symbol_name(index as int),
{
    if index == CREATE_CONTEXT {
        "graal_create_isolate"
    } else if index == TEAR_DOWN_CONTEXT {
        "graal_tear_down_isolate"
    } else if index == DETACH_THREAD {
        "graal_detach_thread"
    } else if index == ATTACH_THREAD {
        "graal_attach_thread"
    } else if index == PRODUCE_STREAM {
        "gas_reader_stream"
    } else {
        "gas_last_error"
    }
}

/// Whether `index` is the first entry point that was not found.
pub open spec fn first_missing(found: Seq<bool>, index: int) -> bool {
    0 <= index < found.len() && !found[index] && forall|j: int| 0 <= j < index ==> found[j]
}

/// Decides construction from which entry points were found (`found[i]` for
/// entry point `i`): all found is success, and otherwise the error names the
/// first one that is missing.
pub fn resolution_outcome(found: &[bool]) -> (r: Result<(), StreamError>)
    requires
        found@.len() == SYMBOL_COUNT,
    ensures
        r is Ok <==> forall|i: int| 0 <= i < found@.len() ==> found@[i],
        r matches Err(e) ==> exists|i: int|
            #[trigger] first_missing(found@, i) && (e matches StreamError::SymbolResolution(s)
                && s@ == symbol_name(i)),
{
    let mut i: usize = 0;
    while i < SYMBOL_COUNT
        invariant
            found@.len() == SYMBOL_COUNT,
            i <= SYMBOL_COUNT,
            forall|j: int| 0 <= j < i ==> found@[j],
        decreases SYMBOL_COUNT - i,
    {
        if !found[i] {
            let name = required_symbol(i).to_owned();
            assert(first_missing(found@, i as int));
            return Err(StreamError::SymbolResolution(name));
        }
        i = i + 1;
    }
    Ok(())
}

} // verus!
