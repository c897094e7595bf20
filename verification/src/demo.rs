//! Small demonstrations of properties the verifier establishes statically.

use vstd::prelude::*;

verus! {

/// Reads from a fixed array. The verifier proves every index in bounds, so
/// the accesses carry no run-time failure path; an out-of-range index would
/// be rejected before the program ever ran.
pub fn demonstrate_performance() {
    let arr: [u64; 3] = [1, 2, 3];
    let first = arr[0];
    let last = arr[2];
    assert(first + last == 4);
}

} // verus!
