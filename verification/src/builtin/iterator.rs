//! The iteration protocol.

use vstd::prelude::*;
use crate::host::HostRequest;
use crate::value::Value;

verus! {

/// The request for an iterator over `obj` through the iteration protocol.
/// The host answers with the iterator, or with a failure that says that the
/// value is not iterable.
pub fn get_iterator(obj: Value) -> (request: HostRequest)
    ensures
        request == HostRequest::GetIterator(obj),
{
    HostRequest::GetIterator(obj)
}

} // verus!
