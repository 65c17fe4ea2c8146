//! The headers of an HTTP request, as far as the server reads them.

use hyper::header::{HeaderMap, HeaderValue};
use vstd::prelude::*;

verus! {

/// `hyper::header::HeaderMap`, the headers of a request. What it holds is named by
/// [`header_fields`].
#[verifier::external_type_specification]
#[verifier::external_body]
#[verifier::reject_recursive_types(T)]
pub struct ExHeaderMap<T>(hyper::header::HeaderMap<T>);

/// `hyper::header::HeaderValue`, one value of a header.
#[verifier::external_type_specification]
#[verifier::external_body]
pub struct ExHeaderValue(hyper::header::HeaderValue);

/// The headers that a map holds: for the name of each header, in lower case, the bytes of its
/// values in the order in which they were added. A name that stands in it has a value.
pub uninterp spec fn header_fields(headers: HeaderMap<HeaderValue>) -> Map<Seq<char>, Seq<Seq<u8>>>;

/// Whether `name` is the name of a header as a map keeps it: lower-case letters and hyphens, not
/// too long for a name.
pub open spec fn is_lower_case_name(name: Seq<char>) -> bool {
    &&& 0 < name.len() <= 64
    &&& forall|i: int| 0 <= i < name.len() ==> 'a' <= #[trigger] name[i] <= 'z' || name[i] == '-'
}

/// The first value of the header `name`, if there is one.
pub open spec fn first_value(fields: Map<Seq<char>, Seq<Seq<u8>>>, name: Seq<char>) -> Option<
    Seq<u8>,
> {
    if fields.contains_key(name) {
        Some(fields[name].first())
    } else {
        None
    }
}

/// The view of an optional string of bytes.
pub open spec fn bytes_view(value: Option<Vec<u8>>) -> Option<Seq<u8>> {
    match value {
        Some(bytes) => Some(bytes@),
        None => None,
    }
}

/// `HeaderMap::get`, and the bytes of the value that it finds: the first value of the header
/// `name`, or `None` where the map has no such header.
#[verifier::external_body]
pub(crate) fn header_value(headers: &HeaderMap<HeaderValue>, name: &str) -> (value: Option<Vec<u8>>)
    requires
        is_lower_case_name(name@),
    ensures
        bytes_view(value) == first_value(header_fields(*headers), name@),
{
    headers.get(name).map(|value| value.as_bytes().to_vec())
}

/// Whether two strings of bytes are the same.
pub(crate) fn same_bytes(a: &[u8], b: &[u8]) -> (same: bool)
    ensures
        same == (a@ == b@),
{
    if a.len() != b.len() {
        return false;
    }
    for i in 0..a.len()
        invariant
            a.len() == b.len(),
            a@.take(i as int) == b@.take(i as int),
    {
        if a[i] != b[i] {
            assert(a@[i as int] != b@[i as int]);
            return false;
        }
        assert(a@.take(i + 1) =~= a@.take(i as int).push(a@[i as int]));
        assert(b@.take(i + 1) =~= b@.take(i as int).push(b@[i as int]));
    }
    assert(a@ =~= a@.take(a.len() as int));
    assert(b@ =~= b@.take(a.len() as int));
    true
}

} // verus!
