//! ISO 8601 timestamps, read by the `iso8601_timestamp` crate and carried
//! through the library as opaque values.

use vstd::prelude::*;

verus! {

#[verifier::external_type_specification]
#[verifier::external_body]
pub struct ExTimestamp(iso8601_timestamp::Timestamp);

/// `Timestamp` is `Copy`, and its derived `clone` is that copy.
pub assume_specification[ <iso8601_timestamp::Timestamp as Clone>::clone ](
    stamp: &iso8601_timestamp::Timestamp,
) -> (res: iso8601_timestamp::Timestamp)
    ensures
        res == *stamp,
;

/// The instant that `Timestamp::parse` reads from a text, if it reads one.
pub uninterp spec fn parsed_timestamp(text: Seq<char>) -> Option<iso8601_timestamp::Timestamp>;

/// Calls `iso8601_timestamp::Timestamp::parse`.
///
/// Trusted: the outcome depends on the text alone, which is all that the
/// contract claims by giving it the name `parsed_timestamp`.
#[verifier::external_body]
pub(crate) fn parse_timestamp(text: &str) -> (res: Option<iso8601_timestamp::Timestamp>)
    ensures
        res == parsed_timestamp(text@),
{
    iso8601_timestamp::Timestamp::parse(text)
}

} // verus!
