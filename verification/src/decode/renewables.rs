//! The renewables share of a state's grid, as the renewables endpoint lists it.

use crate::decode::{
    collected, decode_each, not_a_list, not_an_array, outcomes_of, renders, renders_list,
};
use crate::error::Error;
use crate::fields::{
    decimal_of, member_of, read_decimal, read_small_number, read_text, read_timestamp, small_number_of, text_of, timestamp_of,
};
use crate::json::{items, json_document, json_tree, parse_document, JsonView};
use crate::records::{CurrentRenewables, CurrentRenewablesView};
use vstd::prelude::*;

verus! {

/// The renewables share of one interval.
pub open spec fn renewables_of(tree: JsonView) -> Result<CurrentRenewablesView, Seq<char>> {
    let interval_type = text_of(tree, "type"@);
    let duration = small_number_of(tree, "duration"@);
    let date = timestamp_of(tree, "date"@);
    let start_time = timestamp_of(tree, "startTime"@);
    let end_time = timestamp_of(tree, "endTime"@);
    let nem_time = timestamp_of(tree, "nemTime"@);
    let renewables = decimal_of(tree, "renewables"@);
    let descriptor = text_of(tree, "descriptor"@);
    if interval_type is Err {
        Err(interval_type->Err_0)
    } else if duration is Err {
        Err(duration->Err_0)
    } else if date is Err {
        Err(date->Err_0)
    } else if start_time is Err {
        Err(start_time->Err_0)
    } else if end_time is Err {
        Err(end_time->Err_0)
    } else if nem_time is Err {
        Err(nem_time->Err_0)
    } else if renewables is Err {
        Err(renewables->Err_0)
    } else if descriptor is Err {
        Err(descriptor->Err_0)
    } else {
        Ok(
            CurrentRenewablesView {
                interval_type: interval_type->Ok_0,
                duration: duration->Ok_0,
                date: date->Ok_0,
                start_time: start_time->Ok_0,
                end_time: end_time->Ok_0,
                nem_time: nem_time->Ok_0,
                renewables: renewables->Ok_0,
                descriptor: descriptor->Ok_0,
            },
        )
    }
}

/// Reads the renewables share of one interval.
pub fn decode_renewables(record: &serde_json::Value) -> (res: Result<CurrentRenewables, Error>)
    ensures
        renders(res, renewables_of(json_tree(*record))),
{
    let interval_type = read_text(record, "type")?;
    let duration = read_small_number(record, "duration")?;
    let date = read_timestamp(record, "date")?;
    let start_time = read_timestamp(record, "startTime")?;
    let end_time = read_timestamp(record, "endTime")?;
    let nem_time = read_timestamp(record, "nemTime")?;
    let renewables = read_decimal(record, "renewables")?;
    let descriptor = read_text(record, "descriptor")?;
    Ok(
        CurrentRenewables {
            interval_type,
            duration,
            date,
            start_time,
            end_time,
            nem_time,
            renewables,
            descriptor,
        },
    )
}

/// The renewables records of a document, which must be an array of them.
pub open spec fn renewables_list_of(tree: JsonView) -> Result<Seq<CurrentRenewablesView>, Seq<char>> {
    match tree {
        JsonView::Array(elements) => collected(
            elements.map_values(|element: JsonView| renewables_of(element)),
        ),
        _ => Err(not_a_list()),
    }
}

/// The renewables records that a response body holds: those of the document that it is
/// the text of.
pub open spec fn renewables_in(body: Seq<char>) -> Result<Seq<CurrentRenewablesView>, Seq<char>> {
    match json_document(body) {
        Ok(tree) => renewables_list_of(tree),
        Err(message) => Err(message),
    }
}

/// Reads the renewables records of a document.
pub fn decode_renewables_list(document: &serde_json::Value) -> (res: Result<Vec<CurrentRenewables>, Error>)
    ensures
        renders_list(res, renewables_list_of(json_tree(*document))),
{
    let list = match items(document) {
        Some(list) => list,
        None => return Err(not_an_array()),
    };
    let ghost of = |tree: JsonView| renewables_of(tree);
    let res = decode_each(list, decode_renewables, Ghost(of));
    proof {
        let elements = json_tree(*document)->Array_0;
        assert(outcomes_of(list@, of) =~= elements.map_values(
            |element: JsonView| renewables_of(element),
        ));
    }
    res
}

/// Reads the renewables records of a response body.
pub fn parse_renewables(body: &str) -> (res: Result<Vec<CurrentRenewables>, Error>)
    ensures
        renders_list(res, renewables_in(body@)),
{
    match parse_document(body) {
        Ok(document) => decode_renewables_list(&document),
        Err(message) => Err(Error::ResponseDecodeError(message)),
    }
}

/// A renewables record is read from the members that its type names and from no
/// others: two objects that agree on those give the same outcome.
pub proof fn lemma_renewables_reads_its_members_only(a: JsonView, b: JsonView)
    requires
        member_of(a, "type"@) == member_of(b, "type"@),
        member_of(a, "duration"@) == member_of(b, "duration"@),
        member_of(a, "date"@) == member_of(b, "date"@),
        member_of(a, "startTime"@) == member_of(b, "startTime"@),
        member_of(a, "endTime"@) == member_of(b, "endTime"@),
        member_of(a, "nemTime"@) == member_of(b, "nemTime"@),
        member_of(a, "renewables"@) == member_of(b, "renewables"@),
        member_of(a, "descriptor"@) == member_of(b, "descriptor"@),
    ensures
        renewables_of(a) == renewables_of(b),
{
}

} // verus!
