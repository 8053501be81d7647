//! The prices of a site, as the prices endpoint lists them.

use crate::decode::{
    collected, decode_each, decode_tariff, not_a_list, not_an_array, outcomes_of, renders, renders_list, tariff_of,
};
use crate::error::Error;
use crate::fields::{
    decimal_of, member_of, optional_flag_of, read_decimal, read_optional_flag, read_small_number, read_text, read_timestamp, small_number_of, text_of, timestamp_of,
};
use crate::json::{items, json_document, json_tree, parse_document, JsonView};
use crate::records::{CurrentPrices, CurrentPricesView};
use vstd::prelude::*;

verus! {

/// The price of one interval.
pub open spec fn price_of(tree: JsonView) -> Result<CurrentPricesView, Seq<char>> {
    let interval_type = text_of(tree, "type"@);
    let date = timestamp_of(tree, "date"@);
    let duration = small_number_of(tree, "duration"@);
    let start_time = timestamp_of(tree, "startTime"@);
    let end_time = timestamp_of(tree, "endTime"@);
    let nem_time = timestamp_of(tree, "nemTime"@);
    let per_kwh = decimal_of(tree, "perKwh"@);
    let renewables = decimal_of(tree, "renewables"@);
    let spot_per_kwh = decimal_of(tree, "spotPerKwh"@);
    let channel_type = text_of(tree, "channelType"@);
    let spike_status = text_of(tree, "spikeStatus"@);
    let tariff_information = tariff_of(tree, "tariffInformation"@);
    let descriptor = text_of(tree, "descriptor"@);
    let estimate = optional_flag_of(tree, "estimate"@);
    if interval_type is Err {
        Err(interval_type->Err_0)
    } else if date is Err {
        Err(date->Err_0)
    } else if duration is Err {
        Err(duration->Err_0)
    } else if start_time is Err {
        Err(start_time->Err_0)
    } else if end_time is Err {
        Err(end_time->Err_0)
    } else if nem_time is Err {
        Err(nem_time->Err_0)
    } else if per_kwh is Err {
        Err(per_kwh->Err_0)
    } else if renewables is Err {
        Err(renewables->Err_0)
    } else if spot_per_kwh is Err {
        Err(spot_per_kwh->Err_0)
    } else if channel_type is Err {
        Err(channel_type->Err_0)
    } else if spike_status is Err {
        Err(spike_status->Err_0)
    } else if tariff_information is Err {
        Err(tariff_information->Err_0)
    } else if descriptor is Err {
        Err(descriptor->Err_0)
    } else if estimate is Err {
        Err(estimate->Err_0)
    } else {
        Ok(
            CurrentPricesView {
                interval_type: interval_type->Ok_0,
                date: date->Ok_0,
                duration: duration->Ok_0,
                start_time: start_time->Ok_0,
                end_time: end_time->Ok_0,
                nem_time: nem_time->Ok_0,
                per_kwh: per_kwh->Ok_0,
                renewables: renewables->Ok_0,
                spot_per_kwh: spot_per_kwh->Ok_0,
                channel_type: channel_type->Ok_0,
                spike_status: spike_status->Ok_0,
                tariff_information: tariff_information->Ok_0,
                descriptor: descriptor->Ok_0,
                estimate: estimate->Ok_0,
            },
        )
    }
}

/// Reads the price of one interval.
pub fn decode_price(record: &serde_json::Value) -> (res: Result<CurrentPrices, Error>)
    ensures
        renders(res, price_of(json_tree(*record))),
{
    let interval_type = read_text(record, "type")?;
    let date = read_timestamp(record, "date")?;
    let duration = read_small_number(record, "duration")?;
    let start_time = read_timestamp(record, "startTime")?;
    let end_time = read_timestamp(record, "endTime")?;
    let nem_time = read_timestamp(record, "nemTime")?;
    let per_kwh = read_decimal(record, "perKwh")?;
    let renewables = read_decimal(record, "renewables")?;
    let spot_per_kwh = read_decimal(record, "spotPerKwh")?;
    let channel_type = read_text(record, "channelType")?;
    let spike_status = read_text(record, "spikeStatus")?;
    let tariff_information = decode_tariff(record, "tariffInformation")?;
    let descriptor = read_text(record, "descriptor")?;
    let estimate = read_optional_flag(record, "estimate")?;
    Ok(
        CurrentPrices {
            interval_type,
            date,
            duration,
            start_time,
            end_time,
            nem_time,
            per_kwh,
            renewables,
            spot_per_kwh,
            channel_type,
            spike_status,
            tariff_information,
            descriptor,
            estimate,
        },
    )
}

/// The prices of a document, which must be an array of them.
pub open spec fn prices_of(tree: JsonView) -> Result<Seq<CurrentPricesView>, Seq<char>> {
    match tree {
        JsonView::Array(elements) => collected(
            elements.map_values(|element: JsonView| price_of(element)),
        ),
        _ => Err(not_a_list()),
    }
}

/// The prices that a response body holds: those of the document that it is
/// the text of.
pub open spec fn prices_in(body: Seq<char>) -> Result<Seq<CurrentPricesView>, Seq<char>> {
    match json_document(body) {
        Ok(tree) => prices_of(tree),
        Err(message) => Err(message),
    }
}

/// Reads the prices of a document.
pub fn decode_prices(document: &serde_json::Value) -> (res: Result<Vec<CurrentPrices>, Error>)
    ensures
        renders_list(res, prices_of(json_tree(*document))),
{
    let list = match items(document) {
        Some(list) => list,
        None => return Err(not_an_array()),
    };
    let ghost of = |tree: JsonView| price_of(tree);
    let res = decode_each(list, decode_price, Ghost(of));
    proof {
        let elements = json_tree(*document)->Array_0;
        assert(outcomes_of(list@, of) =~= elements.map_values(
            |element: JsonView| price_of(element),
        ));
    }
    res
}

/// Reads the prices of a response body.
pub fn parse_prices(body: &str) -> (res: Result<Vec<CurrentPrices>, Error>)
    ensures
        renders_list(res, prices_in(body@)),
{
    match parse_document(body) {
        Ok(document) => decode_prices(&document),
        Err(message) => Err(Error::ResponseDecodeError(message)),
    }
}

/// A price is read from the members that its type names and from no
/// others: two objects that agree on those give the same outcome.
pub proof fn lemma_price_reads_its_members_only(a: JsonView, b: JsonView)
    requires
        member_of(a, "type"@) == member_of(b, "type"@),
        member_of(a, "date"@) == member_of(b, "date"@),
        member_of(a, "duration"@) == member_of(b, "duration"@),
        member_of(a, "startTime"@) == member_of(b, "startTime"@),
        member_of(a, "endTime"@) == member_of(b, "endTime"@),
        member_of(a, "nemTime"@) == member_of(b, "nemTime"@),
        member_of(a, "perKwh"@) == member_of(b, "perKwh"@),
        member_of(a, "renewables"@) == member_of(b, "renewables"@),
        member_of(a, "spotPerKwh"@) == member_of(b, "spotPerKwh"@),
        member_of(a, "channelType"@) == member_of(b, "channelType"@),
        member_of(a, "spikeStatus"@) == member_of(b, "spikeStatus"@),
        member_of(a, "tariffInformation"@) == member_of(b, "tariffInformation"@),
        member_of(a, "descriptor"@) == member_of(b, "descriptor"@),
        member_of(a, "estimate"@) == member_of(b, "estimate"@),
    ensures
        price_of(a) == price_of(b),
{
}

} // verus!
