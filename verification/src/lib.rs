//! A client for the Amber Electric API that leaves the sending to its
//! caller.
//!
//! Each query is made in two steps. The first, one of [`get_site_data`],
//! [`get_prices`], [`get_usage_by_date`] and [`get_renewables`], gives the
//! client whose request asks for the resource. The caller sends that request
//! and hands what came of it to the client's matching method, which gives the
//! records or the failure.

use vstd::prelude::*;

pub mod app_config;
pub mod date;
pub mod decode;
pub mod digits;
pub mod endpoint;
pub mod error;
pub mod fields;
pub mod json;
pub mod records;
pub mod rest_client;
pub mod timestamp;

use crate::date::{calendar_form, is_date_shaped, is_valid_date, DateRange};
use crate::endpoint::{
    prices_endpoint, prices_url, renewables_endpoint, renewables_url, sites_endpoint, sites_url,
    usage_endpoint, usage_url, QueryWindow,
};
use crate::error::{Error, ErrorView};
use crate::rest_client::{CurrentPrices, RestClient, SiteDetails};

verus! {

/// Whether a price interval is spiking.
#[derive(Debug, Clone, Copy, PartialEq, Eq)]
pub enum SpikeStatus {
    NoSpike,
    Potential,
    Spike,
}

/// The status that the API names by `label`, if it is one of the three.
pub open spec fn spike_status_named(label: Seq<char>) -> Option<SpikeStatus> {
    if label == "none"@ {
        Some(SpikeStatus::NoSpike)
    } else if label == "potential"@ {
        Some(SpikeStatus::Potential)
    } else if label == "spike"@ {
        Some(SpikeStatus::Spike)
    } else {
        None
    }
}

/// The sentence for a status, and the one for a label that names none.
pub open spec fn spike_message(status: Option<SpikeStatus>) -> Seq<char> {
    match status {
        Some(SpikeStatus::NoSpike) => "Interval has no spike"@,
        Some(SpikeStatus::Potential) => "Interval has potential to spike."@,
        Some(SpikeStatus::Spike) => "Interval spiking"@,
        None => "Unknown spike status"@,
    }
}

/// The sentence of each of the three labels, and the one that any other
/// label gets.
pub proof fn lemma_spike_sentences(label: Seq<char>)
    ensures
        spike_message(spike_status_named("none"@)) == "Interval has no spike"@,
        spike_message(spike_status_named("potential"@)) == "Interval has potential to spike."@,
        spike_message(spike_status_named("spike"@)) == "Interval spiking"@,
        label != "none"@ && label != "potential"@ && label != "spike"@ ==> spike_message(
            spike_status_named(label),
        ) == "Unknown spike status"@,
{
    reveal_strlit("none");
    reveal_strlit("potential");
    reveal_strlit("spike");
    assert("none"@.len() == 4);
    assert("potential"@.len() == 9);
    assert("spike"@.len() == 5);
}

fn same_text(a: &str, b: &str) -> (res: bool)
    ensures
        res == (a@ == b@),
{
    String::from_str(a) == String::from_str(b)
}

impl SpikeStatus {
    pub fn from_label(label: &str) -> (res: Option<SpikeStatus>)
        ensures
            res == spike_status_named(label@),
    {
        if same_text(label, "none") {
            Some(SpikeStatus::NoSpike)
        } else if same_text(label, "potential") {
            Some(SpikeStatus::Potential)
        } else if same_text(label, "spike") {
            Some(SpikeStatus::Spike)
        } else {
            None
        }
    }
}

/// The sentence for the spike status that `label` names. A label that the
/// API is not known to use gets a sentence of its own.
pub fn spike_status_message(label: &str) -> (res: String)
    ensures
        res@ == spike_message(spike_status_named(label@)),
{
    match SpikeStatus::from_label(label) {
        Some(SpikeStatus::NoSpike) => String::from_str("Interval has no spike"),
        Some(SpikeStatus::Potential) => String::from_str("Interval has potential to spike."),
        Some(SpikeStatus::Spike) => String::from_str("Interval spiking"),
        None => String::from_str("Unknown spike status"),
    }
}

/// The id of the account's site: that of the first site listed.
pub fn get_user_site_id(user_site_data: &Vec<SiteDetails>) -> (res: Result<String, Error>)
    ensures
        match res {
            Ok(id) => user_site_data@.len() > 0 && id@ == user_site_data@[0].id@,
            Err(failure) => user_site_data@.len() == 0 && failure@ == ErrorView::EmptySiteList,
        },
{
    if user_site_data.len() == 0 {
        Err(Error::EmptySiteList)
    } else {
        Ok(user_site_data[0].id.clone())
    }
}

/// The client for the sites of the account.
pub fn get_site_data(base_url: String, auth_token: String) -> (client: RestClient)
    ensures
        client.url@ == sites_endpoint(base_url@),
        client.auth_token@ == auth_token@,
{
    RestClient::new_client(sites_url(base_url.as_str()), auth_token)
}

/// The client for the prices of a site in a window.
pub fn get_prices(
    base_url: String,
    auth_token: String,
    site_id: String,
    window: QueryWindow,
) -> (client: RestClient)
    ensures
        client.url@ == prices_endpoint(base_url@, site_id@, window),
        client.auth_token@ == auth_token@,
{
    RestClient::new_client(prices_url(base_url.as_str(), site_id.as_str(), window), auth_token)
}

/// The client for the usage of a site from `start_date` to `end_date`, where
/// both are real calendar dates written as `YYYY-MM-DD`. A bad start date is
/// reported before a bad end date.
pub fn get_usage_by_date(
    base_url: String,
    auth_token: String,
    site_id: String,
    start_date: String,
    end_date: String,
) -> (res: Result<RestClient, Error>)
    ensures
        match res {
            Ok(client) => {
                &&& is_valid_date(start_date@)
                &&& is_valid_date(end_date@)
                &&& client.url@ == usage_endpoint(base_url@, site_id@, start_date@, end_date@)
                &&& client.auth_token@ == auth_token@
            },
            Err(failure) => if !is_valid_date(start_date@) {
                failure@ == ErrorView::InvalidDateFormat(start_date@)
            } else {
                !is_valid_date(end_date@) && failure@ == ErrorView::InvalidDateFormat(end_date@)
            },
        },
{
    let range = DateRange::new(start_date, end_date)?;
    let usage_data_url = usage_url(base_url.as_str(), site_id.as_str(), &range);
    Ok(RestClient::new_client(usage_data_url, auth_token))
}

/// The client for the renewables share of a state's grid in a window.
pub fn get_renewables(
    base_url: String,
    auth_token: String,
    state: String,
    window: QueryWindow,
) -> (client: RestClient)
    ensures
        client.url@ == renewables_endpoint(base_url@, state@, window),
        client.auth_token@ == auth_token@,
{
    RestClient::new_client(renewables_url(base_url.as_str(), state.as_str(), window), auth_token)
}

/// Checks that `date` is a real calendar date written as `YYYY-MM-DD`, and
/// gives it back in that form.
pub fn parse_date_naive(date: String) -> (res: Result<String, Error>)
    ensures
        match res {
            Ok(valid_date) => is_valid_date(date@) && valid_date@ == date@,
            Err(failure) => !is_valid_date(date@) && failure@ == ErrorView::InvalidDateFormat(
                date@,
            ),
        },
{
    if !is_date_shaped(date.as_str()) {
        return Err(Error::InvalidDateFormat(date));
    }
    match calendar_form(date.as_str()) {
        Some(valid_date) => Ok(valid_date),
        None => Err(Error::InvalidDateFormat(date)),
    }
}

/// The sentence for the spike status of the current interval, which is the
/// first of the prices that a query for the current window gave.
pub fn get_spike_status(current_price_data: &Vec<CurrentPrices>) -> (res: String)
    requires
        current_price_data@.len() > 0,
    ensures
        res@ == spike_message(spike_status_named(current_price_data@[0].spike_status@)),
{
    spike_status_message(current_price_data[0].spike_status.as_str())
}

} // verus!
