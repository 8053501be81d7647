//! The sites of an account, as the sites endpoint lists them.

use crate::decode::{
    collected, decode_each, not_a_list, not_an_array, outcomes_of, renders, renders_list,
};
use crate::error::Error;
use crate::fields::{
    invalid, invalid_field, member_of, missing, missing_field, read_text, read_timestamp, text_of, timestamp_of,
};
use crate::json::{items, json_document, json_tree, member, parse_document, JsonView};
use crate::records::{SiteChannels, SiteChannelsView, SiteDetails, SiteDetailsView};
use vstd::prelude::*;

verus! {

/// One channel of a site.
pub open spec fn channel_of(tree: JsonView) -> Result<SiteChannelsView, Seq<char>> {
    let identifier = text_of(tree, "identifier"@);
    let tariff = text_of(tree, "tariff"@);
    let tariff_type = text_of(tree, "type"@);
    if identifier is Err {
        Err(identifier->Err_0)
    } else if tariff is Err {
        Err(tariff->Err_0)
    } else if tariff_type is Err {
        Err(tariff_type->Err_0)
    } else {
        Ok(
            SiteChannelsView {
                identifier: identifier->Ok_0,
                tariff: tariff->Ok_0,
                tariff_type: tariff_type->Ok_0,
            },
        )
    }
}

/// Reads one channel of a site.
pub fn decode_channel(record: &serde_json::Value) -> (res: Result<SiteChannels, Error>)
    ensures
        renders(res, channel_of(json_tree(*record))),
{
    let identifier = read_text(record, "identifier")?;
    let tariff = read_text(record, "tariff")?;
    let tariff_type = read_text(record, "type")?;
    Ok(SiteChannels { identifier, tariff, tariff_type })
}

/// The member `name`, which must be an array of channels.
pub open spec fn channels_of(tree: JsonView, name: Seq<char>) -> Result<
    Seq<SiteChannelsView>,
    Seq<char>,
> {
    match member_of(tree, name) {
        None => Err(missing_field(name)),
        Some(JsonView::Array(elements)) => collected(
            elements.map_values(|element: JsonView| channel_of(element)),
        ),
        Some(_) => Err(invalid_field(name)),
    }
}

/// Reads the channels under `name`.
pub fn decode_channels(record: &serde_json::Value, name: &str) -> (res: Result<
    Vec<SiteChannels>,
    Error,
>)
    ensures
        renders_list(res, channels_of(json_tree(*record), name@)),
{
    let value = match member(record, name) {
        Some(value) => value,
        None => return Err(missing(name)),
    };
    let list = match items(value) {
        Some(list) => list,
        None => return Err(invalid(name)),
    };
    let ghost of = |tree: JsonView| channel_of(tree);
    let res = decode_each(list, decode_channel, Ghost(of));
    proof {
        let elements = json_tree(*value)->Array_0;
        assert(outcomes_of(list@, of) =~= elements.map_values(
            |element: JsonView| channel_of(element),
        ));
    }
    res
}

/// One site.
pub open spec fn site_of(tree: JsonView) -> Result<SiteDetailsView, Seq<char>> {
    let active_from = timestamp_of(tree, "activeFrom"@);
    let channels = channels_of(tree, "channels"@);
    let id = text_of(tree, "id"@);
    let network = text_of(tree, "network"@);
    let nmi = text_of(tree, "nmi"@);
    let status = text_of(tree, "status"@);
    if active_from is Err {
        Err(active_from->Err_0)
    } else if channels is Err {
        Err(channels->Err_0)
    } else if id is Err {
        Err(id->Err_0)
    } else if network is Err {
        Err(network->Err_0)
    } else if nmi is Err {
        Err(nmi->Err_0)
    } else if status is Err {
        Err(status->Err_0)
    } else {
        Ok(
            SiteDetailsView {
                active_from: active_from->Ok_0,
                channels: channels->Ok_0,
                id: id->Ok_0,
                network: network->Ok_0,
                nmi: nmi->Ok_0,
                status: status->Ok_0,
            },
        )
    }
}

/// Reads one site.
pub fn decode_site(record: &serde_json::Value) -> (res: Result<SiteDetails, Error>)
    ensures
        renders(res, site_of(json_tree(*record))),
{
    let active_from = read_timestamp(record, "activeFrom")?;
    let channels = decode_channels(record, "channels")?;
    let id = read_text(record, "id")?;
    let network = read_text(record, "network")?;
    let nmi = read_text(record, "nmi")?;
    let status = read_text(record, "status")?;
    Ok(SiteDetails { active_from, channels, id, network, nmi, status })
}

/// The sites of a document, which must be an array of them.
pub open spec fn sites_of(tree: JsonView) -> Result<Seq<SiteDetailsView>, Seq<char>> {
    match tree {
        JsonView::Array(elements) => collected(
            elements.map_values(|element: JsonView| site_of(element)),
        ),
        _ => Err(not_a_list()),
    }
}

/// The sites that a response body holds: those of the document that it is
/// the text of.
pub open spec fn sites_in(body: Seq<char>) -> Result<Seq<SiteDetailsView>, Seq<char>> {
    match json_document(body) {
        Ok(tree) => sites_of(tree),
        Err(message) => Err(message),
    }
}

/// Reads the sites of a document.
pub fn decode_sites(document: &serde_json::Value) -> (res: Result<Vec<SiteDetails>, Error>)
    ensures
        renders_list(res, sites_of(json_tree(*document))),
{
    let list = match items(document) {
        Some(list) => list,
        None => return Err(not_an_array()),
    };
    let ghost of = |tree: JsonView| site_of(tree);
    let res = decode_each(list, decode_site, Ghost(of));
    proof {
        let elements = json_tree(*document)->Array_0;
        assert(outcomes_of(list@, of) =~= elements.map_values(
            |element: JsonView| site_of(element),
        ));
    }
    res
}

/// Reads the sites of a response body.
pub fn parse_sites(body: &str) -> (res: Result<Vec<SiteDetails>, Error>)
    ensures
        renders_list(res, sites_in(body@)),
{
    match parse_document(body) {
        Ok(document) => decode_sites(&document),
        Err(message) => Err(Error::ResponseDecodeError(message)),
    }
}

/// A site is read from the members that its type names and from no
/// others: two objects that agree on those give the same outcome.
pub proof fn lemma_site_reads_its_members_only(a: JsonView, b: JsonView)
    requires
        member_of(a, "activeFrom"@) == member_of(b, "activeFrom"@),
        member_of(a, "channels"@) == member_of(b, "channels"@),
        member_of(a, "id"@) == member_of(b, "id"@),
        member_of(a, "network"@) == member_of(b, "network"@),
        member_of(a, "nmi"@) == member_of(b, "nmi"@),
        member_of(a, "status"@) == member_of(b, "status"@),
    ensures
        site_of(a) == site_of(b),
{
}

} // verus!
