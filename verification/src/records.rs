//! The records that the API's endpoints answer with, and what each holds.
//!
//! A decimal quantity (a price, an amount of energy, a percentage) is kept
//! as the numeral it was received as: nothing here computes with it.

use iso8601_timestamp::Timestamp;
use vstd::prelude::*;

verus! {

/// One metering channel of a site.
#[derive(Debug, Clone, PartialEq)]
pub struct SiteChannels {
    pub identifier: String,
    pub tariff: String,
    pub tariff_type: String,
}

pub struct SiteChannelsView {
    pub identifier: Seq<char>,
    pub tariff: Seq<char>,
    pub tariff_type: Seq<char>,
}

impl View for SiteChannels {
    type V = SiteChannelsView;

    open spec fn view(&self) -> SiteChannelsView {
        SiteChannelsView {
            identifier: self.identifier@,
            tariff: self.tariff@,
            tariff_type: self.tariff_type@,
        }
    }
}

/// The metering point of an account.
#[derive(Debug, Clone, PartialEq)]
pub struct SiteDetails {
    pub active_from: Timestamp,
    pub channels: Vec<SiteChannels>,
    pub id: String,
    pub network: String,
    pub nmi: String,
    pub status: String,
}

pub struct SiteDetailsView {
    pub active_from: Timestamp,
    pub channels: Seq<SiteChannelsView>,
    pub id: Seq<char>,
    pub network: Seq<char>,
    pub nmi: Seq<char>,
    pub status: Seq<char>,
}

impl View for SiteDetails {
    type V = SiteDetailsView;

    open spec fn view(&self) -> SiteDetailsView {
        SiteDetailsView {
            active_from: self.active_from,
            channels: self.channels@.map_values(|channel: SiteChannels| channel@),
            id: self.id@,
            network: self.network@,
            nmi: self.nmi@,
            status: self.status@,
        }
    }
}

/// The billing period that an interval falls in.
#[derive(Debug, Clone, PartialEq)]
pub struct TariffInformation {
    pub period: String,
}

pub struct TariffInformationView {
    pub period: Seq<char>,
}

impl View for TariffInformation {
    type V = TariffInformationView;

    open spec fn view(&self) -> TariffInformationView {
        TariffInformationView { period: self.period@ }
    }
}

/// The price of one 30-minute interval.
#[derive(Debug, Clone, PartialEq)]
pub struct CurrentPrices {
    pub interval_type: String,
    pub date: Timestamp,
    pub duration: u8,
    pub start_time: Timestamp,
    pub end_time: Timestamp,
    pub nem_time: Timestamp,
    pub per_kwh: String,
    pub renewables: String,
    pub spot_per_kwh: String,
    pub channel_type: String,
    pub spike_status: String,
    pub tariff_information: TariffInformation,
    pub descriptor: String,
    /// Whether the price is a forecast. A forecast interval may leave it out.
    pub estimate: Option<bool>,
}

pub struct CurrentPricesView {
    pub interval_type: Seq<char>,
    pub date: Timestamp,
    pub duration: u8,
    pub start_time: Timestamp,
    pub end_time: Timestamp,
    pub nem_time: Timestamp,
    pub per_kwh: Seq<char>,
    pub renewables: Seq<char>,
    pub spot_per_kwh: Seq<char>,
    pub channel_type: Seq<char>,
    pub spike_status: Seq<char>,
    pub tariff_information: TariffInformationView,
    pub descriptor: Seq<char>,
    pub estimate: Option<bool>,
}

impl View for CurrentPrices {
    type V = CurrentPricesView;

    open spec fn view(&self) -> CurrentPricesView {
        CurrentPricesView {
            interval_type: self.interval_type@,
            date: self.date,
            duration: self.duration,
            start_time: self.start_time,
            end_time: self.end_time,
            nem_time: self.nem_time,
            per_kwh: self.per_kwh@,
            renewables: self.renewables@,
            spot_per_kwh: self.spot_per_kwh@,
            channel_type: self.channel_type@,
            spike_status: self.spike_status@,
            tariff_information: self.tariff_information@,
            descriptor: self.descriptor@,
            estimate: self.estimate,
        }
    }
}

/// The metered usage of one past 30-minute interval.
#[derive(Debug, Clone, PartialEq)]
pub struct CurrentUsage {
    pub price_type: String,
    pub duration: u8,
    pub date: Timestamp,
    pub end_time: Timestamp,
    pub quality: String,
    pub kwh: String,
    pub nem_time: Timestamp,
    pub per_kwh: String,
    pub channel_type: String,
    pub channel_identifier: String,
    pub cost: String,
    pub renewables: String,
    pub spot_per_kwh: String,
    pub start_time: Timestamp,
    pub spike_status: String,
    pub tariff_information: TariffInformation,
    pub descriptor: String,
}

pub struct CurrentUsageView {
    pub price_type: Seq<char>,
    pub duration: u8,
    pub date: Timestamp,
    pub end_time: Timestamp,
    pub quality: Seq<char>,
    pub kwh: Seq<char>,
    pub nem_time: Timestamp,
    pub per_kwh: Seq<char>,
    pub channel_type: Seq<char>,
    pub channel_identifier: Seq<char>,
    pub cost: Seq<char>,
    pub renewables: Seq<char>,
    pub spot_per_kwh: Seq<char>,
    pub start_time: Timestamp,
    pub spike_status: Seq<char>,
    pub tariff_information: TariffInformationView,
    pub descriptor: Seq<char>,
}

impl View for CurrentUsage {
    type V = CurrentUsageView;

    open spec fn view(&self) -> CurrentUsageView {
        CurrentUsageView {
            price_type: self.price_type@,
            duration: self.duration,
            date: self.date,
            end_time: self.end_time,
            quality: self.quality@,
            kwh: self.kwh@,
            nem_time: self.nem_time,
            per_kwh: self.per_kwh@,
            channel_type: self.channel_type@,
            channel_identifier: self.channel_identifier@,
            cost: self.cost@,
            renewables: self.renewables@,
            spot_per_kwh: self.spot_per_kwh@,
            start_time: self.start_time,
            spike_status: self.spike_status@,
            tariff_information: self.tariff_information@,
            descriptor: self.descriptor@,
        }
    }
}

/// The share of renewable energy in a state's grid over one 30-minute
/// interval.
#[derive(Debug, Clone, PartialEq)]
pub struct CurrentRenewables {
    pub interval_type: String,
    pub duration: u8,
    pub date: Timestamp,
    pub start_time: Timestamp,
    pub end_time: Timestamp,
    pub nem_time: Timestamp,
    pub renewables: String,
    pub descriptor: String,
}

pub struct CurrentRenewablesView {
    pub interval_type: Seq<char>,
    pub duration: u8,
    pub date: Timestamp,
    pub start_time: Timestamp,
    pub end_time: Timestamp,
    pub nem_time: Timestamp,
    pub renewables: Seq<char>,
    pub descriptor: Seq<char>,
}

impl View for CurrentRenewables {
    type V = CurrentRenewablesView;

    open spec fn view(&self) -> CurrentRenewablesView {
        CurrentRenewablesView {
            interval_type: self.interval_type@,
            duration: self.duration,
            date: self.date,
            start_time: self.start_time,
            end_time: self.end_time,
            nem_time: self.nem_time,
            renewables: self.renewables@,
            descriptor: self.descriptor@,
        }
    }
}

} // verus!
