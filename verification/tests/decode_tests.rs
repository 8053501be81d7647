use amber_client::decode::prices::{decode_prices, parse_prices};
use amber_client::decode::renewables::parse_renewables;
use amber_client::decode::sites::{decode_sites, parse_sites};
use amber_client::decode::usage::parse_usages;
use amber_client::error::Error;
use amber_client::fields::parse_small_number;
use amber_client::rest_client::{
    CurrentPrices, CurrentRenewables, CurrentUsage, SiteChannels, SiteDetails, TariffInformation,
};
use iso8601_timestamp::Timestamp;

fn stamp(text: &str) -> Timestamp {
    Timestamp::parse(text).unwrap()
}

fn fault(message: &str) -> Error {
    Error::ResponseDecodeError(message.to_string())
}

const PRICE: &str = r#"{
    "type": "CurrentInterval",
    "date": "2023-12-18",
    "duration": 30,
    "startTime": "2023-12-18T01:00:01Z",
    "endTime": "2023-12-18T01:30:00Z",
    "nemTime": "2023-12-18T11:30:00+10:00",
    "perKwh": 24.51234,
    "renewables": 35,
    "spotPerKwh": -6.12,
    "channelType": "general",
    "spikeStatus": "none",
    "tariffInformation": { "period": "offPeak" },
    "descriptor": "neutral",
    "estimate": false
}"#;

fn expected_price() -> CurrentPrices {
    CurrentPrices {
        interval_type: "CurrentInterval".to_string(),
        date: stamp("2023-12-18T00:00:00Z"),
        duration: 30,
        start_time: stamp("2023-12-18T01:00:01Z"),
        end_time: stamp("2023-12-18T01:30:00Z"),
        nem_time: stamp("2023-12-18T01:30:00Z"),
        per_kwh: "24.51234".to_string(),
        renewables: "35".to_string(),
        spot_per_kwh: "-6.12".to_string(),
        channel_type: "general".to_string(),
        spike_status: "none".to_string(),
        tariff_information: TariffInformation {
            period: "offPeak".to_string(),
        },
        descriptor: "neutral".to_string(),
        estimate: Some(false),
    }
}

fn price_with(member: &str, value: &str) -> String {
    let document: serde_json::Value = serde_json::from_str(PRICE).unwrap();
    let mut members = document.as_object().unwrap().clone();
    members.insert(member.to_string(), serde_json::from_str(value).unwrap());
    format!("[{}]", serde_json::Value::Object(members))
}

fn price_without(member: &str) -> String {
    let document: serde_json::Value = serde_json::from_str(PRICE).unwrap();
    let mut members = document.as_object().unwrap().clone();
    members.remove(member);
    format!("[{}]", serde_json::Value::Object(members))
}

#[test]
fn a_price_is_read_member_by_member() {
    assert_eq!(
        parse_prices(&format!("[{}]", PRICE)),
        Ok(vec![expected_price()])
    );
}

#[test]
fn prices_keep_their_order() {
    let mut second = expected_price();
    second.spike_status = "spike".to_string();
    let body = format!(
        "[{},{}]",
        PRICE,
        price_with("spikeStatus", "\"spike\"").trim_matches(|c| c == '[' || c == ']')
    );

    assert_eq!(parse_prices(&body), Ok(vec![expected_price(), second]));
}

#[test]
fn an_empty_array_holds_no_records() {
    assert_eq!(parse_sites("[]"), Ok(Vec::new()));
    assert_eq!(parse_prices(" [ ] "), Ok(Vec::new()));
    assert_eq!(parse_usages("[]"), Ok(Vec::new()));
    assert_eq!(parse_renewables("[]"), Ok(Vec::new()));
}

#[test]
fn a_forecast_may_leave_the_estimate_out() {
    let mut expected = expected_price();

    expected.estimate = None;
    assert_eq!(
        parse_prices(&price_without("estimate")),
        Ok(vec![expected.clone()])
    );
    assert_eq!(
        parse_prices(&price_with("estimate", "null")),
        Ok(vec![expected.clone()])
    );

    expected.estimate = Some(true);
    assert_eq!(
        parse_prices(&price_with("estimate", "true")),
        Ok(vec![expected])
    );

    assert_eq!(
        parse_prices(&price_with("estimate", "\"false\"")),
        Err(fault("invalid value for field `estimate`"))
    );
    assert_eq!(
        parse_prices(&price_with("estimate", "0")),
        Err(fault("invalid value for field `estimate`"))
    );
}

#[test]
fn members_that_no_record_knows_are_passed_over() {
    let mut expected = expected_price();
    expected.estimate = Some(false);

    assert_eq!(
        parse_prices(&price_with("range", "{\"min\": 1, \"max\": 2}")),
        Ok(vec![expected.clone()])
    );
    assert_eq!(
        parse_prices(&price_with("advancedPrice", "[1, 2, 3]")),
        Ok(vec![expected])
    );
}

#[test]
fn a_required_member_is_never_made_up() {
    for member in [
        "type",
        "date",
        "duration",
        "startTime",
        "endTime",
        "nemTime",
        "perKwh",
        "renewables",
        "spotPerKwh",
        "channelType",
        "spikeStatus",
        "tariffInformation",
        "descriptor",
    ] {
        assert_eq!(
            parse_prices(&price_without(member)),
            Err(fault(&format!("missing field `{}`", member)))
        );
    }
}

#[test]
fn a_member_of_the_wrong_kind_is_a_fault() {
    assert_eq!(
        parse_prices(&price_with("type", "1")),
        Err(fault("invalid value for field `type`"))
    );
    assert_eq!(
        parse_prices(&price_with("perKwh", "\"24.5\"")),
        Err(fault("invalid value for field `perKwh`"))
    );
    assert_eq!(
        parse_prices(&price_with("spotPerKwh", "null")),
        Err(fault("invalid value for field `spotPerKwh`"))
    );
    assert_eq!(
        parse_prices(&price_with("date", "20231218")),
        Err(fault("invalid value for field `date`"))
    );
    assert_eq!(
        parse_prices(&price_with("startTime", "\"yesterday\"")),
        Err(fault("invalid value for field `startTime`"))
    );
    assert_eq!(
        parse_prices(&price_with("tariffInformation", "{}")),
        Err(fault("missing field `period`"))
    );
    assert_eq!(
        parse_prices(&price_with("tariffInformation", "\"offPeak\"")),
        Err(fault("missing field `period`"))
    );
    assert_eq!(
        parse_prices(&price_with("tariffInformation", "{\"period\": 1}")),
        Err(fault("invalid value for field `period`"))
    );
}

#[test]
fn the_first_fault_is_the_one_reported() {
    let document: serde_json::Value = serde_json::from_str(PRICE).unwrap();
    let mut members = document.as_object().unwrap().clone();
    members.remove("descriptor");
    members.insert("duration".to_string(), serde_json::from_str("-1").unwrap());
    members.remove("type");
    let first = format!("[{}]", serde_json::Value::Object(members.clone()));
    members.insert("type".to_string(), serde_json::from_str("\"x\"").unwrap());
    let second = format!("[{}]", serde_json::Value::Object(members.clone()));
    members.insert("duration".to_string(), serde_json::from_str("5").unwrap());
    let third = format!("[{}]", serde_json::Value::Object(members));

    assert_eq!(parse_prices(&first), Err(fault("missing field `type`")));
    assert_eq!(
        parse_prices(&second),
        Err(fault("invalid value for field `duration`"))
    );
    assert_eq!(
        parse_prices(&third),
        Err(fault("missing field `descriptor`"))
    );

    let later = format!(
        "[{},{},{}]",
        PRICE,
        price_without("nemTime").trim_matches(|c| c == '[' || c == ']'),
        price_without("date").trim_matches(|c| c == '[' || c == ']')
    );
    assert_eq!(parse_prices(&later), Err(fault("missing field `nemTime`")));
}

#[test]
fn a_duration_is_a_whole_number_up_to_255() {
    let duration = |value: &str| {
        parse_prices(&price_with("duration", value)).map(|prices| prices[0].duration)
    };

    assert_eq!(duration("0"), Ok(0));
    assert_eq!(duration("5"), Ok(5));
    assert_eq!(duration("30"), Ok(30));
    assert_eq!(duration("255"), Ok(255));
    for value in ["256", "1000", "-1", "30.0", "30.5", "1e1", "\"30\"", "18446744073709551616"] {
        assert_eq!(
            duration(value),
            Err(fault("invalid value for field `duration`"))
        );
    }
}

#[test]
fn numerals_of_digits_up_to_255() {
    assert_eq!(parse_small_number("0"), Some(0));
    assert_eq!(parse_small_number("7"), Some(7));
    assert_eq!(parse_small_number("007"), Some(7));
    assert_eq!(parse_small_number("199"), Some(199));
    assert_eq!(parse_small_number("255"), Some(255));
    assert_eq!(parse_small_number("256"), None);
    assert_eq!(parse_small_number("2550"), None);
    assert_eq!(parse_small_number("99999999999999999999999999"), None);
    assert_eq!(parse_small_number(""), None);
    assert_eq!(parse_small_number("-1"), None);
    assert_eq!(parse_small_number("+1"), None);
    assert_eq!(parse_small_number("1 "), None);
    assert_eq!(parse_small_number("2a"), None);
    assert_eq!(parse_small_number("٣"), None);
}

#[test]
fn a_decimal_is_kept_as_its_numeral() {
    let per_kwh = |value: &str| {
        parse_prices(&price_with("perKwh", value)).map(|prices| prices[0].per_kwh.clone())
    };

    assert_eq!(per_kwh("24.5"), Ok("24.5".to_string()));
    assert_eq!(per_kwh("24.50"), Ok("24.5".to_string()));
    assert_eq!(per_kwh("0"), Ok("0".to_string()));
    assert_eq!(per_kwh("-3"), Ok("-3".to_string()));
    assert_eq!(per_kwh("0.00001"), Ok("0.00001".to_string()));
    assert_eq!(per_kwh("7.0"), Ok("7.0".to_string()));
}

#[test]
fn a_document_that_is_no_array_is_a_fault() {
    for body in ["{}", "null", "\"[]\"", "1", "true", PRICE] {
        assert_eq!(
            parse_prices(body),
            Err(fault("expected an array of records"))
        );
        assert_eq!(
            parse_sites(body),
            Err(fault("expected an array of records"))
        );
        assert_eq!(
            parse_usages(body),
            Err(fault("expected an array of records"))
        );
        assert_eq!(
            parse_renewables(body),
            Err(fault("expected an array of records"))
        );
    }
}

#[test]
fn an_element_that_is_no_object_misses_its_first_member() {
    assert_eq!(parse_prices("[1]"), Err(fault("missing field `type`")));
    assert_eq!(
        parse_sites("[[]]"),
        Err(fault("missing field `activeFrom`"))
    );
    assert_eq!(parse_usages("[null]"), Err(fault("missing field `type`")));
    assert_eq!(
        parse_renewables("[\"x\"]"),
        Err(fault("missing field `type`"))
    );
}

#[test]
fn a_text_that_is_no_json_gives_the_parsers_message() {
    assert_eq!(
        parse_prices("[{]"),
        Err(fault("key must be a string at line 1 column 3"))
    );
    assert_eq!(
        parse_sites("[] []"),
        Err(fault("trailing characters at line 1 column 4"))
    );
    assert_eq!(
        parse_usages("<html>"),
        Err(fault("expected value at line 1 column 1"))
    );
}

#[test]
fn a_site_with_its_channels() {
    let body = r#"[{
        "activeFrom": "2022-01-01T00:00:00Z",
        "channels": [
            {"identifier": "E1", "tariff": "A100", "type": "general"},
            {"identifier": "E2", "tariff": "A180", "type": "controlledLoad"},
            {"identifier": "B1", "tariff": "A210", "type": "feedIn", "extra": 1}
        ],
        "id": "01F5A5CRKMZ5BCX9P1S4V990AM",
        "network": "Jemena",
        "nmi": "3052282872",
        "status": "closed",
        "closedOn": "2022-05-01"
    }]"#;
    let channel = |identifier: &str, tariff: &str, tariff_type: &str| SiteChannels {
        identifier: identifier.to_string(),
        tariff: tariff.to_string(),
        tariff_type: tariff_type.to_string(),
    };

    assert_eq!(
        parse_sites(body),
        Ok(vec![SiteDetails {
            active_from: stamp("2022-01-01T00:00:00Z"),
            channels: vec![
                channel("E1", "A100", "general"),
                channel("E2", "A180", "controlledLoad"),
                channel("B1", "A210", "feedIn"),
            ],
            id: "01F5A5CRKMZ5BCX9P1S4V990AM".to_string(),
            network: "Jemena".to_string(),
            nmi: "3052282872".to_string(),
            status: "closed".to_string(),
        }])
    );
}

#[test]
fn the_faults_of_a_site() {
    let site = |channels: &str| {
        format!(
            r#"[{{"activeFrom":"2022-01-01T00:00:00Z","channels":{},"id":"i","network":"n","nmi":"m","status":"s"}}]"#,
            channels
        )
    };

    assert!(parse_sites(&site("[]")).is_ok());
    assert_eq!(
        parse_sites(&site("{}")),
        Err(fault("invalid value for field `channels`"))
    );
    assert_eq!(
        parse_sites(&site("null")),
        Err(fault("invalid value for field `channels`"))
    );
    assert_eq!(
        parse_sites(&site(r#"[{"identifier":"E1","tariff":"A"}]"#)),
        Err(fault("missing field `type`"))
    );
    assert_eq!(
        parse_sites(&site(
            r#"[{"identifier":"E1","tariff":"A","type":"general"},{"identifier":2,"tariff":"A","type":"general"}]"#
        )),
        Err(fault("invalid value for field `identifier`"))
    );
    assert_eq!(
        parse_sites(r#"[{"activeFrom":"2022-01-01T00:00:00Z","id":"i","network":"n","nmi":"m","status":"s"}]"#),
        Err(fault("missing field `channels`"))
    );
    assert_eq!(
        parse_sites(r#"[{"activeFrom":"2022-13-01T00:00:00Z","channels":[],"id":"i","network":"n","nmi":"m","status":"s"}]"#),
        Err(fault("invalid value for field `activeFrom`"))
    );
    assert_eq!(
        parse_sites(r#"[{"activeFrom":"2022-01-01T00:00:00Z","channels":[],"id":"i","network":"n","nmi":12,"status":"s"}]"#),
        Err(fault("invalid value for field `nmi`"))
    );
}

#[test]
fn a_usage_record_is_read_member_by_member() {
    let body = r#"[{
        "type": "Usage",
        "duration": 30,
        "date": "2023-12-18",
        "endTime": "2023-12-18T01:30:00Z",
        "quality": "billable",
        "kwh": 0.254,
        "nemTime": "2023-12-18T11:30:00+10:00",
        "perKwh": 24.5,
        "channelType": "general",
        "channelIdentifier": "E1",
        "cost": 6.223,
        "renewables": 35.25,
        "spotPerKwh": 6.12,
        "startTime": "2023-12-18T01:00:01Z",
        "spikeStatus": "none",
        "tariffInformation": { "period": "peak", "season": "summer" },
        "descriptor": "high"
    }]"#;

    assert_eq!(
        parse_usages(body),
        Ok(vec![CurrentUsage {
            price_type: "Usage".to_string(),
            duration: 30,
            date: stamp("2023-12-18T00:00:00Z"),
            end_time: stamp("2023-12-18T01:30:00Z"),
            quality: "billable".to_string(),
            kwh: "0.254".to_string(),
            nem_time: stamp("2023-12-18T01:30:00Z"),
            per_kwh: "24.5".to_string(),
            channel_type: "general".to_string(),
            channel_identifier: "E1".to_string(),
            cost: "6.223".to_string(),
            renewables: "35.25".to_string(),
            spot_per_kwh: "6.12".to_string(),
            start_time: stamp("2023-12-18T01:00:01Z"),
            spike_status: "none".to_string(),
            tariff_information: TariffInformation {
                period: "peak".to_string(),
            },
            descriptor: "high".to_string(),
        }])
    );
    assert_eq!(
        parse_usages(&body.replace("\"quality\": \"billable\",", "")),
        Err(fault("missing field `quality`"))
    );
    assert_eq!(
        parse_usages(&body.replace("0.254", "\"0.254\"")),
        Err(fault("invalid value for field `kwh`"))
    );
    assert_eq!(
        parse_usages(&body.replace("\"E1\"", "1")),
        Err(fault("invalid value for field `channelIdentifier`"))
    );
    assert_eq!(
        parse_usages(&body.replace("6.223", "[]")),
        Err(fault("invalid value for field `cost`"))
    );
}

#[test]
fn a_renewables_record_is_read_member_by_member() {
    let body = r#"[{
        "type": "ActualRenewable",
        "duration": 5,
        "date": "2023-12-18",
        "startTime": "2023-12-18T01:00:01Z",
        "endTime": "2023-12-18T01:30:00Z",
        "nemTime": "2023-12-18T11:30:00+10:00",
        "renewables": 45.5,
        "descriptor": "best"
    }]"#;

    assert_eq!(
        parse_renewables(body),
        Ok(vec![CurrentRenewables {
            interval_type: "ActualRenewable".to_string(),
            duration: 5,
            date: stamp("2023-12-18T00:00:00Z"),
            start_time: stamp("2023-12-18T01:00:01Z"),
            end_time: stamp("2023-12-18T01:30:00Z"),
            nem_time: stamp("2023-12-18T01:30:00Z"),
            renewables: "45.5".to_string(),
            descriptor: "best".to_string(),
        }])
    );
    assert_eq!(
        parse_renewables(&body.replace("45.5", "\"45.5\"")),
        Err(fault("invalid value for field `renewables`"))
    );
    assert_eq!(
        parse_renewables(&body.replace("\"descriptor\": \"best\"", "\"other\": 1")),
        Err(fault("missing field `descriptor`"))
    );
}

#[test]
fn a_document_is_decoded_as_its_text_is() {
    let body = format!("[{}]", PRICE);
    let document: serde_json::Value = serde_json::from_str(&body).unwrap();

    assert_eq!(decode_prices(&document), parse_prices(&body));
    assert_eq!(decode_prices(&document), Ok(vec![expected_price()]));
    assert_eq!(
        decode_sites(&document),
        Err(fault("missing field `activeFrom`"))
    );
    assert_eq!(
        decode_sites(&serde_json::Value::Null),
        Err(fault("expected an array of records"))
    );
}

#[test]
fn a_timestamp_is_read_at_its_offset() {
    let active_from = |text: &str| {
        parse_sites(&format!(
            r#"[{{"activeFrom":"{}","channels":[],"id":"i","network":"n","nmi":"m","status":"s"}}]"#,
            text
        ))
        .map(|sites| sites[0].active_from)
    };

    assert_eq!(
        active_from("2023-08-31T10:00:00+10:00"),
        Ok(stamp("2023-08-31T00:00:00.000Z"))
    );
    assert_eq!(
        active_from("2023-08-31"),
        Ok(stamp("2023-08-31T00:00:00.000Z"))
    );
    assert_ne!(
        active_from("2023-08-31T00:00:01Z"),
        Ok(stamp("2023-08-31T00:00:00.000Z"))
    );
    assert_eq!(
        active_from("31/08/2023"),
        Err(fault("invalid value for field `activeFrom`"))
    );
}

fn encoded(site: &SiteDetails) -> String {
    let text = |value: &str| serde_json::Value::String(value.to_string());
    let channels = site
        .channels
        .iter()
        .map(|channel| {
            let mut members = serde_json::Map::new();
            members.insert("identifier".to_string(), text(&channel.identifier));
            members.insert("tariff".to_string(), text(&channel.tariff));
            members.insert("type".to_string(), text(&channel.tariff_type));
            serde_json::Value::Object(members)
        })
        .collect();
    let mut members = serde_json::Map::new();
    members.insert(
        "activeFrom".to_string(),
        text(&site.active_from.format()),
    );
    members.insert("channels".to_string(), serde_json::Value::Array(channels));
    members.insert("id".to_string(), text(&site.id));
    members.insert("network".to_string(), text(&site.network));
    members.insert("nmi".to_string(), text(&site.nmi));
    members.insert("status".to_string(), text(&site.status));
    serde_json::Value::Array(vec![serde_json::Value::Object(members)]).to_string()
}

#[test]
fn a_site_comes_back_as_it_was_written() {
    let channel = |identifier: &str, tariff: &str, tariff_type: &str| SiteChannels {
        identifier: identifier.to_string(),
        tariff: tariff.to_string(),
        tariff_type: tariff_type.to_string(),
    };
    let sites = [
        SiteDetails {
            active_from: stamp("2023-08-31T00:00:00.000Z"),
            channels: vec![channel("E1", "A123", "general")],
            id: "test_site_id".to_string(),
            network: "test_network".to_string(),
            nmi: "1234567890".to_string(),
            status: "active".to_string(),
        },
        SiteDetails {
            active_from: stamp("1999-12-31T23:59:59.999Z"),
            channels: Vec::new(),
            id: String::new(),
            network: "a \"quoted\" name\n".to_string(),
            nmi: "é".to_string(),
            status: "closed".to_string(),
        },
        SiteDetails {
            active_from: stamp("2024-02-29T12:00:00Z"),
            channels: vec![
                channel("E1", "A", "general"),
                channel("E2", "B", "controlledLoad"),
                channel("B1", "C", "feedIn"),
            ],
            id: "01F5A5CRKMZ5BCX9P1S4V990AM".to_string(),
            network: "Ausgrid".to_string(),
            nmi: "0".to_string(),
            status: "pending".to_string(),
        },
    ];

    for site in sites {
        assert_eq!(parse_sites(&encoded(&site)), Ok(vec![site]));
    }
}
