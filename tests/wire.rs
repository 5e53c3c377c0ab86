use libminer::antminer::{cgi_status, hashboard_from_logs, parse_u8, SetConf, StringOrInt};
use libminer::avalon::led_lit;
use libminer::text::first_capture;
use libminer::whatsminer::model_from_overview;
use libminer::avalon::{Pool as ListedPool, PoolResp};
use libminer::config::{port_or_default, ClientBuilder};
use libminer::miner::reboot_outcome;
use libminer::vnish::{working_chains, ChainState, CoolingMode, CoolingModeError, PoolStatus, StatusCode, TempSensorStatus};
use libminer::whatsminer::{
    asleep_by_processes, flag_from_text, power_outcome, sleep_reading, BtStatus, BtStatus1, BtStatus2,
    SleepReading, Status,
};
use libminer::{Error, Pool};

fn text_field(v: &serde_json::Value, names: &[&str]) -> String {
    for n in names {
        if let Some(s) = v.get(*n).and_then(|x| x.as_str()) {
            return s.to_string();
        }
    }
    panic!("missing field {:?}", names);
}

fn bt_status_from_json(json: &str) -> BtStatus {
    let v: serde_json::Value = serde_json::from_str(json).unwrap();
    if let Some(off) = v.get("btmineroff").and_then(|x| x.as_str()) {
        BtStatus::V1(BtStatus1 {
            btmineroff: flag_from_text(off).unwrap(),
            firmware_version: text_field(&v, &["Firmware Version", "FirmwareVersion"]),
        })
    } else {
        BtStatus::V2(BtStatus2 {
            mineroff: flag_from_text(&text_field(&v, &["mineroff"])).unwrap(),
            firmware_version: text_field(&v, &["FirmwareVersion"]),
            power_mode: text_field(&v, &["power_mode"]),
            hash_percent: text_field(&v, &["hash_percent"]),
        })
    }
}

#[test]
fn test_bt_status() {
    let json = r#"{"btmineroff":"true","Firmware Version":"1.0.0"}"#;
    let status: BtStatus = bt_status_from_json(json);
    assert!(matches!(status, BtStatus::V1(_)));
    assert_eq!(status.mineroff(), true);
    assert_eq!(status.firmware_version(), "1.0.0");
}

#[test]
fn test_bt_statusv2() {
    let json = r#"{"mineroff":"true","FirmwareVersion":"1.0.0","power_mode":"","hash_percent":""}"#;
    let status: BtStatus = bt_status_from_json(json);
    assert!(matches!(status, BtStatus::V2(_)));
    assert_eq!(status.mineroff(), true);
    assert_eq!(status.firmware_version(), "1.0.0");
}

#[test]
fn flags_from_text() {
    assert_eq!(flag_from_text("true"), Some(true));
    assert_eq!(flag_from_text("false"), Some(false));
    assert_eq!(flag_from_text("True"), None);
}

#[test]
fn u8_parsing() {
    assert_eq!(parse_u8("0"), Some(0));
    assert_eq!(parse_u8("255"), Some(255));
    assert_eq!(parse_u8("+7"), Some(7));
    assert_eq!(parse_u8("007"), Some(7));
    assert_eq!(parse_u8("256"), None);
    assert_eq!(parse_u8(""), None);
    assert_eq!(parse_u8("+"), None);
    assert_eq!(parse_u8("-1"), None);
    assert_eq!(parse_u8("1a"), None);
    assert_eq!(parse_u8("99999999999999999999"), None);
}

#[test]
fn lenient_integer_field() {
    assert_eq!(StringOrInt::String("1".to_string()).as_int(), 1);
    assert_eq!(StringOrInt::String("".to_string()).as_int(), 0);
    assert_eq!(StringOrInt::Int(3).as_int(), 3);
    assert_eq!(StringOrInt::BigInt(257).as_int(), 1);
    let conf = SetConf::new(&StringOrInt::String("1".to_string()), vec![Pool::default()]);
    assert_eq!(conf.miner_mode, 1);
    assert_eq!(conf.pools.len(), 1);
}

#[test]
fn vnish_names() {
    assert_eq!(StatusCode::from_name("mining"), Some(StatusCode::Running));
    assert_eq!(StatusCode::from_name("shutting-down"), Some(StatusCode::ShuttingDown));
    assert_eq!(StatusCode::from_name("sleeping"), None);
    assert_eq!(PoolStatus::from_name("rejecting"), Some(PoolStatus::Rejecting));
    assert_eq!(TempSensorStatus::from_name("measure"), Some(TempSensorStatus::Measure));
    assert_eq!(ChainState::from_name("failure"), Some(ChainState::Failure));
    assert_eq!(ChainState::from_name(""), None);
}

#[test]
fn cooling_modes() {
    assert_eq!(CoolingMode::from_parts("auto", Some(60)), Ok(CoolingMode::Auto(60)));
    assert_eq!(CoolingMode::from_parts("manual", None), Err(CoolingModeError::MissingParameter));
    assert_eq!(CoolingMode::from_parts("immers", None), Ok(CoolingMode::Immersion));
    assert_eq!(
        CoolingMode::from_parts("turbo", Some(1)),
        Err(CoolingModeError::UnknownMode("turbo".to_string()))
    );
    let (name, param) = CoolingMode::Manual(100).to_parts();
    assert_eq!(name, "manual");
    assert_eq!(param, Some(100));
}

#[test]
fn chains_that_work() {
    let states = vec![ChainState::Mining, ChainState::Failure, ChainState::Stopped];
    assert_eq!(working_chains(&states), 2);
    assert_eq!(working_chains(&vec![]), 0);
}

#[test]
fn listed_pools_convert() {
    let resp = PoolResp {
        status: vec![],
        pools: vec![
            ListedPool { pool: 0, url: "stratum+tcp://a:3333".to_string(), user: "w1".to_string() },
            ListedPool { pool: 1, url: "stratum+tcp://b:3333".to_string(), user: "w2".to_string() },
        ],
    };
    let pools = resp.into_pools();
    assert_eq!(pools.len(), 2);
    assert_eq!(pools[1].url, "stratum+tcp://b:3333");
    assert_eq!(pools[1].username, "w2");
    assert!(pools[0].password.is_none());
}

#[test]
fn sleep_decisions() {
    let v2 = Some(BtStatus::V2(BtStatus2 {
        mineroff: false,
        firmware_version: String::new(),
        power_mode: String::new(),
        hash_percent: String::new(),
    }));
    assert!(matches!(sleep_reading(&v2), SleepReading::Known(false)));
    let v1 = Some(BtStatus::V1(BtStatus1 { btmineroff: true, firmware_version: String::new() }));
    assert!(matches!(sleep_reading(&v1), SleepReading::CheckProcesses));
    assert!(matches!(sleep_reading(&None), SleepReading::CheckProcesses));
    assert!(!asleep_by_processes(r#"<input name="COMMAND" value="btminer" />"#));
    assert!(asleep_by_processes("init\nsshd"));
}

#[test]
fn power_and_reboot_outcomes() {
    assert!(power_outcome(true, Err(Error::Timeout)).is_ok());
    assert!(matches!(power_outcome(false, Err(Error::Timeout)), Err(Error::Timeout)));
    let ok = Status { status: libminer::detect::StatusCode::Succ, when: None, code: None, msg: String::new(), description: None };
    assert!(power_outcome(false, Ok(ok)).is_ok());
    let bad = Status { status: libminer::detect::StatusCode::Error, when: None, code: None, msg: "no".to_string(), description: None };
    match power_outcome(true, Ok(bad)) {
        Err(Error::ApiCallFailed(m)) => assert_eq!(m, "no"),
        _ => panic!("unexpected"),
    }
    assert!(reboot_outcome::<()>(Err(Error::ConnectionRefused)).is_ok());
    match reboot_outcome(Ok(())) {
        Err(Error::ApiCallFailed(m)) => assert_eq!(m, "Reboot failed"),
        _ => panic!("unexpected"),
    }
}

#[test]
fn builder_settings() {
    let b = ClientBuilder::new();
    assert_eq!(b.connect_timeout_ms, 15000);
    assert_eq!(b.request_timeout_ms, 30000);
    assert_eq!(b.budget(), None);
    let b = b.max_connections(1).cache_token(true).connect_timeout(5000).request_timeout(9000);
    assert_eq!(b.budget(), Some(1));
    assert!(b.cache_token);
    assert_eq!(b.connect_timeout_ms, 5000);
    assert_eq!(b.request_timeout_ms, 9000);
    assert_eq!(port_or_default(None), 4028);
    assert_eq!(port_or_default(Some(4029)), 4029);
}

#[test]
fn model_and_hashboard_pages() {
    let page = "<tr><td width=\"33%\">Model</td>\n<td>WhatsMiner M30S+_V20</td></tr>";
    assert_eq!(model_from_overview(page).unwrap(), "M30S+");
    assert!(matches!(model_from_overview("<html/>"), Err(Error::ExpectedReturn)));
    assert_eq!(hashboard_from_logs("boot\nmachine : BHB42601\n").unwrap(), "BHB42601");
    assert!(matches!(hashboard_from_logs(""), Err(Error::ExpectedReturn)));
    assert!(cgi_status(200).is_ok());
    assert!(matches!(cgi_status(401), Err(Error::Unauthorized)));
    assert!(matches!(cgi_status(500), Err(Error::HttpRequestFailed)));
    assert_eq!(led_lit("ASC 0 set info: LED[1]").unwrap(), true);
    assert_eq!(led_lit("LED[0]").unwrap(), false);
    assert!(matches!(led_lit("no led"), Err(Error::InvalidResponse)));
    assert_eq!(first_capture(r"(\d+) Th", "3800 watt ~ 106 Th"), Some("106".to_string()));
    assert_eq!(first_capture(r"(a)?b", "b"), None);
}
