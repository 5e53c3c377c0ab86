use libminer::detect::{
    merge_probe_errors, minerva_interface, socket_step, Detection, HeaderField, HttpFailure,
    HttpReply, MinerKind, ProbeAction, ProbeEvent, SocketReply, SocketStep, Stage, StatsSection,
    StatusCode,
};
use libminer::Error;

fn unknown(s: &str) -> Error {
    Error::UnknownMinerType(s.to_string())
}

fn describe(e: &Error) -> String {
    match e {
        Error::UnknownMinerType(s) => format!("UnknownMinerType({})", s),
        Error::Timeout => "Timeout".to_string(),
        Error::NoMinerDetected => "NoMinerDetected".to_string(),
        Error::Unauthorized => "Unauthorized".to_string(),
        other => other.message(),
    }
}

#[test]
fn merge_timeout_timeout() {
    let r = merge_probe_errors(Error::Timeout, Error::Timeout);
    assert_eq!(describe(&r), "Timeout");
}

#[test]
fn merge_timeout_unauthorized() {
    let r = merge_probe_errors(Error::Timeout, Error::Unauthorized);
    assert_eq!(describe(&r), "Unauthorized");
}

#[test]
fn merge_no_miner_twice() {
    let r = merge_probe_errors(Error::NoMinerDetected, Error::NoMinerDetected);
    assert_eq!(describe(&r), "UnknownMinerType(No miner detected and No miner detected)");
}

#[test]
fn merge_two_unknown_types() {
    let r = merge_probe_errors(unknown("a"), unknown("b"));
    assert_eq!(describe(&r), "UnknownMinerType(a and b)");
}

#[test]
fn merge_unknown_then_timeout() {
    let r = merge_probe_errors(unknown("a"), Error::Timeout);
    assert_eq!(describe(&r), "UnknownMinerType(a)");
}

#[test]
fn merge_other_cells() {
    assert_eq!(describe(&merge_probe_errors(Error::NoMinerDetected, Error::Timeout)), "NoMinerDetected");
    assert_eq!(describe(&merge_probe_errors(Error::NoMinerDetected, unknown("s2"))), "UnknownMinerType(s2)");
    assert_eq!(describe(&merge_probe_errors(Error::NoMinerDetected, Error::Unauthorized)), "Unauthorized");
    assert_eq!(describe(&merge_probe_errors(unknown("s1"), Error::NoMinerDetected)), "UnknownMinerType(s1)");
    assert_eq!(
        describe(&merge_probe_errors(Error::Unauthorized, unknown("s2"))),
        "UnknownMinerType(Unauthorized and s2)"
    );
    assert_eq!(describe(&merge_probe_errors(Error::Unauthorized, Error::Timeout)), "Unauthorized");
    assert_eq!(describe(&merge_probe_errors(Error::Unauthorized, Error::NoMinerDetected)), "Unauthorized");
}

fn get_url(a: &ProbeAction) -> String {
    match a {
        ProbeAction::Get(u) => u.clone(),
        other => panic!("expected a GET, got {:?}", other),
    }
}

fn page(status: u16, body: &str) -> ProbeEvent {
    ProbeEvent::Http(HttpReply::Response {
        status,
        www_authenticate: HeaderField::Missing,
        body: Ok(body.to_string()),
    })
}

fn refused() -> ProbeEvent {
    ProbeEvent::Http(HttpReply::Failed(HttpFailure::Connect("refused".to_string())))
}

#[test]
fn digest_challenge_is_antminer() {
    let (d, a) = Detection::start("10.0.0.5");
    assert_eq!(get_url(&a), "http://10.0.0.5/");
    let ev = ProbeEvent::Http(HttpReply::Response {
        status: 401,
        www_authenticate: HeaderField::Text("Digest realm=\"antMiner\"".to_string()),
        body: Ok(String::new()),
    });
    let (d, a) = d.advance(ev);
    assert!(matches!(d.stage, Stage::Done));
    assert!(matches!(a, ProbeAction::Finish(Ok(MinerKind::Antminer))));
}

#[test]
fn vnish_page_after_first_response() {
    let (d, _) = Detection::start("h");
    let (d, a) = d.advance(page(200, "<html></html>"));
    assert_eq!(get_url(&a), "http://h/");
    let (_, a) = d.advance(page(200, "<title>miner-dash-app</title>"));
    assert!(matches!(a, ProbeAction::Finish(Ok(MinerKind::Vnish))));
}

#[test]
fn probe_order_reaches_whatsminer_luci() {
    let (d, _) = Detection::start("h");
    let (d, a) = d.advance(page(200, "plain"));
    assert_eq!(get_url(&a), "http://h/");
    let (d, a) = d.advance(refused());
    assert_eq!(get_url(&a), "http://h/");
    let (d, a) = d.advance(page(200, "plain"));
    assert_eq!(get_url(&a), "https://h");
    let (d, a) = d.advance(page(200, "nothing here"));
    assert_eq!(get_url(&a), "http://h/cgi-bin/luci");
    let (_, a) = d.advance(page(403, "<title>WhatsMiner M30S</title>"));
    assert!(matches!(a, ProbeAction::Finish(Ok(MinerKind::Whatsminer))));
}

#[test]
fn minera_script_in_first_page() {
    let (d, _) = Detection::start("h");
    let (d, _) = d.advance(page(200, "<script src=\"minera.js\"></script>"));
    let (d, _) = d.advance(page(200, "x"));
    let (_, a) = d.advance(page(200, "x"));
    assert!(matches!(a, ProbeAction::Finish(Ok(MinerKind::Minera))));
}

#[test]
fn socket_probe_runs_only_after_http_failure() {
    let (d, _) = Detection::start("h");
    let (d, a) = d.advance(refused());
    assert!(matches!(a, ProbeAction::QuerySocket));
    assert!(matches!(d.stage, Stage::Socket(Error::NoMinerDetected)));
    let reply = SocketReply::Stats {
        status: StatusCode::Succ,
        msg: "CGMiner stats".to_string(),
        sections: Some(vec![StatsSection::Other, StatsSection::AvaStats]),
    };
    let (_, a) = d.advance(ProbeEvent::Socket(reply));
    assert!(matches!(a, ProbeAction::Finish(Ok(MinerKind::Avalon))));
}

#[test]
fn both_probes_fail_and_merge() {
    let (d, _) = Detection::start("h");
    let timeout = ProbeEvent::Http(HttpReply::Failed(HttpFailure::Timeout("t".to_string())));
    let (d, a) = d.advance(timeout);
    assert!(matches!(a, ProbeAction::QuerySocket));
    let (_, a) = d.advance(ProbeEvent::Socket(SocketReply::Failed(Error::NoHostDetected)));
    match a {
        ProbeAction::Finish(Err(e)) => assert_eq!(describe(&e), "NoMinerDetected"),
        other => panic!("unexpected {:?}", other),
    }
}

#[test]
fn unknown_http_then_unparsed_socket() {
    let (d, _) = Detection::start("h");
    let (d, _) = d.advance(page(200, "x"));
    let (d, _) = d.advance(page(200, "x"));
    let (d, _) = d.advance(page(200, "x"));
    let (d, _) = d.advance(page(200, "x"));
    let (d, a) = d.advance(page(404, "x"));
    assert!(matches!(a, ProbeAction::QuerySocket));
    let (_, a) = d.advance(ProbeEvent::Socket(SocketReply::Unrecognized));
    match a {
        ProbeAction::Finish(Err(e)) => {
            assert_eq!(describe(&e), "UnknownMinerType( and Unable to parse response from socket API)")
        }
        other => panic!("unexpected {:?}", other),
    }
}

#[test]
fn minerva_interface_needs_index_page() {
    let (d, _) = Detection::start("h");
    let (d, _) = d.advance(refused());
    let reply = SocketReply::Stats {
        status: StatusCode::Succ,
        msg: String::new(),
        sections: Some(vec![StatsSection::Dev(Some("Minerva".to_string()))]),
    };
    let (d, a) = d.advance(ProbeEvent::Socket(reply));
    assert_eq!(get_url(&a), "http://h/index.php");
    let (_, a) = d.advance(page(404, ""));
    assert!(matches!(a, ProbeAction::Finish(Ok(MinerKind::Minerva))));
}

#[test]
fn socket_replies() {
    let whats = SocketReply::Status {
        status: StatusCode::Error,
        code: Some(14),
        description: Some("WhatsMiner v1".to_string()),
    };
    assert!(matches!(socket_step(whats), SocketStep::Decided(Ok(MinerKind::Whatsminer))));
    let other = SocketReply::Status {
        status: StatusCode::Error,
        code: Some(23),
        description: Some("whatsminer".to_string()),
    };
    match socket_step(other) {
        SocketStep::Decided(Err(e)) => {
            assert_eq!(describe(&e), "UnknownMinerType(Received error response but not whatsminer)")
        }
        _ => panic!("unexpected"),
    }
    let failed = SocketReply::Stats { status: StatusCode::Error, msg: "busy".to_string(), sections: None };
    match socket_step(failed) {
        SocketStep::Decided(Err(Error::ApiCallFailed(m))) => assert_eq!(m, "busy"),
        _ => panic!("unexpected"),
    }
    let typed = SocketReply::Stats {
        status: StatusCode::Succ,
        msg: String::new(),
        sections: Some(vec![StatsSection::Dev(Some("S9".to_string()))]),
    };
    match socket_step(typed) {
        SocketStep::Decided(Err(e)) => assert_eq!(describe(&e), "UnknownMinerType(Unsupported miner type: S9)"),
        _ => panic!("unexpected"),
    }
    let empty = SocketReply::Stats { status: StatusCode::Succ, msg: String::new(), sections: Some(vec![]) };
    match socket_step(empty) {
        SocketStep::Decided(Err(e)) => assert_eq!(
            describe(&e),
            "UnknownMinerType(Stats did not include a section containing type)"
        ),
        _ => panic!("unexpected"),
    }
}

#[test]
fn minerva_interface_by_status() {
    assert!(matches!(minerva_interface(404), Ok(MinerKind::Minerva)));
    assert!(matches!(minerva_interface(200), Ok(MinerKind::Minera)));
    match minerva_interface(500) {
        Err(e) => assert_eq!(describe(&e), "UnknownMinerType(Unable to determine interface for Minerva)"),
        Ok(_) => panic!("unexpected"),
    }
}

#[test]
fn error_messages() {
    assert_eq!(Error::Timeout.message(), "Timeout");
    assert_eq!(Error::ApiCallFailed("x".to_string()).message(), "API Call failed: x");
    assert_eq!(Error::UnknownModel("s9".to_string()).message(), "Unknown model s9");
    assert_eq!(Error::NoMinerDetected.message(), "No miner detected");
}
