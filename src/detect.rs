use vstd::prelude::*;
use vstd::string::*;

use crate::error::{error_text, Error};
use vstd::utf8::encode_utf8;

use crate::text::{contains_text, find_at, lower_of, lowercase, occurs_in, regex_captures_at};

verus! {

/// `r` is an `UnknownMinerType` error whose description is `text`.
pub open spec fn is_unknown_type(r: Error, text: Seq<char>) -> bool {
    r matches Error::UnknownMinerType(s) && s@ == text
}

/// What detection reports when the HTTP probe failed with `http` and the
/// socket probe then failed with `socket`: `r` is the merged failure.
pub open spec fn merged_failure(http: Error, socket: Error, r: Error) -> bool {
    match http {
        Error::Timeout => r == socket,
        Error::NoMinerDetected => match socket {
            Error::Timeout => r == http,
            Error::NoMinerDetected => is_unknown_type(
                r,
                "No miner detected and "@ + error_text(socket),
            ),
            Error::UnknownMinerType(s2) => is_unknown_type(r, s2@),
            _ => r == socket,
        },
        Error::UnknownMinerType(s1) => match socket {
            Error::Timeout => is_unknown_type(r, s1@),
            Error::NoMinerDetected => is_unknown_type(r, s1@),
            Error::UnknownMinerType(s2) => is_unknown_type(r, s1@ + " and "@ + s2@),
            _ => is_unknown_type(r, s1@ + " and "@ + error_text(http)),
        },
        _ => match socket {
            Error::UnknownMinerType(s2) => is_unknown_type(r, error_text(http) + " and "@ + s2@),
            _ => r == http,
        },
    }
}

fn joined(a: &String, b: &String) -> (r: String)
    ensures
        r@ == a@ + " and "@ + b@,
{
    a.clone().concat(" and ").concat(b.as_str())
}

/// Reconciles the failures of the two probes into the one failure that
/// detection reports, by the fixed table over (HTTP failure, socket failure).
pub fn merge_probe_errors(http: Error, socket: Error) -> (r: Error)
    ensures
        merged_failure(http, socket, r),
{
    match (&http, &socket) {
        (Error::Timeout, _) => socket,
        (Error::NoMinerDetected, Error::Timeout) => http,
        (Error::NoMinerDetected, Error::NoMinerDetected) => {
            let text = String::from_str("No miner detected and ").concat(socket.message().as_str());
            Error::UnknownMinerType(text)
        },
        (Error::NoMinerDetected, Error::UnknownMinerType(s2)) => Error::UnknownMinerType(s2.clone()),
        (Error::NoMinerDetected, _) => socket,
        (Error::UnknownMinerType(s1), Error::Timeout) => Error::UnknownMinerType(s1.clone()),
        (Error::UnknownMinerType(s1), Error::NoMinerDetected) => Error::UnknownMinerType(s1.clone()),
        (Error::UnknownMinerType(s1), Error::UnknownMinerType(s2)) => Error::UnknownMinerType(
            joined(s1, s2),
        ),
        (Error::UnknownMinerType(s1), _) => Error::UnknownMinerType(joined(s1, &http.message())),
        (_, Error::UnknownMinerType(s2)) => Error::UnknownMinerType(joined(&http.message(), s2)),
        _ => http,
    }
}

/// The vendor backends that detection can select.
#[derive(Debug, Copy, Clone, PartialEq, Eq, Structural)]
pub enum MinerKind {
    Antminer,
    Avalon,
    /// Minerva running the Minera web interface.
    Minera,
    /// Minerva running its own web interface.
    Minerva,
    Vnish,
    Whatsminer,
}

/// Status code of a cgminer-style status envelope.
#[derive(Debug, Copy, Clone, PartialEq, Eq, Structural)]
pub enum StatusCode {
    Succ,
    Error,
    Info,
    Warn,
}

/// A header of an HTTP response as the client read it.
#[derive(Debug)]
pub enum HeaderField {
    Missing,
    Text(String),
    /// Present, but not visible ASCII text.
    Unreadable,
}

/// How an HTTP request failed, with the client's description.
#[derive(Debug)]
pub enum HttpFailure {
    Timeout(String),
    Connect(String),
    Other(String),
}

/// The outcome of one HTTP GET made for detection.
#[derive(Debug)]
pub enum HttpReply {
    Response {
        status: u16,
        www_authenticate: HeaderField,
        /// The body text, or the client's description of why it could not be read.
        body: Result<String, String>,
    },
    Failed(HttpFailure),
}

/// One section of the `stats` reply of the socket protocol, as far as
/// detection looks at it.
#[derive(Debug)]
pub enum StatsSection {
    /// An Antminer version section.
    AmVersion,
    /// An Avalon statistics section.
    AvaStats,
    /// A device section, with its `Type` when present.
    Dev(Option<String>),
    /// Any other section.
    Other,
}

/// The reply of the socket probe's status query.
#[derive(Debug)]
pub enum SocketReply {
    /// A `stats` envelope: its first status and message, and its sections.
    Stats { status: StatusCode, msg: String, sections: Option<Vec<StatsSection>> },
    /// A bare status envelope.
    Status { status: StatusCode, code: Option<u64>, description: Option<String> },
    /// The reply could not be read as either envelope.
    Unrecognized,
    /// The exchange itself failed.
    Failed(Error),
}

/// What a probe step concludes, before any text is built.
pub enum Verdict {
    Found(MinerKind),
    Fail(Error),
    /// An `UnknownMinerType` failure with this description.
    FailText(Seq<char>),
}

/// `r` is what verdict `v` stands for.
pub open spec fn verdict_holds(v: Verdict, r: Result<MinerKind, Error>) -> bool {
    match v {
        Verdict::Found(k) => r == Ok::<MinerKind, Error>(k),
        Verdict::Fail(e) => r == Err::<MinerKind, Error>(e),
        Verdict::FailText(t) => r matches Err(e) && is_unknown_type(e, t),
    }
}

/// Response header that marks an Antminer's digest-protected web interface.
pub const DIGEST_PATTERN: &'static str = "^[Dd]igest";

/// Front page of the VNISH firmware.
pub const VNISH_PATTERN: &'static str = "(<title>miner-dash-app</title>|<meta name=\"firmware\" content=\"AnthillOS\">)";

/// Front page of an Avalon.
pub const AVALON_PATTERN: &'static str = "<title>Avalon Device</title>";

/// Front page of the Minera interface.
pub const MINERA_PATTERN: &'static str = "minera.js";

/// Front page of the Minerva interface.
pub const MINERVA_PATTERN: &'static str = "Minerva(.|\\n)+umi";

/// The LuCI page of a Whatsminer.
pub const WHATSMINER_PATTERN: &'static str = "<title>WhatsMiner";

/// `pattern` matches somewhere in `text`.
pub open spec fn text_matches(pattern: Seq<char>, text: Seq<char>) -> bool {
    regex_captures_at(pattern, encode_utf8(text), 0) is Some
}

/// Whether `pattern` matches somewhere in `text`.
pub fn matches_text(pattern: &str, text: &str) -> (r: bool)
    ensures
        r == text_matches(pattern@, text@),
{
    find_at(pattern, text, 0).is_some()
}

/// How a failure of the first HTTP request is reported.
pub open spec fn first_request_failure(f: HttpFailure) -> Error {
    match f {
        HttpFailure::Timeout(_) => Error::Timeout,
        HttpFailure::Connect(_) => Error::NoMinerDetected,
        HttpFailure::Other(m) => Error::RequestError(m),
    }
}

/// How a failed follow-up HTTP request is reported.
pub open spec fn follow_up_failure(f: HttpFailure) -> Error {
    match f {
        HttpFailure::Timeout(m) => Error::RequestError(m),
        HttpFailure::Connect(m) => Error::RequestError(m),
        HttpFailure::Other(m) => Error::RequestError(m),
    }
}

/// Maps a failure of the first HTTP request: a timeout stays a timeout, a
/// refused connection means that no miner answers there.
pub fn first_request_error(f: HttpFailure) -> (r: Error)
    ensures
        r == first_request_failure(f),
{
    match f {
        HttpFailure::Timeout(_) => Error::Timeout,
        HttpFailure::Connect(_) => Error::NoMinerDetected,
        HttpFailure::Other(m) => Error::RequestError(m),
    }
}

/// Maps a failure of a follow-up HTTP request.
pub fn follow_up_error(f: HttpFailure) -> (r: Error)
    ensures
        r == follow_up_failure(f),
{
    match f {
        HttpFailure::Timeout(m) => Error::RequestError(m),
        HttpFailure::Connect(m) => Error::RequestError(m),
        HttpFailure::Other(m) => Error::RequestError(m),
    }
}

/// What the first response of the HTTP probe says by its status and
/// header: `Some` when it settles detection.
pub open spec fn first_response_verdict(status: u16, header: HeaderField) -> Option<Verdict> {
    if status == 401 {
        match header {
            HeaderField::Missing => None,
            HeaderField::Unreadable => Some(Verdict::Fail(Error::ToStrError)),
            HeaderField::Text(h) => if text_matches(DIGEST_PATTERN@, h@) {
                Some(Verdict::Found(MinerKind::Antminer))
            } else {
                None
            },
        }
    } else {
        None
    }
}

/// Reads the status and `WWW-Authenticate` header of the first response: a
/// digest challenge on a 401 identifies an Antminer.
pub fn first_response(status: u16, header: &HeaderField) -> (r: Option<Result<MinerKind, Error>>)
    ensures
        match first_response_verdict(status, *header) {
            None => r is None,
            Some(v) => r matches Some(x) && verdict_holds(v, x),
        },
{
    if status == 401 {
        match header {
            HeaderField::Missing => None,
            HeaderField::Unreadable => Some(Err(Error::ToStrError)),
            HeaderField::Text(h) => if matches_text(DIGEST_PATTERN, h.as_str()) {
                Some(Ok(MinerKind::Antminer))
            } else {
                None
            },
        }
    } else {
        None
    }
}

/// Which interface a Minerva runs, from the status of `GET /index.php`.
pub open spec fn minerva_interface_verdict(status: u16) -> Verdict {
    if status == 404 {
        Verdict::Found(MinerKind::Minerva)
    } else if status == 200 {
        Verdict::Found(MinerKind::Minera)
    } else {
        Verdict::FailText("Unable to determine interface for Minerva"@)
    }
}

/// Tells the two Minerva interfaces apart by the status of `GET /index.php`:
/// missing means the vendor's own interface, present means Minera.
pub fn minerva_interface(status: u16) -> (r: Result<MinerKind, Error>)
    ensures
        verdict_holds(minerva_interface_verdict(status), r),
{
    if status == 404 {
        Ok(MinerKind::Minerva)
    } else if status == 200 {
        Ok(MinerKind::Minera)
    } else {
        Err(Error::UnknownMinerType(String::from_str("Unable to determine interface for Minerva")))
    }
}

/// What the socket probe concludes from its reply.
pub enum SocketVerdict {
    Decided(Verdict),
    /// A Minerva: which interface it runs must be asked over HTTP.
    CheckMinervaInterface,
}

/// The verdict of the first stats section, from index `i` on, that names a
/// vendor.
pub open spec fn sections_verdict(secs: Seq<StatsSection>, i: int) -> SocketVerdict
    decreases secs.len() - i,
{
    if i < 0 || i >= secs.len() {
        SocketVerdict::Decided(Verdict::FailText("Stats did not include a section containing type"@))
    } else {
        match secs[i] {
            StatsSection::AmVersion => SocketVerdict::Decided(Verdict::Found(MinerKind::Antminer)),
            StatsSection::AvaStats => SocketVerdict::Decided(Verdict::Found(MinerKind::Avalon)),
            StatsSection::Dev(None) => SocketVerdict::Decided(
                Verdict::FailText("Miner did not include type in response"@),
            ),
            StatsSection::Dev(Some(t)) => if t@ == "Minerva"@ {
                SocketVerdict::CheckMinervaInterface
            } else {
                SocketVerdict::Decided(Verdict::FailText("Unsupported miner type: "@ + t@))
            },
            StatsSection::Other => sections_verdict(secs, i + 1),
        }
    }
}

/// The code a Whatsminer gives to the command it does not accept.
pub const WHATSMINER_REFUSAL_CODE: u64 = 14;

/// What the socket probe concludes from `reply`.
pub open spec fn socket_reply_verdict(reply: SocketReply) -> SocketVerdict {
    match reply {
        SocketReply::Stats { status, msg, sections } => if status != StatusCode::Succ {
            SocketVerdict::Decided(Verdict::Fail(Error::ApiCallFailed(msg)))
        } else {
            match sections {
                None => SocketVerdict::Decided(Verdict::FailText("Unable to parse stats response"@)),
                Some(v) => sections_verdict(v@, 0),
            }
        },
        SocketReply::Status { status, code, description } => if status == StatusCode::Error
            && code == Some(WHATSMINER_REFUSAL_CODE) && description is Some && occurs_in(
            lower_of(description->0@),
            "whatsminer"@,
        ) {
            SocketVerdict::Decided(Verdict::Found(MinerKind::Whatsminer))
        } else {
            SocketVerdict::Decided(Verdict::FailText("Received error response but not whatsminer"@))
        },
        SocketReply::Unrecognized => SocketVerdict::Decided(
            Verdict::FailText("Unable to parse response from socket API"@),
        ),
        SocketReply::Failed(e) => SocketVerdict::Decided(Verdict::Fail(
            match e {
                Error::NoHostDetected => Error::NoMinerDetected,
                _ => e,
            },
        )),
    }
}

/// A result of the socket probe: a decision, or the Minerva interface check.
pub enum SocketStep {
    Decided(Result<MinerKind, Error>),
    CheckMinervaInterface,
}

/// `r` carries out socket verdict `v`.
pub open spec fn socket_step_holds(v: SocketVerdict, r: SocketStep) -> bool {
    match v {
        SocketVerdict::Decided(d) => r matches SocketStep::Decided(x) && verdict_holds(d, x),
        SocketVerdict::CheckMinervaInterface => r is CheckMinervaInterface,
    }
}

fn scan_sections(secs: &Vec<StatsSection>) -> (r: SocketStep)
    ensures
        socket_step_holds(sections_verdict(secs@, 0), r),
{
    let mut i: usize = 0;
    while i < secs.len()
        invariant
            i <= secs@.len(),
            sections_verdict(secs@, 0) == sections_verdict(secs@, i as int),
        decreases secs@.len() - i,
    {
        match &secs[i] {
            StatsSection::AmVersion => {
                return SocketStep::Decided(Ok(MinerKind::Antminer));
            },
            StatsSection::AvaStats => {
                return SocketStep::Decided(Ok(MinerKind::Avalon));
            },
            StatsSection::Dev(None) => {
                return SocketStep::Decided(
                    Err(
                        Error::UnknownMinerType(
                            String::from_str("Miner did not include type in response"),
                        ),
                    ),
                );
            },
            StatsSection::Dev(Some(t)) => {
                if *t == String::from_str("Minerva") {
                    return SocketStep::CheckMinervaInterface;
                } else {
                    let text = String::from_str("Unsupported miner type: ").concat(t.as_str());
                    return SocketStep::Decided(Err(Error::UnknownMinerType(text)));
                }
            },
            StatsSection::Other => {},
        }
        i = i + 1;
    }
    SocketStep::Decided(
        Err(
            Error::UnknownMinerType(
                String::from_str("Stats did not include a section containing type"),
            ),
        ),
    )
}

/// Reads the reply of the socket probe's status query: a stats envelope
/// names the vendor by its first vendor-specific section; a bare error
/// envelope with the refusal code and a description that mentions
/// Whatsminer identifies a Whatsminer; a host that is not there means that
/// no miner was detected.
pub fn socket_step(reply: SocketReply) -> (r: SocketStep)
    ensures
        socket_step_holds(socket_reply_verdict(reply), r),
{
    match reply {
        SocketReply::Stats { status, msg, sections } => {
            if status != StatusCode::Succ {
                SocketStep::Decided(Err(Error::ApiCallFailed(msg)))
            } else {
                match sections {
                    None => SocketStep::Decided(
                        Err(Error::UnknownMinerType(String::from_str("Unable to parse stats response"))),
                    ),
                    Some(v) => scan_sections(&v),
                }
            }
        },
        SocketReply::Status { status, code, description } => {
            let named = match &description {
                Some(d) => contains_text(lowercase(d.as_str()).as_str(), "whatsminer"),
                None => false,
            };
            if status == StatusCode::Error && code == Some(WHATSMINER_REFUSAL_CODE) && named {
                SocketStep::Decided(Ok(MinerKind::Whatsminer))
            } else {
                SocketStep::Decided(
                    Err(
                        Error::UnknownMinerType(
                            String::from_str("Received error response but not whatsminer"),
                        ),
                    ),
                )
            }
        },
        SocketReply::Unrecognized => SocketStep::Decided(
            Err(Error::UnknownMinerType(String::from_str("Unable to parse response from socket API"))),
        ),
        SocketReply::Failed(e) => SocketStep::Decided(
            Err(
                match e {
                    Error::NoHostDetected => Error::NoMinerDetected,
                    _ => e,
                },
            ),
        ),
    }
}

/// Where detection stands between two outside exchanges.
#[derive(Debug)]
pub enum Stage {
    /// Waiting for the HTTP front page.
    HttpRoot,
    /// Waiting for the front page again, to look for VNISH; holds the first
    /// page's body.
    HttpVnish(Result<String, String>),
    /// Waiting for the front page again, to look for an Avalon; holds the
    /// first page's body.
    HttpAvalon(Result<String, String>),
    /// Waiting for the HTTPS front page, to look for a Minerva.
    HttpMinerva,
    /// Waiting for the LuCI page, to look for a Whatsminer.
    HttpLuci,
    /// The HTTP probe failed with this error; waiting for the socket reply.
    Socket(Error),
    /// The socket probe found a Minerva; waiting for `GET /index.php`. Holds
    /// the HTTP probe's error.
    SocketMinerva(Error),
    /// Detection is over.
    Done,
}

/// What the caller observed for the last action.
#[derive(Debug)]
pub enum ProbeEvent {
    Http(HttpReply),
    Socket(SocketReply),
}

/// What the caller must do next.
#[derive(Debug)]
pub enum ProbeAction {
    /// Send an HTTP GET to this URL and report the reply.
    Get(String),
    /// Send the status query `{"command":"stats"}` over the socket protocol
    /// and report the reply.
    QuerySocket,
    /// Detection is over with this result.
    Finish(Result<MinerKind, Error>),
}

/// Detection of the vendor at one host: the HTTP probe first, the socket
/// probe only when the HTTP probe fails, and the merge table when both fail.
#[derive(Debug)]
pub struct Detection {
    pub host: String,
    pub stage: Stage,
}

pub open spec fn root_url(host: Seq<char>) -> Seq<char> {
    "http://"@ + host + "/"@
}

pub open spec fn secure_url(host: Seq<char>) -> Seq<char> {
    "https://"@ + host
}

pub open spec fn luci_url(host: Seq<char>) -> Seq<char> {
    "http://"@ + host + "/cgi-bin/luci"@
}

pub open spec fn index_url(host: Seq<char>) -> Seq<char> {
    "http://"@ + host + "/index.php"@
}

/// `act` is a GET of `url`.
pub open spec fn gets(act: ProbeAction, url: Seq<char>) -> bool {
    act matches ProbeAction::Get(u) && u@ == url
}

/// The HTTP probe concludes with verdict `v`: a vendor ends detection, a
/// failure hands over to the socket probe.
pub open spec fn http_concludes(v: Verdict, stage: Stage, act: ProbeAction) -> bool {
    match v {
        Verdict::Found(k) => stage is Done && act == ProbeAction::Finish(Ok(k)),
        _ => stage matches Stage::Socket(e) && verdict_holds(v, Err(e)) && act is QuerySocket,
    }
}

/// The socket probe concludes with verdict `v` after the HTTP probe failed
/// with `http`: a vendor ends detection, a failure is merged with `http`.
pub open spec fn socket_concludes(http: Error, v: Verdict, stage: Stage, act: ProbeAction) -> bool {
    &&& stage is Done
    &&& act matches ProbeAction::Finish(r)
    &&& match v {
        Verdict::Found(k) => r == Ok::<MinerKind, Error>(k),
        _ => exists|socket: Error|
            verdict_holds(v, Err(socket)) && (r matches Err(e) && merged_failure(http, socket, e)),
    }
}

/// After the Avalon page: the first page's body decides Minera, else the
/// HTTPS page is fetched.
pub open spec fn after_avalon(host: Seq<char>, first: Result<String, String>, stage: Stage, act: ProbeAction) -> bool {
    match first {
        Err(m) => http_concludes(Verdict::Fail(Error::RequestError(m)), stage, act),
        Ok(t) => if text_matches(MINERA_PATTERN@, t@) {
            http_concludes(Verdict::Found(MinerKind::Minera), stage, act)
        } else {
            stage is HttpMinerva && gets(act, secure_url(host))
        },
    }
}

/// One step of detection at `host`: from `stage`, having observed `ev`, the
/// next stage is `next` and the caller's next action is `act`.
pub open spec fn moves(host: Seq<char>, stage: Stage, ev: ProbeEvent, next: Stage, act: ProbeAction) -> bool {
    match (stage, ev) {
        (Stage::HttpRoot, ProbeEvent::Http(HttpReply::Failed(f))) => http_concludes(
            Verdict::Fail(first_request_failure(f)),
            next,
            act,
        ),
        (
            Stage::HttpRoot,
            ProbeEvent::Http(HttpReply::Response { status, www_authenticate, body }),
        ) => match first_response_verdict(status, www_authenticate) {
            Some(v) => http_concludes(v, next, act),
            None => next == Stage::HttpVnish(body) && gets(act, root_url(host)),
        },
        (Stage::HttpVnish(first), ProbeEvent::Http(HttpReply::Failed(_))) => next == Stage::HttpAvalon(
            first,
        ) && gets(act, root_url(host)),
        (Stage::HttpVnish(first), ProbeEvent::Http(HttpReply::Response { body, .. })) => match body {
            Err(m) => http_concludes(Verdict::Fail(Error::RequestError(m)), next, act),
            Ok(t) => if text_matches(VNISH_PATTERN@, t@) {
                http_concludes(Verdict::Found(MinerKind::Vnish), next, act)
            } else {
                next == Stage::HttpAvalon(first) && gets(act, root_url(host))
            },
        },
        (Stage::HttpAvalon(first), ProbeEvent::Http(HttpReply::Failed(_))) => after_avalon(
            host,
            first,
            next,
            act,
        ),
        (Stage::HttpAvalon(first), ProbeEvent::Http(HttpReply::Response { body, .. })) => match body {
            Err(m) => http_concludes(Verdict::Fail(Error::RequestError(m)), next, act),
            Ok(t) => if text_matches(AVALON_PATTERN@, t@) {
                http_concludes(Verdict::Found(MinerKind::Avalon), next, act)
            } else {
                after_avalon(host, first, next, act)
            },
        },
        (Stage::HttpMinerva, ProbeEvent::Http(HttpReply::Failed(_))) => next is HttpLuci && gets(
            act,
            luci_url(host),
        ),
        (Stage::HttpMinerva, ProbeEvent::Http(HttpReply::Response { body, .. })) => match body {
            Err(m) => http_concludes(Verdict::Fail(Error::RequestError(m)), next, act),
            Ok(t) => if text_matches(MINERVA_PATTERN@, t@) {
                http_concludes(Verdict::Found(MinerKind::Minerva), next, act)
            } else {
                next is HttpLuci && gets(act, luci_url(host))
            },
        },
        (Stage::HttpLuci, ProbeEvent::Http(HttpReply::Failed(f))) => http_concludes(
            Verdict::Fail(follow_up_failure(f)),
            next,
            act,
        ),
        (Stage::HttpLuci, ProbeEvent::Http(HttpReply::Response { status, body, .. })) => if status
            == 403 {
            match body {
                Err(m) => http_concludes(Verdict::Fail(Error::RequestError(m)), next, act),
                Ok(t) => if text_matches(WHATSMINER_PATTERN@, t@) {
                    http_concludes(Verdict::Found(MinerKind::Whatsminer), next, act)
                } else {
                    http_concludes(Verdict::FailText(Seq::empty()), next, act)
                },
            }
        } else {
            http_concludes(Verdict::FailText(Seq::empty()), next, act)
        },
        (Stage::Socket(http), ProbeEvent::Socket(reply)) => match socket_reply_verdict(reply) {
            SocketVerdict::Decided(v) => socket_concludes(http, v, next, act),
            SocketVerdict::CheckMinervaInterface => next == Stage::SocketMinerva(http) && gets(
                act,
                index_url(host),
            ),
        },
        (Stage::SocketMinerva(http), ProbeEvent::Http(HttpReply::Failed(f))) => socket_concludes(
            http,
            Verdict::Fail(follow_up_failure(f)),
            next,
            act,
        ),
        (Stage::SocketMinerva(http), ProbeEvent::Http(HttpReply::Response { status, .. })) => socket_concludes(
            http,
            minerva_interface_verdict(status),
            next,
            act,
        ),
        _ => next is Done && act == ProbeAction::Finish(Err(Error::InvalidResponse)),
    }
}

/// `stage` belongs to the HTTP probe.
pub open spec fn is_http_stage(stage: Stage) -> bool {
    stage is HttpRoot || stage is HttpVnish || stage is HttpAvalon || stage is HttpMinerva
        || stage is HttpLuci
}

/// Fixed probe order: while the HTTP probe runs, detection ends only with a
/// vendor; any HTTP failure hands over to the socket probe, which then holds
/// that failure for the merge.
pub proof fn lemma_http_probe_precedes_socket(
    host: Seq<char>,
    stage: Stage,
    reply: HttpReply,
    next: Stage,
    act: ProbeAction,
)
    requires
        is_http_stage(stage),
        moves(host, stage, ProbeEvent::Http(reply), next, act),
    ensures
        act matches ProbeAction::Finish(r) ==> r is Ok,
        act is QuerySocket ==> next is Socket,
        next is SocketMinerva ==> false,
{
}

fn url(scheme: &str, host: &String, path: &str) -> (r: String)
    ensures
        r@ == scheme@ + host@ + path@,
{
    String::from_str(scheme).concat(host.as_str()).concat(path)
}

fn http_done(found: Result<MinerKind, Error>) -> (r: (Stage, ProbeAction))
    ensures
        match found {
            Ok(k) => http_concludes(Verdict::Found(k), r.0, r.1),
            Err(e) => http_concludes(Verdict::Fail(e), r.0, r.1),
        },
{
    match found {
        Ok(k) => (Stage::Done, ProbeAction::Finish(Ok(k))),
        Err(e) => (Stage::Socket(e), ProbeAction::QuerySocket),
    }
}

fn http_unknown() -> (r: (Stage, ProbeAction))
    ensures
        http_concludes(Verdict::FailText(Seq::empty()), r.0, r.1),
{
    let e = Error::UnknownMinerType(String::new());
    (Stage::Socket(e), ProbeAction::QuerySocket)
}

fn socket_done(http: Error, found: Result<MinerKind, Error>, v: Ghost<Verdict>) -> (r: (Stage, ProbeAction))
    requires
        verdict_holds(v@, found),
    ensures
        socket_concludes(http, v@, r.0, r.1),
{
    match found {
        Ok(k) => (Stage::Done, ProbeAction::Finish(Ok(k))),
        Err(socket) => {
            let merged = merge_probe_errors(http, socket);
            proof {
                assert(verdict_holds(v@, Err(socket)));
            }
            (Stage::Done, ProbeAction::Finish(Err(merged)))
        },
    }
}

fn avalon_missed(host: &String, first: Result<String, String>) -> (r: (Stage, ProbeAction))
    ensures
        after_avalon(host@, first, r.0, r.1),
{
    match &first {
        Err(m) => http_done(Err(Error::RequestError(m.clone()))),
        Ok(t) => if matches_text(MINERA_PATTERN, t.as_str()) {
            http_done(Ok(MinerKind::Minera))
        } else {
            (Stage::HttpMinerva, ProbeAction::Get(String::from_str("https://").concat(host.as_str())))
        },
    }
}

impl Detection {
    /// Starts detection at `host`: the first action fetches its HTTP front
    /// page.
    pub fn start(host: &str) -> (r: (Detection, ProbeAction))
        ensures
            r.0.host@ == host@,
            r.0.stage is HttpRoot,
            gets(r.1, root_url(host@)),
    {
        let host = String::from_str(host);
        let act = ProbeAction::Get(url("http://", &host, "/"));
        (Detection { host, stage: Stage::HttpRoot }, act)
    }

    /// Takes what the caller observed for the last action and says what to do
    /// next.
    pub fn advance(self, ev: ProbeEvent) -> (r: (Detection, ProbeAction))
        ensures
            r.0.host == self.host,
            moves(self.host@, self.stage, ev, r.0.stage, r.1),
    {
        let host = self.host;
        let (stage, act) = match (self.stage, ev) {
            (Stage::HttpRoot, ProbeEvent::Http(HttpReply::Failed(f))) => http_done(
                Err(first_request_error(f)),
            ),
            (
                Stage::HttpRoot,
                ProbeEvent::Http(HttpReply::Response { status, www_authenticate, body }),
            ) => match first_response(status, &www_authenticate) {
                Some(found) => http_done(found),
                None => (Stage::HttpVnish(body), ProbeAction::Get(url("http://", &host, "/"))),
            },
            (Stage::HttpVnish(first), ProbeEvent::Http(HttpReply::Failed(_))) => (
                Stage::HttpAvalon(first),
                ProbeAction::Get(url("http://", &host, "/")),
            ),
            (Stage::HttpVnish(first), ProbeEvent::Http(HttpReply::Response { body, .. })) => match body {
                Err(m) => http_done(Err(Error::RequestError(m))),
                Ok(t) => if matches_text(VNISH_PATTERN, t.as_str()) {
                    http_done(Ok(MinerKind::Vnish))
                } else {
                    (Stage::HttpAvalon(first), ProbeAction::Get(url("http://", &host, "/")))
                },
            },
            (Stage::HttpAvalon(first), ProbeEvent::Http(HttpReply::Failed(_))) => avalon_missed(
                &host,
                first,
            ),
            (Stage::HttpAvalon(first), ProbeEvent::Http(HttpReply::Response { body, .. })) => match body {
                Err(m) => http_done(Err(Error::RequestError(m))),
                Ok(t) => if matches_text(AVALON_PATTERN, t.as_str()) {
                    http_done(Ok(MinerKind::Avalon))
                } else {
                    avalon_missed(&host, first)
                },
            },
            (Stage::HttpMinerva, ProbeEvent::Http(HttpReply::Failed(_))) => (
                Stage::HttpLuci,
                ProbeAction::Get(url("http://", &host, "/cgi-bin/luci")),
            ),
            (Stage::HttpMinerva, ProbeEvent::Http(HttpReply::Response { body, .. })) => match body {
                Err(m) => http_done(Err(Error::RequestError(m))),
                Ok(t) => if matches_text(MINERVA_PATTERN, t.as_str()) {
                    http_done(Ok(MinerKind::Minerva))
                } else {
                    (Stage::HttpLuci, ProbeAction::Get(url("http://", &host, "/cgi-bin/luci")))
                },
            },
            (Stage::HttpLuci, ProbeEvent::Http(HttpReply::Failed(f))) => http_done(
                Err(follow_up_error(f)),
            ),
            (Stage::HttpLuci, ProbeEvent::Http(HttpReply::Response { status, body, .. })) => {
                if status == 403 {
                    match body {
                        Err(m) => http_done(Err(Error::RequestError(m))),
                        Ok(t) => if matches_text(WHATSMINER_PATTERN, t.as_str()) {
                            http_done(Ok(MinerKind::Whatsminer))
                        } else {
                            http_unknown()
                        },
                    }
                } else {
                    http_unknown()
                }
            },
            (Stage::Socket(http), ProbeEvent::Socket(reply)) => {
                let ghost verdict = socket_reply_verdict(reply);
                match socket_step(reply) {
                    SocketStep::Decided(found) => {
                        let ghost v = match verdict {
                            SocketVerdict::Decided(v) => v,
                            _ => Verdict::FailText(Seq::empty()),
                        };
                        socket_done(http, found, Ghost(v))
                    },
                    SocketStep::CheckMinervaInterface => (
                        Stage::SocketMinerva(http),
                        ProbeAction::Get(url("http://", &host, "/index.php")),
                    ),
                }
            },
            (Stage::SocketMinerva(http), ProbeEvent::Http(HttpReply::Failed(f))) => socket_done(
                http,
                Err(follow_up_error(f)),
                Ghost(Verdict::Fail(follow_up_failure(f))),
            ),
            (Stage::SocketMinerva(http), ProbeEvent::Http(HttpReply::Response { status, .. })) => socket_done(
                http,
                minerva_interface(status),
                Ghost(minerva_interface_verdict(status)),
            ),
            _ => (Stage::Done, ProbeAction::Finish(Err(Error::InvalidResponse))),
        };
        (Detection { host, stage }, act)
    }
}

} // verus!
