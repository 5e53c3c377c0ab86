use vstd::prelude::*;
use vstd::string::*;

use crate::error::Error;

verus! {

/// A mining pool as the devices report and accept it.
#[derive(Debug, Clone)]
pub struct Pool {
    pub url: String,
    pub username: String,
    pub password: Option<String>,
}

impl Default for Pool {
    fn default() -> (r: Self)
        ensures
            r.url@.len() == 0,
            r.username@.len() == 0,
            r.password is None,
    {
        Pool { url: String::new(), username: String::new(), password: None }
    }
}

/// The fault taxonomy shared by every vendor.
#[derive(Debug, Copy, Clone, PartialEq, Eq, Hash, Structural)]
pub enum ErrorType {
    ControlBoard,
    HashBoard,
    Fan,
    Temperature,
    Power,
    Network,
    Config,
    Other,
}

/// A classified fault: a rendered message and its category. Two faults are
/// the same when both parts are equal.
#[derive(Debug, Clone, Hash)]
pub struct MinerError {
    pub msg: String,
    pub error_type: ErrorType,
}

impl View for MinerError {
    type V = (Seq<char>, ErrorType);

    open spec fn view(&self) -> (Seq<char>, ErrorType) {
        (self.msg@, self.error_type)
    }
}

impl PartialEq for MinerError {
    fn eq(&self, other: &MinerError) -> (r: bool)
        ensures
            r == (self@ == other@),
    {
        self.error_type == other.error_type && self.msg == other.msg
    }
}

impl vstd::std_specs::cmp::PartialEqSpecImpl for MinerError {
    open spec fn obeys_eq_spec() -> bool {
        true
    }

    open spec fn eq_spec(&self, other: &MinerError) -> bool {
        self@ == other@
    }
}

/// The result of a reboot command. The device drops the connection while it
/// restarts, before it can answer, so a failed exchange is taken as success
/// and an answer as failure. A genuine network fault at that moment cannot
/// be told apart from a reboot and is reported as success too.
pub fn reboot_outcome<T>(sent: Result<T, Error>) -> (r: Result<(), Error>)
    ensures
        sent is Err ==> r is Ok,
        sent is Ok ==> (r matches Err(Error::ApiCallFailed(m)) && m@ == "Reboot failed"@),
{
    match sent {
        Err(_) => Ok(()),
        Ok(_) => Err(Error::ApiCallFailed(String::from_str("Reboot failed"))),
    }
}

/// The structural fault reported when fewer hashboards are detected than
/// the model has.
pub fn board_shortfall(detected: u64, expected: u64) -> (r: Option<MinerError>)
    ensures
        detected < expected ==> (r matches Some(f) && f@ == ("Missing Board(s)"@, ErrorType::HashBoard)),
        detected >= expected ==> r is None,
{
    if detected < expected {
        Some(MinerError { msg: String::from_str("Missing Board(s)"), error_type: ErrorType::HashBoard })
    } else {
        None
    }
}

} // verus!
