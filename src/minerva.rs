use vstd::prelude::*;

verus! {

/// Network configuration of a Minerva.
#[derive(Debug, Clone)]
pub struct Network {
    pub dhcp4: bool,
    pub dns: String,
    pub dns_bak: String,
    pub gateway: String,
    pub hardware_address: String,
    pub interface_name: String,
    pub ip: String,
    pub netmask: String,
}

/// Reply to the network information request.
#[derive(Debug, Clone)]
pub struct NetworkResponse {
    pub code: usize,
    pub data: Network,
    pub message: String,
}

/// The Antminer stats section that carries model and version.
#[derive(Debug, Clone)]
pub struct AmVersion {
    pub bmminer: String,
    pub miner: String,
    pub compile_time: String,
    pub type_: String,
}

} // verus!
