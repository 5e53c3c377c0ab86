use vstd::prelude::*;

use crate::text::same_text;

verus! {

/// State of the mining process.
#[derive(Debug, Copy, Clone, PartialEq, Eq, Structural)]
pub enum StatusCode {
    Running,
    Initializing,
    AutoTuning,
    Restarting,
    Failure,
    ShuttingDown,
    Stopped,
}

/// The StatusCode that the firmware names `name`, if any.
pub open spec fn spec_status_code_named(name: Seq<char>) -> Option<StatusCode> {
    if name == "mining"@ {
        Some(StatusCode::Running)
    } else if name == "initializing"@ {
        Some(StatusCode::Initializing)
    } else if name == "auto-tuning"@ {
        Some(StatusCode::AutoTuning)
    } else if name == "restarting"@ {
        Some(StatusCode::Restarting)
    } else if name == "failure"@ {
        Some(StatusCode::Failure)
    } else if name == "shutting-down"@ {
        Some(StatusCode::ShuttingDown)
    } else if name == "stopped"@ {
        Some(StatusCode::Stopped)
    } else {
        None
    }
}

impl StatusCode {
    /// Reads the name that the firmware uses; `None` for an unknown name.
    pub fn from_name(name: &str) -> (r: Option<StatusCode>)
        ensures
            r == spec_status_code_named(name@),
    {
        if same_text(name, "mining") {
            Some(StatusCode::Running)
        } else if same_text(name, "initializing") {
            Some(StatusCode::Initializing)
        } else if same_text(name, "auto-tuning") {
            Some(StatusCode::AutoTuning)
        } else if same_text(name, "restarting") {
            Some(StatusCode::Restarting)
        } else if same_text(name, "failure") {
            Some(StatusCode::Failure)
        } else if same_text(name, "shutting-down") {
            Some(StatusCode::ShuttingDown)
        } else if same_text(name, "stopped") {
            Some(StatusCode::Stopped)
        } else {
            None
        }
    }
}
/// State of a configured pool.
#[derive(Debug, Copy, Clone, PartialEq, Eq, Structural)]
pub enum PoolStatus {
    Working,
    Active,
    Offline,
    Disabled,
    Rejecting,
    Unknown,
}

/// The PoolStatus that the firmware names `name`, if any.
pub open spec fn spec_pool_status_named(name: Seq<char>) -> Option<PoolStatus> {
    if name == "working"@ {
        Some(PoolStatus::Working)
    } else if name == "active"@ {
        Some(PoolStatus::Active)
    } else if name == "offline"@ {
        Some(PoolStatus::Offline)
    } else if name == "disabled"@ {
        Some(PoolStatus::Disabled)
    } else if name == "rejecting"@ {
        Some(PoolStatus::Rejecting)
    } else if name == "unknown"@ {
        Some(PoolStatus::Unknown)
    } else {
        None
    }
}

impl PoolStatus {
    /// Reads the name that the firmware uses; `None` for an unknown name.
    pub fn from_name(name: &str) -> (r: Option<PoolStatus>)
        ensures
            r == spec_pool_status_named(name@),
    {
        if same_text(name, "working") {
            Some(PoolStatus::Working)
        } else if same_text(name, "active") {
            Some(PoolStatus::Active)
        } else if same_text(name, "offline") {
            Some(PoolStatus::Offline)
        } else if same_text(name, "disabled") {
            Some(PoolStatus::Disabled)
        } else if same_text(name, "rejecting") {
            Some(PoolStatus::Rejecting)
        } else if same_text(name, "unknown") {
            Some(PoolStatus::Unknown)
        } else {
            None
        }
    }
}
/// State of a temperature sensor.
#[derive(Debug, Copy, Clone, PartialEq, Eq, Structural)]
pub enum TempSensorStatus {
    Init,
    Measure,
    Error,
    Unknown,
}

/// The TempSensorStatus that the firmware names `name`, if any.
pub open spec fn spec_temp_sensor_status_named(name: Seq<char>) -> Option<TempSensorStatus> {
    if name == "init"@ {
        Some(TempSensorStatus::Init)
    } else if name == "measure"@ {
        Some(TempSensorStatus::Measure)
    } else if name == "error"@ {
        Some(TempSensorStatus::Error)
    } else if name == "unknown"@ {
        Some(TempSensorStatus::Unknown)
    } else {
        None
    }
}

impl TempSensorStatus {
    /// Reads the name that the firmware uses; `None` for an unknown name.
    pub fn from_name(name: &str) -> (r: Option<TempSensorStatus>)
        ensures
            r == spec_temp_sensor_status_named(name@),
    {
        if same_text(name, "init") {
            Some(TempSensorStatus::Init)
        } else if same_text(name, "measure") {
            Some(TempSensorStatus::Measure)
        } else if same_text(name, "error") {
            Some(TempSensorStatus::Error)
        } else if same_text(name, "unknown") {
            Some(TempSensorStatus::Unknown)
        } else {
            None
        }
    }
}
/// State of a hashboard chain.
#[derive(Debug, Copy, Clone, PartialEq, Eq, Structural)]
pub enum ChainState {
    Initializing,
    Mining,
    Stopped,
    Failure,
    Disconnected,
    Disabled,
    Unknown,
}

/// The ChainState that the firmware names `name`, if any.
pub open spec fn spec_chain_state_named(name: Seq<char>) -> Option<ChainState> {
    if name == "initializing"@ {
        Some(ChainState::Initializing)
    } else if name == "mining"@ {
        Some(ChainState::Mining)
    } else if name == "stopped"@ {
        Some(ChainState::Stopped)
    } else if name == "failure"@ {
        Some(ChainState::Failure)
    } else if name == "disconnected"@ {
        Some(ChainState::Disconnected)
    } else if name == "disabled"@ {
        Some(ChainState::Disabled)
    } else if name == "unknown"@ {
        Some(ChainState::Unknown)
    } else {
        None
    }
}

impl ChainState {
    /// Reads the name that the firmware uses; `None` for an unknown name.
    pub fn from_name(name: &str) -> (r: Option<ChainState>)
        ensures
            r == spec_chain_state_named(name@),
    {
        if same_text(name, "initializing") {
            Some(ChainState::Initializing)
        } else if same_text(name, "mining") {
            Some(ChainState::Mining)
        } else if same_text(name, "stopped") {
            Some(ChainState::Stopped)
        } else if same_text(name, "failure") {
            Some(ChainState::Failure)
        } else if same_text(name, "disconnected") {
            Some(ChainState::Disconnected)
        } else if same_text(name, "disabled") {
            Some(ChainState::Disabled)
        } else if same_text(name, "unknown") {
            Some(ChainState::Unknown)
        } else {
            None
        }
    }
}
/// Fan control mode, with its target parameter where it has one.
#[derive(Debug, Copy, Clone, PartialEq, Eq, Structural)]
pub enum CoolingMode {
    Auto(u8),
    Manual(u8),
    Immersion,
}

/// Why a cooling mode could not be read.
#[derive(Debug, Clone, PartialEq, Eq)]
pub enum CoolingModeError {
    /// `auto` or `manual` came without its parameter.
    MissingParameter,
    /// The mode's name is not one the firmware uses; holds the name.
    UnknownMode(String),
}

/// The cooling mode written as `name` with optional `param`.
pub open spec fn spec_cooling_mode(name: Seq<char>, param: Option<u8>) -> Option<CoolingMode> {
    if name == "auto"@ {
        match param {
            Some(p) => Some(CoolingMode::Auto(p)),
            None => None,
        }
    } else if name == "manual"@ {
        match param {
            Some(p) => Some(CoolingMode::Manual(p)),
            None => None,
        }
    } else if name == "immers"@ {
        Some(CoolingMode::Immersion)
    } else {
        None
    }
}

impl CoolingMode {
    /// Reads the mode from its wire form: a name and an optional parameter.
    pub fn from_parts(name: &str, param: Option<u8>) -> (r: Result<CoolingMode, CoolingModeError>)
        ensures
            match spec_cooling_mode(name@, param) {
                Some(m) => r == Ok::<CoolingMode, CoolingModeError>(m),
                None => r matches Err(e) && (if name@ == "auto"@ || name@ == "manual"@ {
                    e is MissingParameter
                } else {
                    e matches CoolingModeError::UnknownMode(n) && n@ == name@
                }),
            },
    {
        if same_text(name, "auto") {
            match param {
                Some(p) => Ok(CoolingMode::Auto(p)),
                None => Err(CoolingModeError::MissingParameter),
            }
        } else if same_text(name, "manual") {
            match param {
                Some(p) => Ok(CoolingMode::Manual(p)),
                None => Err(CoolingModeError::MissingParameter),
            }
        } else if same_text(name, "immers") {
            Ok(CoolingMode::Immersion)
        } else {
            Err(CoolingModeError::UnknownMode(String::from_str(name)))
        }
    }

    /// The wire form of the mode: its name and its parameter.
    pub fn to_parts(&self) -> (r: (String, Option<u8>))
        ensures
            spec_cooling_mode(r.0@, r.1) == Some(*self),
    {
        proof {
            reveal_strlit("auto");
            reveal_strlit("manual");
            reveal_strlit("immers");
            assert("manual"@ != "auto"@) by {
                assert("manual"@.len() != "auto"@.len());
            }
            assert("immers"@ != "auto"@) by {
                assert("immers"@.len() != "auto"@.len());
            }
            assert("immers"@ != "manual"@) by {
                assert("immers"@[0] != "manual"@[0]);
            }
        }
        match self {
            CoolingMode::Auto(p) => (String::from_str("auto"), Some(*p)),
            CoolingMode::Manual(p) => (String::from_str("manual"), Some(*p)),
            CoolingMode::Immersion => (String::from_str("immers"), None),
        }
    }
}

/// Network status of a VNISH device.
#[derive(Debug, Clone)]
pub struct Network {
    pub mac: String,
    pub ip: String,
    pub netmask: String,
    pub gateway: String,
    pub dns: Vec<String>,
    pub hostname: String,
}
/// System information of a VNISH device.
#[derive(Debug, Clone)]
pub struct System {
    pub os: String,
    pub file_system_version: String,
    pub mem_total: usize,
    pub mem_free: usize,
    pub mem_free_percent: u8,
    pub mem_buf: usize,
    pub mem_buf_percent: u8,
    pub network_status: Network,
    pub uptime: String,
}
/// Firmware and model information of a VNISH device.
#[derive(Debug, Clone)]
pub struct Info {
    pub miner: String,
    pub model: String,
    pub fw_name: String,
    pub fw_version: String,
    pub platform: String,
    pub install_type: String,
    pub build_time: String,
    pub system: System,
}
/// An autotuning preset as the firmware lists it.
#[derive(Debug, Clone)]
pub struct Preset {
    pub name: String,
    pub pretty: String,
    pub status: String,
    pub modded_psu_required: bool,
}
/// A pool as the settings endpoint takes it.
#[derive(Debug, Clone)]
pub struct VPool {
    pub url: String,
    pub user: String,
    pub pass: String,
    pub order: usize,
}
/// Cooling settings.
#[derive(Debug, Clone)]
pub struct CoolingSettings {
    pub mode: CoolingMode,
}
/// Developer fee settings.
#[derive(Debug, Clone)]
pub struct DevFee {
    pub region: String,
}
/// Miscellaneous mining settings.
#[derive(Debug, Clone)]
pub struct MiscSettings {
    pub asic_boost: bool,
    pub restart_hashrate: i64,
    pub restart_temp: i64,
    pub disable_restart_unbalanced: bool,
    pub disable_chain_break_protection: bool,
    pub max_restart_attempts: usize,
    pub bitmain_disable_volt_comp: bool,
    pub quick_start: bool,
    pub higher_volt_offset: usize,
    pub tuner_bad_chip_hr_threshold: usize,
}
/// Global frequency and voltage.
#[derive(Debug, Clone)]
pub struct GlobalOverclockSettings {
    pub freq: usize,
    pub volt: usize,
}
/// Per-chain frequency settings.
#[derive(Debug, Clone)]
pub struct ChainSettings {
    pub freq: usize,
    pub chips: Vec<usize>,
}
/// Overclock settings: the preset in use and the manual values.
#[derive(Debug, Clone)]
pub struct OverclockSettings {
    pub preset: String,
    pub globals: GlobalOverclockSettings,
    pub chains: Vec<ChainSettings>,
}
/// Time zone setting.
#[derive(Debug, Clone)]
pub struct TzSettings {
    pub current: String,
}
/// Regional settings.
#[derive(Debug, Clone)]
pub struct RegionalSettings {
    pub timezone: TzSettings,
}
/// Network settings.
#[derive(Debug, Clone)]
pub struct NetworkSettings {
    pub mac: String,
    pub ip: String,
    pub netmask: String,
    pub gateway: String,
    pub dns: Vec<String>,
    pub hostname: String,
    pub dhcp: bool,
}
/// SSH settings.
#[derive(Debug, Clone)]
pub struct SshSettings {
    pub port: u16,
    pub enabled: bool,
}
/// Password change request.
#[derive(Debug, Clone)]
pub struct PasswordSettings {
    pub current: String,
    pub pw: String,
}
/// Status of the mining process.
#[derive(Debug, Clone)]
pub struct MinerStatus {
    pub restart_required: bool,
    pub miner_state: StatusCode,
    pub miner_state_time: usize,
    pub find_miner: bool,
    pub unlocked: bool,
    pub warranty: bool,
}
/// Mining state within a summary.
#[derive(Debug, Clone)]
pub struct MinerSummaryStatus {
    pub miner_state: StatusCode,
    pub miner_state_time: u64,
}
/// One fan.
#[derive(Debug, Clone)]
pub struct Fan {
    pub id: u32,
    pub rpm: u32,
}
/// Fan readings.
#[derive(Debug, Clone)]
pub struct CoolingStats {
    pub fan_num: u32,
    pub fans: Vec<Fan>,
    pub fan_duty: u32,
}
/// Chip health counts of a chain.
#[derive(Debug, Clone)]
pub struct ChipStatus {
    pub red: i32,
    pub orange: i32,
    pub grey: i32,
}
/// State of a chain.
#[derive(Debug, Clone)]
pub struct ChainStatus {
    pub state: ChainState,
}
/// Overclock limits and defaults of the interface.
#[derive(Debug, Clone)]
pub struct Overclock {
    pub default_freq: u32,
    pub default_voltage: u32,
    pub max_freq: u32,
    pub max_voltage: u32,
    pub max_voltage_stock_psu: u32,
    pub min_freq: u32,
    pub min_voltage: u32,
    pub warn_freq: u32,
}
/// Number of chains that have not failed.
pub fn working_chains(states: &Vec<ChainState>) -> (r: usize)
    ensures
        r == states@.filter(|s: ChainState| s != ChainState::Failure).len(),
{
    let mut n: usize = 0;
    let mut i: usize = 0;
    while i < states.len()
        invariant
            i <= states@.len(),
            n == states@.subrange(0, i as int).filter(|s: ChainState| s != ChainState::Failure).len(),
            n <= i,
        decreases states@.len() - i,
    {
        proof {
            reveal(Seq::filter);
            assert(states@.subrange(0, i + 1).drop_last() =~= states@.subrange(0, i as int));
        }
        if states[i] != ChainState::Failure {
            n = n + 1;
        }
        i = i + 1;
    }
    assert(states@.subrange(0, states@.len() as int) =~= states@);
    n
}

} // verus!
