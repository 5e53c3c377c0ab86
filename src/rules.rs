use vstd::prelude::*;
use vstd::string::*;

use crate::classify::{ErrorRule, RuleTable};
use crate::miner::ErrorType;

verus! {

/// A rule as plain values: pattern, template, category, and whether it repeats.
pub open spec fn rule_view(r: ErrorRule) -> (Seq<char>, Seq<char>, ErrorType, bool) {
    (r.pattern@, r.template@, r.category, r.repeat)
}

/// The rules of a table as plain values, in order.
pub open spec fn rule_views(rules: Seq<ErrorRule>) -> Seq<(Seq<char>, Seq<char>, ErrorType, bool)> {
    rules.map_values(|r: ErrorRule| rule_view(r))
}

fn rule(pattern: &str, template: &str, category: ErrorType, repeat: bool) -> (r: ErrorRule)
    ensures
        r.pattern@ == pattern@,
        r.template@ == template@,
        r.category == category,
        r.repeat == repeat,
{
    ErrorRule {
        pattern: String::from_str(pattern),
        template: String::from_str(template),
        category,
        repeat,
    }
}


/// The rules of the fault table for the Antminer firmware log, scoped to the text since the last start.
pub open spec fn antminer_rule_views() -> Seq<(Seq<char>, Seq<char>, ErrorType, bool)> {
    seq![
        (".+load chain ([0-9]).+\\n.+(EEPROM error|bad_asic_crc)"@, "Chain {} EEPROM CRC error"@, ErrorType::HashBoard, false),
        ("Data load fail for chain ([0-9])"@, "Chain {} load EEPROM fail"@, ErrorType::HashBoard, false),
        (".+ERROR_POWER_LOST"@, "Power lost"@, ErrorType::Power, false),
        (".+ERROR_FAN_LOST"@, "Fan lost"@, ErrorType::Fan, false),
        (".+ERROR_TEMP_TOO_HIGH"@, "Temperature too high"@, ErrorType::Temperature, false),
        (".+_read_an6_voltage"@, "Read voltage failed"@, ErrorType::Power, false),
        (".+Chain ([0-9]) only find ([0-9]+) asic"@, "Chain {} only find {} asic"@, ErrorType::HashBoard, false),
        (".+i2c: timeout waiting for bus ready"@, "I2C timeout"@, ErrorType::ControlBoard, false),
        (".+fail to read pic temp for chain ([0-9])"@, "Chain {} read pic temp fail"@, ErrorType::HashBoard, false),
        (".+FW type (.+), (?:.+) shows (.+)"@, "Incorrect firmware (should be {}, found {})"@, ErrorType::Config, false),
        (".+read temp sensor failed: chain = ([0-9])"@, "Chain {} read temp sensor failed"@, ErrorType::HashBoard, false),
    ]
}

/// The fault table for the Antminer firmware log, scoped to the text since the last start.
pub fn antminer_rules() -> (t: RuleTable)
    ensures
        t.since_marker matches Some(m) && m@ == "=capability start="@,
        t.rules@.len() == 11,
        rule_views(t.rules@) == antminer_rule_views(),
        forall|i: int| 0 <= i < t.rules@.len() ==> t.rules@[i].repeat == false,
{
    let rules = vec![
        rule(".+load chain ([0-9]).+\\n.+(EEPROM error|bad_asic_crc)", "Chain {} EEPROM CRC error", ErrorType::HashBoard, false),
        rule("Data load fail for chain ([0-9])", "Chain {} load EEPROM fail", ErrorType::HashBoard, false),
        rule(".+ERROR_POWER_LOST", "Power lost", ErrorType::Power, false),
        rule(".+ERROR_FAN_LOST", "Fan lost", ErrorType::Fan, false),
        rule(".+ERROR_TEMP_TOO_HIGH", "Temperature too high", ErrorType::Temperature, false),
        rule(".+_read_an6_voltage", "Read voltage failed", ErrorType::Power, false),
        rule(".+Chain ([0-9]) only find ([0-9]+) asic", "Chain {} only find {} asic", ErrorType::HashBoard, false),
        rule(".+i2c: timeout waiting for bus ready", "I2C timeout", ErrorType::ControlBoard, false),
        rule(".+fail to read pic temp for chain ([0-9])", "Chain {} read pic temp fail", ErrorType::HashBoard, false),
        rule(".+FW type (.+), (?:.+) shows (.+)", "Incorrect firmware (should be {}, found {})", ErrorType::Config, false),
        rule(".+read temp sensor failed: chain = ([0-9])", "Chain {} read temp sensor failed", ErrorType::HashBoard, false),
    ];
    assert(rule_views(rules@) =~= antminer_rule_views());
    RuleTable { since_marker: Some(String::from_str("=capability start=")), rules }
}


/// The rules of the fault table for the VNISH firmware log, scoped to the text since the last start.
pub open spec fn vnish_rule_views() -> Seq<(Seq<char>, Seq<char>, ErrorType, bool)> {
    seq![
        ("chain#(\\d) - [Ff]ailed to init pic controller"@, "Chain {} - Failed to init pic controller"@, ErrorType::HashBoard, true),
        ("chain#(\\d) - (\\d+) of (\\d+) chips detected, attempt 3"@, "Chain {} - {} of {} chips detected"@, ErrorType::HashBoard, true),
        ("[Ff]ailed to set voltage to (\\d+) mV"@, "Failed to set voltage to {} mV"@, ErrorType::Power, true),
        ("chain#(\\d) - [Cc]hain break detected"@, "Chain {} - Chain break detected"@, ErrorType::HashBoard, true),
        ("chain#(\\d) - [Oo]verheated, pcb temp=(\\d+)"@, "Chain {} - Overheated PCB {} C"@, ErrorType::Temperature, true),
        ("chain#(\\d) - [Oo]verheated, chip temp=(\\d+)"@, "Chain {} - Overheated Chip {} C"@, ErrorType::Temperature, true),
        ("fan#(\\d) - (?:LOST|lost)"@, "Lost Fan {}"@, ErrorType::Fan, true),
        ("chain#(\\d) - [Ff]ailed to init board temp sensors"@, "Chain {} - Failed to init board temp sensors"@, ErrorType::HashBoard, true),
        ("ERROR: chain#(\\d) - [Ff]ailed to power on the chain"@, "Chain {} - Failed to power on the chain"@, ErrorType::HashBoard, true),
        ("ERROR: chain#(\\d) sen#(\\d) - dead, temperature doesn't change"@, "Chain {} - Sensor {} dead, temperature doesn't change"@, ErrorType::HashBoard, true),
        ("chain#(\\d) - [Ff]ailed to load eeprom data /chain-info.c:73/"@, "Chain {} - Failed to load eeprom data"@, ErrorType::HashBoard, true),
    ]
}

/// The fault table for the VNISH firmware log, scoped to the text since the last start.
pub fn vnish_rules() -> (t: RuleTable)
    ensures
        t.since_marker matches Some(m) && m@ == "INFO: Initializing PSU"@,
        t.rules@.len() == 11,
        rule_views(t.rules@) == vnish_rule_views(),
        forall|i: int| 0 <= i < t.rules@.len() ==> t.rules@[i].repeat == true,
{
    let rules = vec![
        rule("chain#(\\d) - [Ff]ailed to init pic controller", "Chain {} - Failed to init pic controller", ErrorType::HashBoard, true),
        rule("chain#(\\d) - (\\d+) of (\\d+) chips detected, attempt 3", "Chain {} - {} of {} chips detected", ErrorType::HashBoard, true),
        rule("[Ff]ailed to set voltage to (\\d+) mV", "Failed to set voltage to {} mV", ErrorType::Power, true),
        rule("chain#(\\d) - [Cc]hain break detected", "Chain {} - Chain break detected", ErrorType::HashBoard, true),
        rule("chain#(\\d) - [Oo]verheated, pcb temp=(\\d+)", "Chain {} - Overheated PCB {} C", ErrorType::Temperature, true),
        rule("chain#(\\d) - [Oo]verheated, chip temp=(\\d+)", "Chain {} - Overheated Chip {} C", ErrorType::Temperature, true),
        rule("fan#(\\d) - (?:LOST|lost)", "Lost Fan {}", ErrorType::Fan, true),
        rule("chain#(\\d) - [Ff]ailed to init board temp sensors", "Chain {} - Failed to init board temp sensors", ErrorType::HashBoard, true),
        rule("ERROR: chain#(\\d) - [Ff]ailed to power on the chain", "Chain {} - Failed to power on the chain", ErrorType::HashBoard, true),
        rule("ERROR: chain#(\\d) sen#(\\d) - dead, temperature doesn't change", "Chain {} - Sensor {} dead, temperature doesn't change", ErrorType::HashBoard, true),
        rule("chain#(\\d) - [Ff]ailed to load eeprom data /chain-info.c:73/", "Chain {} - Failed to load eeprom data", ErrorType::HashBoard, true),
    ];
    assert(rule_views(rules@) =~= vnish_rule_views());
    RuleTable { since_marker: Some(String::from_str("INFO: Initializing PSU")), rules }
}


/// The rules of the fault table for the Minera interface log.
pub open spec fn minera_rule_views() -> Seq<(Seq<char>, Seq<char>, ErrorType, bool)> {
    seq![
        ("power up to.+failed read_bak"@, "PSU failed to power up"@, ErrorType::Power, false),
        ("ACK not found"@, "SPI ACK not found"@, ErrorType::HashBoard, false),
        ("low fan speed of fan ([0-9])"@, "Fan {} speed too low"@, ErrorType::Fan, false),
        ("C3012 ([0-9]) failure disabling!"@, "Chain {} failure"@, ErrorType::HashBoard, false),
    ]
}

/// The fault table for the Minera interface log.
pub fn minera_rules() -> (t: RuleTable)
    ensures
        t.since_marker is None,
        t.rules@.len() == 4,
        rule_views(t.rules@) == minera_rule_views(),
        forall|i: int| 0 <= i < t.rules@.len() ==> t.rules@[i].repeat == false,
{
    let rules = vec![
        rule("power up to.+failed read_bak", "PSU failed to power up", ErrorType::Power, false),
        rule("ACK not found", "SPI ACK not found", ErrorType::HashBoard, false),
        rule("low fan speed of fan ([0-9])", "Fan {} speed too low", ErrorType::Fan, false),
        rule("C3012 ([0-9]) failure disabling!", "Chain {} failure", ErrorType::HashBoard, false),
    ];
    assert(rule_views(rules@) =~= minera_rule_views());
    RuleTable { since_marker: None, rules }
}


/// The rules of the fault table for the Minerva interface log.
pub open spec fn minerva_rule_views() -> Seq<(Seq<char>, Seq<char>, ErrorType, bool)> {
    seq![
        (".+Error: fan ([0-9]) failed"@, "Fan {} failed"@, ErrorType::Fan, false),
        (".+booting board ([0-9]).+\\n.+ACK not found"@, "Board {} ACK not found"@, ErrorType::HashBoard, false),
        (".+(voltage not up to standard|\u{7535}\u{6e90}\u{6545}\u{969c}\u{ff0c}\u{7535}\u{538b}\u{4e0d}\u{8fbe}\u{6807})"@, "Voltage not up to standard"@, ErrorType::Power, false),
        (".+Error: init power supply"@, "Unable to init power supply"@, ErrorType::Power, false),
        (".+(?:init chip|\u{542f}\u{52a8}\u{82af}\u{7247}|\u{521d}\u{59cb}\u{5316}\u{82af}\u{7247})([0-9])/([0-9])"@, "Failed to init board {} chip {}"@, ErrorType::HashBoard, false),
        (".+mv64xxx_i2c_fsm: Ctlr Error"@, "I2C controller error"@, ErrorType::ControlBoard, false),
        (".+Stratum connection to pool [0-9] interrupted.+\\n.+flushing server.+\\n.+flush failed"@, "Connection interrupted, failed to flush server"@, ErrorType::Network, false),
        (".+read eeprom failed:I2C(Nix(ENXIO))"@, "Failed to read EEPROM device did not respond"@, ErrorType::HashBoard, false),
        (".+waiting for fan spinning up: rpm: 0"@, "Fan not spinning up or sense fail"@, ErrorType::Fan, false),
        (".+board temp: ([\\d\\.]+) C, sleep for protect"@, "Board temperature {}C failed to cool below 40C"@, ErrorType::Temperature, false),
    ]
}

/// The fault table for the Minerva interface log.
pub fn minerva_rules() -> (t: RuleTable)
    ensures
        t.since_marker is None,
        t.rules@.len() == 10,
        rule_views(t.rules@) == minerva_rule_views(),
        forall|i: int| 0 <= i < t.rules@.len() ==> t.rules@[i].repeat == false,
{
    let rules = vec![
        rule(".+Error: fan ([0-9]) failed", "Fan {} failed", ErrorType::Fan, false),
        rule(".+booting board ([0-9]).+\\n.+ACK not found", "Board {} ACK not found", ErrorType::HashBoard, false),
        rule(".+(voltage not up to standard|\u{7535}\u{6e90}\u{6545}\u{969c}\u{ff0c}\u{7535}\u{538b}\u{4e0d}\u{8fbe}\u{6807})", "Voltage not up to standard", ErrorType::Power, false),
        rule(".+Error: init power supply", "Unable to init power supply", ErrorType::Power, false),
        rule(".+(?:init chip|\u{542f}\u{52a8}\u{82af}\u{7247}|\u{521d}\u{59cb}\u{5316}\u{82af}\u{7247})([0-9])/([0-9])", "Failed to init board {} chip {}", ErrorType::HashBoard, false),
        rule(".+mv64xxx_i2c_fsm: Ctlr Error", "I2C controller error", ErrorType::ControlBoard, false),
        rule(".+Stratum connection to pool [0-9] interrupted.+\\n.+flushing server.+\\n.+flush failed", "Connection interrupted, failed to flush server", ErrorType::Network, false),
        rule(".+read eeprom failed:I2C(Nix(ENXIO))", "Failed to read EEPROM device did not respond", ErrorType::HashBoard, false),
        rule(".+waiting for fan spinning up: rpm: 0", "Fan not spinning up or sense fail", ErrorType::Fan, false),
        rule(".+board temp: ([\\d\\.]+) C, sleep for protect", "Board temperature {}C failed to cool below 40C", ErrorType::Temperature, false),
    ];
    assert(rule_views(rules@) =~= minerva_rule_views());
    RuleTable { since_marker: None, rules }
}


/// The rules of the fault table for Whatsminer error codes, one per line.
pub open spec fn whatsminer_rule_views() -> Seq<(Seq<char>, Seq<char>, ErrorType, bool)> {
    seq![
        ("1[0-3](0|1)"@, "Fan {} speed error"@, ErrorType::Fan, false),
        ("140"@, "Fan speed too high"@, ErrorType::Fan, false),
        ("200"@, "No power found"@, ErrorType::Power, false),
        ("201"@, "Power configuration mismatch"@, ErrorType::Power, false),
        ("202"@, "Power output voltage error"@, ErrorType::Power, false),
        ("20[3,4]"@, "Power protection triggered"@, ErrorType::Power, false),
        ("205"@, "Power current error"@, ErrorType::Power, false),
        ("206"@, "Low input voltage"@, ErrorType::Power, false),
        ("207"@, "Input current protection"@, ErrorType::Power, false),
        ("210"@, "Power error status"@, ErrorType::Power, false),
        ("213"@, "Input voltage and current do not match"@, ErrorType::Power, false),
        ("216"@, "Power remained unchanged"@, ErrorType::Power, false),
        ("217"@, "Power enable error"@, ErrorType::Power, false),
        ("218"@, "Input voltage below 230V in high-perf mode"@, ErrorType::Power, false),
        ("23[3-5]"@, "Power output over-temperature"@, ErrorType::Power, false),
        ("23[6-8]|268"@, "Power output overcurrent"@, ErrorType::Power, false),
        ("239"@, "Power output over voltage"@, ErrorType::Power, false),
        ("240"@, "Power output under voltage"@, ErrorType::Power, false),
        ("241"@, "Power output current imbalance"@, ErrorType::Power, false),
        ("24[3-5]"@, "Power input over-temperature"@, ErrorType::Power, false),
        ("24[6,7]|269"@, "Power input overcurrent"@, ErrorType::Power, false),
        ("24[8,9]|270"@, "Power input over voltage"@, ErrorType::Power, false),
        ("25[0,1]|271"@, "Power input under voltage"@, ErrorType::Power, false),
        ("25[3,4]"@, "PSU fan error"@, ErrorType::Power, false),
        ("25[5,6]"@, "Power output over power"@, ErrorType::Power, false),
        ("257"@, "Input overcurrent protection on primary"@, ErrorType::Power, false),
        ("263"@, "Power communication warning"@, ErrorType::Power, false),
        ("264"@, "Power communication error"@, ErrorType::Power, false),
        ("267"@, "Power watchdog error"@, ErrorType::Power, false),
        ("272"@, "Excessive power output warning"@, ErrorType::Power, false),
        ("273"@, "Power input power too high"@, ErrorType::Power, false),
        ("274"@, "PSU fan warning"@, ErrorType::Power, false),
        ("275"@, "PSU over-temperature warning"@, ErrorType::Power, false),
        ("30([0-2])"@, "Board {} temperature sensor error"@, ErrorType::HashBoard, false),
        ("32([0-2])"@, "Board {} temperature reading error"@, ErrorType::HashBoard, false),
        ("329"@, "Control board temperature sensor error"@, ErrorType::ControlBoard, false),
        ("35([0-2])"@, "Board {} overheating"@, ErrorType::Temperature, false),
        ("360"@, "Board overheating"@, ErrorType::Temperature, false),
        ("41([0-2])"@, "Board {} EEPROM detect error"@, ErrorType::HashBoard, false),
        ("42([0-2])"@, "Board {} EEPROM parse error"@, ErrorType::HashBoard, false),
        ("43([0-2])"@, "Board {} EEPROM chip bin type error"@, ErrorType::HashBoard, false),
        ("44([0-2])"@, "Board {} EEPROM chip number error"@, ErrorType::HashBoard, false),
        ("45([0-2])"@, "Board {} EEPROM transfer error"@, ErrorType::HashBoard, false),
        ("51([0-2])"@, "Board {} type error"@, ErrorType::HashBoard, false),
        ("52([0-2])"@, "Board {} bin type error"@, ErrorType::HashBoard, false),
        ("53([0-2])"@, "Board {} not found"@, ErrorType::HashBoard, false),
        ("54([0-2])"@, "Board {} read chip id error"@, ErrorType::HashBoard, false),
        ("55([0-2])"@, "Board {} bad chip"@, ErrorType::HashBoard, false),
        ("56([0-2])"@, "Board {} loss balance"@, ErrorType::HashBoard, false),
        ("511([0-2])"@, "Board {} frequency up timeout"@, ErrorType::HashBoard, false),
        ("507([0-2])"@, "Board {} water velocity abnormal"@, ErrorType::HashBoard, false),
        ("600"@, "Overheating"@, ErrorType::Temperature, false),
        ("610"@, "Temperature too high in high-perf mode"@, ErrorType::Temperature, false),
        ("701"@, "Control board no support chip"@, ErrorType::ControlBoard, false),
        ("710|712"@, "Control board rebooted as exception"@, ErrorType::ControlBoard, false),
        ("800"@, "Cgminer checksum error"@, ErrorType::ControlBoard, false),
        ("801"@, "System-monitor checksum error"@, ErrorType::ControlBoard, false),
        ("802"@, "Remote-daemon checksum error"@, ErrorType::ControlBoard, false),
        ("2000"@, "No pools configured"@, ErrorType::Config, false),
        ("2010"@, "All pools disabled"@, ErrorType::Config, false),
        ("202[0-2]"@, "Pool {} connect failure"@, ErrorType::Network, false),
        ("2030"@, "High pool reject rate"@, ErrorType::Network, false),
        ("2040"@, "Pool does not support asicboost"@, ErrorType::Config, false),
        ("23[1,2]0"@, "Hashrate too low"@, ErrorType::Other, false),
        ("24[1,2]0"@, "Hashrate loss is too high"@, ErrorType::Other, false),
        ("8410"@, "Incorrect firmware version"@, ErrorType::Config, false),
        ("10000[0-3]"@, "Corrupted firmware signature"@, ErrorType::Config, false),
    ]
}

/// The fault table for Whatsminer error codes, one per line.
pub fn whatsminer_rules() -> (t: RuleTable)
    ensures
        t.since_marker is None,
        t.rules@.len() == 67,
        rule_views(t.rules@) == whatsminer_rule_views(),
        forall|i: int| 0 <= i < t.rules@.len() ==> t.rules@[i].repeat == false,
{
    let rules = vec![
        rule("1[0-3](0|1)", "Fan {} speed error", ErrorType::Fan, false),
        rule("140", "Fan speed too high", ErrorType::Fan, false),
        rule("200", "No power found", ErrorType::Power, false),
        rule("201", "Power configuration mismatch", ErrorType::Power, false),
        rule("202", "Power output voltage error", ErrorType::Power, false),
        rule("20[3,4]", "Power protection triggered", ErrorType::Power, false),
        rule("205", "Power current error", ErrorType::Power, false),
        rule("206", "Low input voltage", ErrorType::Power, false),
        rule("207", "Input current protection", ErrorType::Power, false),
        rule("210", "Power error status", ErrorType::Power, false),
        rule("213", "Input voltage and current do not match", ErrorType::Power, false),
        rule("216", "Power remained unchanged", ErrorType::Power, false),
        rule("217", "Power enable error", ErrorType::Power, false),
        rule("218", "Input voltage below 230V in high-perf mode", ErrorType::Power, false),
        rule("23[3-5]", "Power output over-temperature", ErrorType::Power, false),
        rule("23[6-8]|268", "Power output overcurrent", ErrorType::Power, false),
        rule("239", "Power output over voltage", ErrorType::Power, false),
        rule("240", "Power output under voltage", ErrorType::Power, false),
        rule("241", "Power output current imbalance", ErrorType::Power, false),
        rule("24[3-5]", "Power input over-temperature", ErrorType::Power, false),
        rule("24[6,7]|269", "Power input overcurrent", ErrorType::Power, false),
        rule("24[8,9]|270", "Power input over voltage", ErrorType::Power, false),
        rule("25[0,1]|271", "Power input under voltage", ErrorType::Power, false),
        rule("25[3,4]", "PSU fan error", ErrorType::Power, false),
        rule("25[5,6]", "Power output over power", ErrorType::Power, false),
        rule("257", "Input overcurrent protection on primary", ErrorType::Power, false),
        rule("263", "Power communication warning", ErrorType::Power, false),
        rule("264", "Power communication error", ErrorType::Power, false),
        rule("267", "Power watchdog error", ErrorType::Power, false),
        rule("272", "Excessive power output warning", ErrorType::Power, false),
        rule("273", "Power input power too high", ErrorType::Power, false),
        rule("274", "PSU fan warning", ErrorType::Power, false),
        rule("275", "PSU over-temperature warning", ErrorType::Power, false),
        rule("30([0-2])", "Board {} temperature sensor error", ErrorType::HashBoard, false),
        rule("32([0-2])", "Board {} temperature reading error", ErrorType::HashBoard, false),
        rule("329", "Control board temperature sensor error", ErrorType::ControlBoard, false),
        rule("35([0-2])", "Board {} overheating", ErrorType::Temperature, false),
        rule("360", "Board overheating", ErrorType::Temperature, false),
        rule("41([0-2])", "Board {} EEPROM detect error", ErrorType::HashBoard, false),
        rule("42([0-2])", "Board {} EEPROM parse error", ErrorType::HashBoard, false),
        rule("43([0-2])", "Board {} EEPROM chip bin type error", ErrorType::HashBoard, false),
        rule("44([0-2])", "Board {} EEPROM chip number error", ErrorType::HashBoard, false),
        rule("45([0-2])", "Board {} EEPROM transfer error", ErrorType::HashBoard, false),
        rule("51([0-2])", "Board {} type error", ErrorType::HashBoard, false),
        rule("52([0-2])", "Board {} bin type error", ErrorType::HashBoard, false),
        rule("53([0-2])", "Board {} not found", ErrorType::HashBoard, false),
        rule("54([0-2])", "Board {} read chip id error", ErrorType::HashBoard, false),
        rule("55([0-2])", "Board {} bad chip", ErrorType::HashBoard, false),
        rule("56([0-2])", "Board {} loss balance", ErrorType::HashBoard, false),
        rule("511([0-2])", "Board {} frequency up timeout", ErrorType::HashBoard, false),
        rule("507([0-2])", "Board {} water velocity abnormal", ErrorType::HashBoard, false),
        rule("600", "Overheating", ErrorType::Temperature, false),
        rule("610", "Temperature too high in high-perf mode", ErrorType::Temperature, false),
        rule("701", "Control board no support chip", ErrorType::ControlBoard, false),
        rule("710|712", "Control board rebooted as exception", ErrorType::ControlBoard, false),
        rule("800", "Cgminer checksum error", ErrorType::ControlBoard, false),
        rule("801", "System-monitor checksum error", ErrorType::ControlBoard, false),
        rule("802", "Remote-daemon checksum error", ErrorType::ControlBoard, false),
        rule("2000", "No pools configured", ErrorType::Config, false),
        rule("2010", "All pools disabled", ErrorType::Config, false),
        rule("202[0-2]", "Pool {} connect failure", ErrorType::Network, false),
        rule("2030", "High pool reject rate", ErrorType::Network, false),
        rule("2040", "Pool does not support asicboost", ErrorType::Config, false),
        rule("23[1,2]0", "Hashrate too low", ErrorType::Other, false),
        rule("24[1,2]0", "Hashrate loss is too high", ErrorType::Other, false),
        rule("8410", "Incorrect firmware version", ErrorType::Config, false),
        rule("10000[0-3]", "Corrupted firmware signature", ErrorType::Config, false),
    ];
    assert(rule_views(rules@) =~= whatsminer_rule_views());
    RuleTable { since_marker: None, rules }
}


} // verus!
