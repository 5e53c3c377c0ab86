use libminer::classify::{classify, ErrorRule, RuleTable};
use libminer::miner::board_shortfall;
use libminer::rules::{antminer_rules, vnish_rules, whatsminer_rules};
use libminer::text::{contains_text, render_template, replace_all, sanitize_whatsminer, strip_nul, bracket_list_to_object};
use libminer::{ErrorType, MinerError};

fn chain_break_table() -> RuleTable {
    RuleTable {
        since_marker: Some("BOOT_MARKER".to_string()),
        rules: vec![ErrorRule {
            pattern: r"chain#(\d) - Chain break detected".to_string(),
            template: "Chain {} - Chain break detected".to_string(),
            category: ErrorType::HashBoard,
            repeat: true,
        }],
    }
}

#[test]
fn window_keeps_text_after_marker() {
    let log = "noise\nBOOT_MARKER\nchain#2 - Chain break detected\n";
    let r = classify(log, &chain_break_table());
    assert_eq!(r.len(), 1);
    assert_eq!(r[0].msg, "Chain 2 - Chain break detected");
    assert_eq!(r[0].error_type, ErrorType::HashBoard);
}

#[test]
fn window_drops_matches_before_marker() {
    let log = "chain#5 - Chain break detected\nBOOT_MARKER\nchain#2 - Chain break detected\n";
    let r = classify(log, &chain_break_table());
    assert_eq!(r, vec![MinerError { msg: "Chain 2 - Chain break detected".to_string(), error_type: ErrorType::HashBoard }]);
}

#[test]
fn last_marker_wins() {
    let log = "BOOT_MARKER\nchain#1 - Chain break detected\nBOOT_MARKER\nchain#3 - Chain break detected\n";
    let r = classify(log, &chain_break_table());
    assert_eq!(r.len(), 1);
    assert_eq!(r[0].msg, "Chain 3 - Chain break detected");
}

#[test]
fn repeated_line_collapses() {
    let log = "BOOT_MARKER\nchain#2 - Chain break detected\nchain#2 - Chain break detected\n";
    let r = classify(log, &chain_break_table());
    assert_eq!(r.len(), 1);
}

#[test]
fn repeating_rule_reports_each_chain() {
    let log = "BOOT_MARKER\nchain#1 - Chain break detected\nchain#2 - Chain break detected\n";
    let r = classify(log, &chain_break_table());
    assert_eq!(r.len(), 2);
    assert_eq!(r[0].msg, "Chain 1 - Chain break detected");
    assert_eq!(r[1].msg, "Chain 2 - Chain break detected");
}

#[test]
fn first_match_rule_reports_once() {
    let mut t = chain_break_table();
    t.rules[0].repeat = false;
    let log = "BOOT_MARKER\nchain#1 - Chain break detected\nchain#2 - Chain break detected\n";
    let r = classify(log, &t);
    assert_eq!(r.len(), 1);
    assert_eq!(r[0].msg, "Chain 1 - Chain break detected");
}

#[test]
fn no_marker_uses_whole_text() {
    let t = RuleTable { since_marker: Some("MISSING".to_string()), rules: chain_break_table().rules };
    let r = classify("chain#4 - Chain break detected", &t);
    assert_eq!(r.len(), 1);
    assert_eq!(r[0].msg, "Chain 4 - Chain break detected");
}

#[test]
fn empty_log_has_no_faults() {
    assert!(classify("", &chain_break_table()).is_empty());
    assert!(classify("", &vnish_rules()).is_empty());
}

#[test]
fn vnish_table_reads_chip_counts() {
    let log = "old\nINFO: Initializing PSU\nchain#0 - 60 of 76 chips detected, attempt 3\nfan#2 - LOST\n";
    let r = classify(log, &vnish_rules());
    assert!(r.contains(&MinerError { msg: "Chain 0 - 60 of 76 chips detected".to_string(), error_type: ErrorType::HashBoard }));
    assert!(r.contains(&MinerError { msg: "Lost Fan 2".to_string(), error_type: ErrorType::Fan }));
    assert_eq!(r.len(), 2);
}

#[test]
fn antminer_table_scoped_to_last_start() {
    let log = "x ERROR_FAN_LOST\n=capability start=\ny ERROR_TEMP_TOO_HIGH\n";
    let r = classify(log, &antminer_rules());
    assert_eq!(r, vec![MinerError { msg: "Temperature too high".to_string(), error_type: ErrorType::Temperature }]);
}

#[test]
fn whatsminer_codes() {
    let r = classify("110\n200", &whatsminer_rules());
    assert!(r.contains(&MinerError { msg: "Fan 0 speed error".to_string(), error_type: ErrorType::Fan }));
    assert!(r.contains(&MinerError { msg: "No power found".to_string(), error_type: ErrorType::Power }));
}

#[test]
fn rule_tables_have_their_sizes() {
    assert_eq!(antminer_rules().rules.len(), 11);
    assert_eq!(vnish_rules().rules.len(), 11);
    assert_eq!(whatsminer_rules().rules.len(), 67);
}

#[test]
fn template_fills_in_order() {
    let groups = vec![Some("1".to_string()), None, Some("77".to_string())];
    assert_eq!(render_template("Chain {} only find {} asic", &groups), "Chain 1 only find 77 asic");
    assert_eq!(render_template("no holes", &groups), "no holes");
    assert_eq!(render_template("{} {} {}", &vec![Some("a".to_string())]), "a {} {}");
}

#[test]
fn text_helpers() {
    assert!(contains_text("a whatsminer b", "whatsminer"));
    assert!(!contains_text("whats", "whatsminer"));
    assert!(contains_text("abc", ""));
    assert_eq!(replace_all("a,b,,c", ",", ";"), "a;b;;c");
    assert_eq!(strip_nul("ab\0\0"), "ab");
    assert_eq!(sanitize_whatsminer("{\"t\":inf,\"u\":nan,}"), "{\"t\":\"inf\",\"u\":\"nan\"}");
    assert_eq!(bracket_list_to_object("{\"e\":[\"1\":\"x\"]}"), "{\"e\":{\"1\":\"x\"}}");
}

#[test]
fn shortfall_of_boards() {
    assert_eq!(
        board_shortfall(2, 3),
        Some(MinerError { msg: "Missing Board(s)".to_string(), error_type: ErrorType::HashBoard })
    );
    assert_eq!(board_shortfall(3, 3), None);
}

#[test]
fn single_rule_first_match() {
    let rule = ErrorRule {
        pattern: r".+Chain ([0-9]) only find ([0-9]+) asic".to_string(),
        template: "Chain {} only find {} asic".to_string(),
        category: ErrorType::HashBoard,
        repeat: false,
    };
    let line = "[x] Chain 2 only find 60 asic\n[y] Chain 3 only find 1 asic";
    assert_eq!(rule.get_msg(line), Some("Chain 2 only find 60 asic".to_string()));
    assert_eq!(
        rule.get_err(line),
        Some(MinerError { msg: "Chain 2 only find 60 asic".to_string(), error_type: ErrorType::HashBoard })
    );
    assert_eq!(rule.get_msg("nothing"), None);
    assert_eq!(rule.get_err("nothing"), None);
}

#[test]
fn invalid_pattern_matches_nothing() {
    let rule = ErrorRule { pattern: "(".to_string(), template: "x".to_string(), category: ErrorType::Other, repeat: true };
    assert_eq!(rule.get_msg("("), None);
    let table = RuleTable { since_marker: None, rules: vec![rule] };
    assert!(classify("(((", &table).is_empty());
}

#[test]
fn replace_with_empty_pattern() {
    assert_eq!(replace_all("abc", "", "X"), "XaXbXcX");
    assert_eq!(replace_all("", "", "X"), "X");
    assert_eq!(replace_all("", "a", "X"), "");
}

#[test]
fn window_discards_text_before_marker() {
    let table = RuleTable {
        since_marker: Some("BOOT_MARKER".to_string()),
        rules: vec![ErrorRule {
            pattern: "^BOOT_MARKER".to_string(),
            template: "restarted".to_string(),
            category: ErrorType::Other,
            repeat: false,
        }],
    };
    let r = classify("noise\nBOOT_MARKER\n", &table);
    assert_eq!(r, vec![MinerError { msg: "restarted".to_string(), error_type: ErrorType::Other }]);
}

#[test]
fn vnish_chain_break_after_boot() {
    let log = ["noise", "INFO: Initializing PSU", "chain#2 - Chain break detected"].join("\n");
    let r = classify(&log, &vnish_rules());
    assert_eq!(r, vec![MinerError { msg: "Chain 2 - Chain break detected".to_string(), error_type: ErrorType::HashBoard }]);
}

#[test]
fn vnish_ignores_chain_break_before_boot() {
    let log = ["chain#1 - Chain break detected", "INFO: Initializing PSU", "chain#2 - Chain break detected"].join("\n");
    let r = classify(&log, &vnish_rules());
    assert_eq!(r, vec![MinerError { msg: "Chain 2 - Chain break detected".to_string(), error_type: ErrorType::HashBoard }]);
}

#[test]
fn vnish_repeated_chain_break_collapses() {
    let log = ["INFO: Initializing PSU", "chain#2 - Chain break detected", "chain#2 - Chain break detected"].join("\n");
    let r = classify(&log, &vnish_rules());
    assert_eq!(r.len(), 1);
    assert_eq!(r[0], MinerError { msg: "Chain 2 - Chain break detected".to_string(), error_type: ErrorType::HashBoard });
}
