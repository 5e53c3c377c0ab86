use vstd::prelude::*;
use vstd::string::*;
use vstd::utf8::is_char_boundary;

use crate::miner::{ErrorType, MinerError};
use crate::text::{fill_template, find_at, present_groups, regex_captures_at, render_template};

verus! {

/// One entry of a vendor's fault table.
#[derive(Debug, Clone)]
pub struct ErrorRule {
    /// A regular expression whose capture groups feed the template.
    pub pattern: String,
    /// The message, with one `{}` per capture group.
    pub template: String,
    pub category: ErrorType,
    /// Whether every occurrence is reported (each may carry different
    /// captures) or only the first one.
    pub repeat: bool,
}

/// An ordered fault table, optionally scoped to the text after the last
/// start marker.
#[derive(Debug, Clone)]
pub struct RuleTable {
    pub since_marker: Option<String>,
    pub rules: Vec<ErrorRule>,
}

/// The fault that a rule yields for one match with capture groups `groups`.
pub open spec fn rule_fault(rule: ErrorRule, groups: Seq<Option<Seq<char>>>) -> (
    Seq<char>,
    ErrorType,
) {
    (fill_template(rule.template@, present_groups(groups)), rule.category)
}

/// The faults that `rule` finds in the text encoded by `text`, searching
/// from byte offset `from`: the first match, and for a repeating rule every
/// later match after the end of the previous one, until no match is left
/// (or a match is empty).
pub open spec fn rule_faults_from(rule: ErrorRule, text: Seq<u8>, from: int) -> Set<
    (Seq<char>, ErrorType),
>
    decreases text.len() - from,
{
    match regex_captures_at(rule.pattern@, text, from) {
        None => Set::empty(),
        Some(m) => {
            let found = set![rule_fault(rule, m.2)];
            if rule.repeat && from < m.1 && m.1 <= text.len() {
                found + rule_faults_from(rule, text, m.1)
            } else {
                found
            }
        },
    }
}

/// Start (byte offset) of the last match of `marker` in the text encoded by
/// `text` at or after `from`, or `found` when there is none.
pub open spec fn last_marker_from(marker: Seq<char>, text: Seq<u8>, from: int, found: int) -> int
    decreases text.len() - from,
{
    match regex_captures_at(marker, text, from) {
        None => found,
        Some(m) => if from < m.1 && m.1 <= text.len() {
            last_marker_from(marker, text, m.1, m.0)
        } else {
            m.0
        },
    }
}

/// Where classification starts, as a byte offset into the encoded text: at
/// the last start marker for a scoped table (the beginning when there is
/// none), at the beginning otherwise.
pub open spec fn window_start(table: RuleTable, text: Seq<u8>) -> int {
    match table.since_marker {
        None => 0,
        Some(m) => last_marker_from(m@, text, 0, 0),
    }
}

/// The text that `table` classifies: everything before the window start is
/// discarded.
pub open spec fn window(table: RuleTable, text: Seq<u8>) -> Seq<u8> {
    text.subrange(window_start(table, text), text.len() as int)
}

/// The faults of the first `n` rules of `rules` in the encoded text `text`.
pub open spec fn rules_faults(rules: Seq<ErrorRule>, n: int, text: Seq<u8>) -> Set<(Seq<char>, ErrorType)>
    decreases n,
{
    if n <= 0 {
        Set::empty()
    } else {
        rules_faults(rules, n - 1, text) + rule_faults_from(rules[n - 1], text, 0)
    }
}

/// Every fault that `table` finds in the text encoded by `text`.
pub open spec fn classified(table: RuleTable, text: Seq<u8>) -> Set<(Seq<char>, ErrorType)> {
    rules_faults(table.rules@, table.rules@.len() as int, window(table, text))
}

/// The faults held by a list, as a set.
pub open spec fn fault_set(v: Seq<MinerError>) -> Set<(Seq<char>, ErrorType)> {
    v.map_values(|e: MinerError| e@).to_set()
}

/// No fault appears twice in the list.
pub open spec fn distinct_faults(v: Seq<MinerError>) -> bool {
    v.map_values(|e: MinerError| e@).no_duplicates()
}

/// The message that `rule` renders for the first match in `text`, if any.
pub open spec fn first_message(rule: ErrorRule, text: Seq<u8>) -> Option<Seq<char>> {
    match regex_captures_at(rule.pattern@, text, 0) {
        None => None,
        Some(m) => Some(rule_fault(rule, m.2).0),
    }
}

impl ErrorRule {
    /// Renders the message of the first match of the rule in `line`.
    pub fn get_msg(&self, line: &str) -> (r: Option<String>)
        ensures
            match r {
                Some(s) => first_message(*self, line.spec_bytes()) == Some(s@),
                None => first_message(*self, line.spec_bytes()) is None,
            },
    {
        match find_at(self.pattern.as_str(), line, 0) {
            None => None,
            Some(m) => Some(render_template(self.template.as_str(), &m.groups)),
        }
    }

    /// The fault of the first match of the rule in `line`, if any.
    pub fn get_err(&self, line: &str) -> (r: Option<MinerError>)
        ensures
            match r {
                Some(f) => first_message(*self, line.spec_bytes()) == Some(f.msg@) && f.error_type == self.category,
                None => first_message(*self, line.spec_bytes()) is None,
            },
    {
        match self.get_msg(line) {
            None => None,
            Some(msg) => Some(MinerError { msg, error_type: self.category }),
        }
    }
}

/// Adds `f` to `out` unless an equal fault is already there.
pub fn insert_fault(out: &mut Vec<MinerError>, f: MinerError)
    requires
        distinct_faults(old(out)@),
    ensures
        distinct_faults(final(out)@),
        fault_set(final(out)@) == fault_set(old(out)@).insert(f@),
{
    let ghost old_v = out@.map_values(|e: MinerError| e@);
    let mut i: usize = 0;
    while i < out.len()
        invariant
            i <= out@.len(),
            out@ == old(out)@,
            distinct_faults(old(out)@),
            out@.map_values(|e: MinerError| e@) == old_v,
            forall|k: int| 0 <= k < i ==> out@[k]@ != f@,
        decreases out@.len() - i,
    {
        if out[i] == f {
            assert(old_v[i as int] == f@);
            assert(fault_set(out@) =~= fault_set(out@).insert(f@));
            return;
        }
        i = i + 1;
    }
    out.push(f);
    let ghost new_v = out@.map_values(|e: MinerError| e@);
    assert(new_v =~= old_v.push(f@));
    assert forall|k: int| 0 <= k < old_v.len() implies old_v[k] != f@ by {
        assert(old_v[k] == out@[k]@);
    }
    assert(fault_set(out@) =~= old_v.to_set().insert(f@)) by {
        assert forall|x| new_v.to_set().contains(x) <==> old_v.to_set().insert(f@).contains(x) by {
            if new_v.to_set().contains(x) {
                let k = choose|k: int| 0 <= k < new_v.len() && new_v[k] == x;
                if k < old_v.len() {
                    assert(old_v[k] == x);
                }
            }
            if old_v.to_set().contains(x) {
                let k = choose|k: int| 0 <= k < old_v.len() && old_v[k] == x;
                assert(new_v[k] == x);
            }
            if x == f@ {
                assert(new_v[old_v.len() as int] == x);
            }
        }
    }
}

fn collect_rule(rule: &ErrorRule, log: &str, out: &mut Vec<MinerError>)
    requires
        distinct_faults(old(out)@),
    ensures
        distinct_faults(final(out)@),
        fault_set(final(out)@) == fault_set(old(out)@) + rule_faults_from(*rule, log.spec_bytes(), 0),
{
    let ghost text = log.spec_bytes();
    let ghost goal = fault_set(out@) + rule_faults_from(*rule, text, 0);
    let mut pos: usize = 0;
    loop
        invariant
            text == log.spec_bytes(),
            pos <= text.len(),
            distinct_faults(out@),
            goal == fault_set(old(out)@) + rule_faults_from(*rule, text, 0),
            goal == fault_set(out@) + rule_faults_from(*rule, text, pos as int),
        decreases text.len() - pos,
    {
        match find_at(rule.pattern.as_str(), log, pos) {
            None => {
                assert(fault_set(out@) + Set::empty() =~= fault_set(out@));
                return;
            },
            Some(m) => {
                let msg = render_template(rule.template.as_str(), &m.groups);
                let f = MinerError { msg, error_type: rule.category };
                assert(f@ == rule_fault(*rule, m.groups.deep_view()));
                insert_fault(out, f);
                if rule.repeat && m.end > pos {
                    assert(goal =~= fault_set(out@) + rule_faults_from(*rule, text, m.end as int));
                    pos = m.end;
                } else {
                    assert(goal =~= fault_set(out@));
                    assert(fault_set(out@) + Set::empty() =~= fault_set(out@));
                    return;
                }
            },
        }
    }
}

/// Byte offset where classification under `table` starts in `log`.
pub fn find_window_start(table: &RuleTable, log: &str) -> (r: usize)
    ensures
        r == window_start(*table, log.spec_bytes()),
        r <= log.spec_bytes().len(),
        r == 0 || is_char_boundary(log.spec_bytes(), r as int),
{
    match &table.since_marker {
        None => 0,
        Some(marker) => {
            let ghost text = log.spec_bytes();
            let mut pos: usize = 0;
            let mut found: usize = 0;
            loop
                invariant
                    text == log.spec_bytes(),
                    pos <= text.len(),
                    found <= text.len(),
                    found == 0 || is_char_boundary(text, found as int),
                    table.since_marker == Some(*marker),
                    window_start(*table, text) == last_marker_from(marker@, text, pos as int, found as int),
                decreases text.len() - pos,
            {
                match find_at(marker.as_str(), log, pos) {
                    None => {
                        return found;
                    },
                    Some(m) => {
                        if m.end > pos {
                            found = m.start;
                            pos = m.end;
                        } else {
                            return m.start;
                        }
                    },
                }
            }
        },
    }
}

/// Turns free-text device logs into the set of faults that `table` finds:
/// for a scoped table the text before the last start marker is discarded,
/// each rule's matches in what remains are rendered into its template, and
/// equal faults collapse into one entry.
pub fn classify(log: &str, table: &RuleTable) -> (r: Vec<MinerError>)
    ensures
        fault_set(r@) == classified(*table, log.spec_bytes()),
        distinct_faults(r@),
{
    let ghost text = log.spec_bytes();
    let start = find_window_start(table, log);
    let scoped: &str = if start == 0 {
        assert(text.subrange(0, text.len() as int) =~= text);
        log
    } else {
        let (_, rest) = log.split_at(start);
        rest
    };
    assert(scoped.spec_bytes() =~= window(*table, text));
    let mut out: Vec<MinerError> = Vec::new();
    let mut i: usize = 0;
    assert(fault_set(out@) =~= Set::empty());
    while i < table.rules.len()
        invariant
            scoped.spec_bytes() == window(*table, text),
            i <= table.rules@.len(),
            distinct_faults(out@),
            fault_set(out@) == rules_faults(table.rules@, i as int, scoped.spec_bytes()),
        decreases table.rules@.len() - i,
    {
        collect_rule(&table.rules[i], scoped, &mut out);
        i = i + 1;
    }
    out
}

} // verus!
