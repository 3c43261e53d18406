//! Checks of the autoswitch engine's decisions on concrete scenarios.

use wootctl::autoswitch::{
    decide_switch, evaluate_rules, rule_matches, AutoswitchState, ProcessInfo, ProfileCommand,
    Rule,
};

fn process(name: &str, exe: &str, cmd: &[&str]) -> ProcessInfo {
    ProcessInfo {
        name: name.to_string(),
        exe: exe.to_string(),
        cmd: cmd.iter().map(|s| s.to_string()).collect(),
    }
}

fn rule_for_name(name: &str, profile: Option<u8>) -> Rule {
    Rule { profile, name: Some(name.to_string()), exe: None, cmd: None }
}

#[test]
fn unchanged_window_is_skipped_without_process_query() {
    let mut state = AutoswitchState { previous_window_id: "A".to_string() };
    let r = state.observe_window(&"A".to_string(), 42);
    assert_eq!(r, None);
    assert_eq!(state.previous_window_id, "A");
}

#[test]
fn changed_window_is_recorded_and_evaluated() {
    let mut state = AutoswitchState { previous_window_id: "A".to_string() };
    let r = state.observe_window(&"B".to_string(), 42);
    assert_eq!(r, Some(42));
    assert_eq!(state.previous_window_id, "B");
}

#[test]
fn first_observed_window_is_evaluated() {
    let mut state = AutoswitchState::new();
    assert_eq!(state.previous_window_id, "");
    let r = state.observe_window(&"A".to_string(), 7);
    assert_eq!(r, Some(7));
    assert_eq!(state.previous_window_id, "A");
}

#[test]
fn matching_rule_switches_once_in_activate_then_reload_order() {
    let rules = vec![rule_for_name("game.exe", Some(2))];
    let p = process("game.exe", "/usr/bin/game.exe", &["game.exe"]);
    let wanted = evaluate_rules(&rules, &p);
    assert_eq!(wanted, Some(Some(2)));
    let plan = decide_switch(2, 1);
    assert_eq!(plan, vec![ProfileCommand::Activate(2), ProfileCommand::Reload]);
}

#[test]
fn no_redundant_switch_when_profile_already_current() {
    let rules = vec![rule_for_name("game.exe", Some(2))];
    let p = process("game.exe", "/usr/bin/game.exe", &["game.exe"]);
    assert_eq!(evaluate_rules(&rules, &p), Some(Some(2)));
    let plan = decide_switch(2, 2);
    assert_eq!(plan, Vec::new());
}

#[test]
fn scanning_stops_at_the_first_match() {
    let rules = vec![rule_for_name("game.exe", Some(2)), rule_for_name("game.exe", Some(3))];
    let p = process("game.exe", "", &[]);
    assert_eq!(evaluate_rules(&rules, &p), Some(Some(2)));
}

#[test]
fn first_matching_rule_without_profile_still_stops_the_scan() {
    let rules = vec![rule_for_name("game.exe", None), rule_for_name("game.exe", Some(1))];
    let p = process("game.exe", "", &[]);
    assert_eq!(evaluate_rules(&rules, &p), Some(None));
}

#[test]
fn non_matching_rules_are_passed_over() {
    let rules = vec![rule_for_name("editor", Some(1)), rule_for_name("game.exe", Some(3))];
    let p = process("game.exe", "", &[]);
    assert_eq!(evaluate_rules(&rules, &p), Some(Some(3)));
}

#[test]
fn empty_rule_list_matches_nothing() {
    let p = process("game.exe", "", &[]);
    assert_eq!(evaluate_rules(&Vec::new(), &p), None);
}

#[test]
fn all_present_matchers_must_agree() {
    let p = process("game.exe", "/usr/bin/game.exe", &["game.exe", "--fullscreen"]);

    let name_only = rule_for_name("game.exe", Some(1));
    assert!(rule_matches(&name_only, &p));

    let name_and_wrong_exe = Rule {
        profile: Some(1),
        name: Some("game.exe".to_string()),
        exe: Some("/opt/other".to_string()),
        cmd: None,
    };
    assert!(!rule_matches(&name_and_wrong_exe, &p));

    let all_agreeing = Rule {
        profile: Some(1),
        name: Some("game.exe".to_string()),
        exe: Some("/usr/bin/game.exe".to_string()),
        cmd: Some(vec!["game.exe".to_string(), "--fullscreen".to_string()]),
    };
    assert!(rule_matches(&all_agreeing, &p));
}

#[test]
fn rule_without_matchers_matches_every_process() {
    let catch_all = Rule { profile: Some(0), name: None, exe: None, cmd: None };
    assert!(rule_matches(&catch_all, &process("anything", "/x", &["a"])));
    assert!(rule_matches(&catch_all, &process("", "", &[])));
}

#[test]
fn argument_vector_matcher_compares_order_and_length() {
    let p = process("game.exe", "", &["game.exe", "--fullscreen"]);

    let same = Rule {
        profile: None,
        name: None,
        exe: None,
        cmd: Some(vec!["game.exe".to_string(), "--fullscreen".to_string()]),
    };
    assert!(rule_matches(&same, &p));

    let reordered = Rule {
        profile: None,
        name: None,
        exe: None,
        cmd: Some(vec!["--fullscreen".to_string(), "game.exe".to_string()]),
    };
    assert!(!rule_matches(&reordered, &p));

    let shorter = Rule {
        profile: None,
        name: None,
        exe: None,
        cmd: Some(vec!["game.exe".to_string()]),
    };
    assert!(!rule_matches(&shorter, &p));
}

#[test]
fn switch_plan_carries_the_wanted_profile() {
    assert_eq!(decide_switch(0, 3), vec![ProfileCommand::Activate(0), ProfileCommand::Reload]);
    assert_eq!(decide_switch(3, 0), vec![ProfileCommand::Activate(3), ProfileCommand::Reload]);
    assert_eq!(decide_switch(0, 0), Vec::new());
}
