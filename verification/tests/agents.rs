use ds4cc::opencode_detect::{parse_opencode_binding, ActionBinding};
use ds4cc::keys::VKey;
use ds4cc::state::{
    aggregate_states, classify_scan, ActiveAgent, AgentState, Aggregator, AggregatorConfig,
    ScanFile,
};

#[test]
fn parse_states() {
    assert_eq!(AgentState::parse("idle"), Some(AgentState::Idle));
    assert_eq!(AgentState::parse("WORKING"), Some(AgentState::Working));
    assert_eq!(AgentState::parse("  done\n"), Some(AgentState::Done));
    assert_eq!(AgentState::parse("Error"), Some(AgentState::Error));
    assert_eq!(AgentState::parse("unknown"), None);
    assert_eq!(AgentState::parse(""), None);
}

#[test]
fn priority_order() {
    assert!(AgentState::Working.priority() > AgentState::Error.priority());
    assert!(AgentState::Error.priority() > AgentState::Done.priority());
    assert!(AgentState::Done.priority() > AgentState::Idle.priority());
}

#[test]
fn aggregate_priority() {
    assert_eq!(aggregate_states(&vec![AgentState::Working, AgentState::Idle]), AgentState::Working);
    assert_eq!(aggregate_states(&vec![AgentState::Done, AgentState::Error]), AgentState::Error);
    assert_eq!(aggregate_states(&vec![]), AgentState::Idle);
}

fn file(name: &str, contents: &str, age_s: u64) -> ScanFile {
    ScanFile {
        name: name.as_bytes().to_vec(),
        contents: Some(contents.as_bytes().to_vec()),
        age_s,
    }
}

fn cfg() -> AggregatorConfig {
    AggregatorConfig {
        idle_timeout_s: 30,
        idle_reminder_s: 480,
        done_threshold_ms: 600_000,
        subagent_filter_s: 60,
    }
}

#[test]
fn scan_classifies_and_evicts() {
    // A fresh working file stays; a stale working file and an idle file are
    // deleted; companions and garbage are skipped.
    let files = vec![
        file("ds4cc_agent_a", "working", 0),
        file("ds4cc_agent_b", "working", 700), // stale at 600 s
        file("ds4cc_agent_c", "idle", 0),
        file("ds4cc_agent_a_start", "12345", 0),
        file("unrelated.txt", "working", 0),
        file("ds4cc_agent_d", "garbage", 0),
    ];
    let outcome = classify_scan(&files, 600);
    assert_eq!(outcome.agents.len(), 1);
    assert_eq!(outcome.agents[0].id, b"a".to_vec());
    assert_eq!(outcome.agents[0].state, AgentState::Working);
    assert_eq!(outcome.deletions.len(), 2);
    assert_eq!(outcome.deletions[0], b"ds4cc_agent_b".to_vec());
    assert_eq!(outcome.deletions[1], b"ds4cc_agent_c".to_vec());
}

fn agent(id: &str, state: AgentState) -> ActiveAgent {
    ActiveAgent { id: id.as_bytes().to_vec(), state }
}

#[test]
fn single_session_completes() {
    // Working is published at the first scan; done is published on the
    // flip without a rumble (short task); auto-idle follows after the
    // timeout with the done files swept.
    let mut agg = Aggregator::new(cfg(), 0);
    let r = agg.tick(0, &vec![agent("a", AgentState::Working)]);
    assert_eq!(r.publish, Some(AgentState::Working));
    assert_eq!(r.done_rumbles, 0);
    let r = agg.tick(12_000, &vec![agent("a", AgentState::Done)]);
    assert_eq!(r.publish, Some(AgentState::Done));
    assert_eq!(r.done_rumbles, 0, "12 s of work is under the 10 min threshold");
    assert!(!r.clean_done_files);
    let r = agg.tick(12_000 + 30_000, &vec![agent("a", AgentState::Done)]);
    assert_eq!(r.publish, Some(AgentState::Idle));
    assert!(r.clean_done_files, "auto-idle sweeps done files");
}

#[test]
fn long_task_fires_done_rumble() {
    let mut agg = Aggregator::new(cfg(), 0);
    agg.tick(0, &vec![agent("a", AgentState::Working)]);
    let r = agg.tick(660_000, &vec![agent("a", AgentState::Done)]);
    assert_eq!(r.publish, Some(AgentState::Done));
    assert_eq!(r.done_rumbles, 1, "11 min of work earns the rumble");
}

#[test]
fn stale_working_eviction() {
    // A working file 11 minutes old with a 600 s staleness cut-off is
    // deleted by the scan; with no other agent the aggregate is Idle, so
    // nothing is published (Idle was already the published state).
    let files = vec![file("ds4cc_agent_b", "working", 660)];
    let outcome = classify_scan(&files, 600);
    assert!(outcome.agents.is_empty());
    assert_eq!(outcome.deletions, vec![b"ds4cc_agent_b".to_vec()]);
    let mut agg = Aggregator::new(cfg(), 0);
    let r = agg.tick(0, &outcome.agents);
    assert_eq!(r.publish, None);
}

#[test]
fn priority_blending() {
    let mut agg = Aggregator::new(cfg(), 0);
    let r = agg.tick(
        0,
        &vec![
            agent("a", AgentState::Working),
            agent("b", AgentState::Error),
            agent("c", AgentState::Done),
        ],
    );
    assert_eq!(r.publish, Some(AgentState::Working));
    // B turns idle (file deleted, agent disappears); A turns done.
    let r = agg.tick(1000, &vec![agent("a", AgentState::Done), agent("c", AgentState::Done)]);
    assert_eq!(r.publish, Some(AgentState::Done));
}

#[test]
fn subagent_filter_suppresses_reminder() {
    // An agent that worked 10 s and disappears is a subagent: it never
    // produces an idle reminder, even long past the reminder threshold.
    let mut agg = Aggregator::new(cfg(), 0);
    agg.tick(0, &vec![agent("sub", AgentState::Working)]);
    let r = agg.tick(10_000, &vec![]);
    assert!(!r.idle_reminder);
    let r = agg.tick(10_000 + 481_000, &vec![]);
    assert!(!r.idle_reminder, "filtered subagent must never remind");
}

#[test]
fn idle_reminder_fires_once_for_long_worker() {
    // An agent that worked past the subagent filter and then disappears
    // reminds once after the idle threshold, and only once.
    let mut agg = Aggregator::new(cfg(), 0);
    agg.tick(0, &vec![agent("a", AgentState::Working)]);
    agg.tick(120_000, &vec![agent("a", AgentState::Working)]);
    let r = agg.tick(130_000, &vec![]);
    assert!(!r.idle_reminder, "idle threshold not reached yet");
    let r = agg.tick(130_000 + 480_000, &vec![]);
    assert!(r.idle_reminder, "reminder after the idle threshold");
    let r = agg.tick(130_000 + 480_000 + 60_000, &vec![]);
    assert!(!r.idle_reminder, "the record is pruned after its reminder");
}

#[test]
fn parse_direct_combo() {
    let b = parse_opencode_binding("ctrl+s").unwrap();
    match b {
        ActionBinding::Combo(keys) => assert_eq!(keys, vec![VKey::Control, VKey::S]),
        _ => panic!("Expected Combo"),
    }
}

#[test]
fn parse_leader_key() {
    let b = parse_opencode_binding("<leader>n").unwrap();
    match b {
        ActionBinding::LeaderKey(keys) => assert_eq!(keys, vec![VKey::N]),
        _ => panic!("Expected LeaderKey"),
    }
}

#[test]
fn parse_multi_modifier() {
    let b = parse_opencode_binding("ctrl+shift+[").unwrap();
    match b {
        ActionBinding::Combo(keys) => {
            assert_eq!(keys, vec![VKey::Control, VKey::Shift, VKey::LeftBracket])
        }
        _ => panic!("Expected Combo"),
    }
}

#[test]
fn parse_f_key() {
    let b = parse_opencode_binding("f1").unwrap();
    match b {
        ActionBinding::Combo(keys) => assert_eq!(keys, vec![VKey::F1]),
        _ => panic!("Expected Combo"),
    }
}

#[test]
fn parse_comma_separated_takes_first() {
    let b = parse_opencode_binding("ctrl+[,<leader>p").unwrap();
    match b {
        ActionBinding::Combo(keys) => {
            assert_eq!(keys, vec![VKey::Control, VKey::LeftBracket])
        }
        _ => panic!("Expected Combo (first valid alternative)"),
    }
}

#[test]
fn agent_id_extraction() {
    assert_eq!(
        ds4cc::state::agent_id_of_name(b"ds4cc_agent_xyz"),
        Some(b"xyz".to_vec())
    );
    assert_eq!(ds4cc::state::agent_id_of_name(b"ds4cc_agent_xyz_start"), None);
    assert_eq!(ds4cc::state::agent_id_of_name(b"other_file"), None);
}

#[test]
fn profile_colors() {
    assert_eq!(ds4cc::tray::profile_color(ds4cc::mapper::Profile::Default), (255, 255, 255));
    assert_eq!(ds4cc::tray::profile_color(ds4cc::mapper::Profile::Tmux), (57, 255, 20));
}

#[test]
fn compute_done_state_threshold() {
    assert_eq!(
        ds4cc::codex::compute_done_state(Some(0), 660_000, 600_000),
        AgentState::Done
    );
    assert_eq!(
        ds4cc::codex::compute_done_state(Some(0), 12_000, 600_000),
        AgentState::Idle
    );
    assert_eq!(ds4cc::codex::compute_done_state(None, 0, 600_000), AgentState::Idle);
}
