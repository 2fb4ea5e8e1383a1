use ds4cc::config::OpenCodeConfig;
use ds4cc::input::{DPad, TouchPoint, UnifiedInput};
use ds4cc::keys::{binding_lookup, insert_binding, parse_key_combo, BindingEntry, VKey};
use ds4cc::mapper::{Action, MapperState, OpenCodeState, Profile};
use ds4cc::opencode_detect::{ActionBinding, OpenCodeDetected};

fn input_with(f: impl FnOnce(&mut UnifiedInput)) -> UnifiedInput {
    let mut input = UnifiedInput::default();
    f(&mut input);
    input
}

#[test]
fn parse_combo_ctrl_b() {
    let combo = parse_key_combo("Ctrl+B").unwrap();
    assert_eq!(combo, vec![VKey::Control, VKey::B]);
}

#[test]
fn parse_single_key() {
    let combo = parse_key_combo("p").unwrap();
    assert_eq!(combo, vec![VKey::P]);
}

#[test]
fn vkey_from_name_coverage() {
    assert_eq!(VKey::from_name("enter"), Some(VKey::Return));
    assert_eq!(VKey::from_name("Ctrl"), Some(VKey::Control));
    assert_eq!(VKey::from_name(";"), Some(VKey::Semicolon));
    assert_eq!(VKey::from_name("["), Some(VKey::LeftBracket));
    assert_eq!(VKey::from_name("z"), Some(VKey::Z));
    assert_eq!(VKey::from_name("unknown"), None);
}

#[test]
fn detects_rising_edge() {
    let mut mapper = MapperState::default();
    let actions = mapper.update(&UnifiedInput::default(), 0);
    assert!(actions.is_empty());
    let input = input_with(|i| i.buttons.cross = true);
    let actions = mapper.update(&input, 10);
    assert_eq!(actions.len(), 1);
    match &actions[0] {
        Action::KeyCombo(keys) => assert_eq!(keys, &[VKey::Return]),
        _ => panic!("Expected KeyCombo"),
    }
    let actions = mapper.update(&input, 20);
    assert!(actions.is_empty());
    let actions = mapper.update(&UnifiedInput::default(), 30);
    assert!(actions.is_empty());
}

#[test]
fn dpad_two_frame_confirm() {
    let mut mapper = MapperState::default();
    let input = input_with(|i| i.buttons.dpad = DPad::Up);
    let actions = mapper.update(&input, 0);
    assert!(actions.is_empty(), "Should not fire on first frame");
    let actions = mapper.update(&input, 10);
    assert_eq!(actions.len(), 1);
    match &actions[0] {
        Action::KeyCombo(keys) => assert_eq!(keys, &[VKey::Up]),
        _ => panic!("Expected KeyCombo"),
    }
    let actions = mapper.update(&input, 20);
    assert!(actions.is_empty());
    let actions = mapper.update(&UnifiedInput::default(), 30);
    assert!(actions.is_empty());
}

#[test]
fn dpad_single_frame_glitch_filtered() {
    let mut mapper = MapperState::default();
    let input = input_with(|i| i.buttons.dpad = DPad::Up);
    let actions = mapper.update(&input, 0);
    assert!(actions.is_empty(), "Pending, not fired");
    let actions = mapper.update(&UnifiedInput::default(), 10);
    assert!(actions.is_empty(), "Single-frame glitch should not fire");
}

#[test]
fn dpad_repeat_after_hold() {
    // Confirm at frame 2, then silence until the 300 ms delay since the
    // press passes, then one action per 100 ms rate interval.
    let mut mapper = MapperState::default();
    let input = input_with(|i| i.buttons.dpad = DPad::Up);
    assert!(mapper.update(&input, 0).is_empty());
    assert_eq!(mapper.update(&input, 16).len(), 1); // confirm
    assert!(mapper.update(&input, 100).is_empty()); // inside the delay
    assert!(mapper.update(&input, 299).is_empty()); // still inside
    assert_eq!(mapper.update(&input, 300).len(), 1); // delay passed
    assert!(mapper.update(&input, 350).is_empty()); // 50 ms since last fire
    assert_eq!(mapper.update(&input, 400).len(), 1); // 100 ms since last fire
}

#[test]
fn l1_produces_prev_tab() {
    let mut mapper = MapperState::default();
    let input = input_with(|i| i.buttons.l1 = true);
    let actions = mapper.update(&input, 0);
    assert_eq!(actions.len(), 1);
    match &actions[0] {
        Action::KeyCombo(keys) => assert_eq!(keys, &[VKey::Control, VKey::Shift, VKey::Tab]),
        _ => panic!("Expected KeyCombo"),
    }
}

#[test]
fn square_produces_wt_new_tab() {
    let mut mapper = MapperState::default();
    let input = input_with(|i| i.buttons.square = true);
    let actions = mapper.update(&input, 0);
    assert_eq!(actions.len(), 1);
    match &actions[0] {
        Action::KeyCombo(keys) => assert_eq!(
            keys,
            &[VKey::Control, VKey::Shift, VKey::D1],
            "Expected ctrl+shift+1 for newTab"
        ),
        _ => panic!("Expected KeyCombo(ctrl+shift+1)"),
    }
}

#[test]
fn scroll_dead_zone_no_action() {
    let mut mapper = MapperState::default();
    let input = input_with(|i| i.right_stick = (128, 128));
    let actions = mapper.update(&input, 0);
    assert!(!actions.iter().any(|a| matches!(a, Action::Scroll { .. })));
    let input = input_with(|i| i.right_stick = (138, 138));
    let actions = mapper.update(&input, 10);
    assert!(!actions.iter().any(|a| matches!(a, Action::Scroll { .. })));
}

#[test]
fn scroll_beyond_dead_zone_fires() {
    let mut mapper = MapperState::default();
    let input = input_with(|i| i.right_stick = (128, 80));
    let actions = mapper.update(&input, 0);
    assert!(
        actions.iter().any(|a| matches!(a, Action::Scroll { vertical, .. } if *vertical > 0)),
        "Expected positive vertical scroll for stick-up"
    );
}

#[test]
fn scroll_rate_limited() {
    let mut mapper = MapperState::default();
    let input = input_with(|i| i.right_stick = (128, 0));
    let a1 = mapper.update(&input, 0);
    assert!(a1.iter().any(|a| matches!(a, Action::Scroll { .. })));
    let a2 = mapper.update(&input, 5);
    assert!(!a2.iter().any(|a| matches!(a, Action::Scroll { .. })));
}

#[test]
fn scroll_down_negative_vertical() {
    let mut mapper = MapperState::default();
    let input = input_with(|i| i.right_stick = (128, 200));
    let actions = mapper.update(&input, 0);
    assert!(
        actions.iter().any(|a| matches!(a, Action::Scroll { vertical, .. } if *vertical < 0)),
        "Expected negative vertical scroll for stick-down"
    );
}

fn switch_to_tmux(mapper: &mut MapperState) {
    let ps_press = input_with(|i| i.buttons.ps = true);
    let actions = mapper.update(&ps_press, 1000);
    assert!(actions.iter().any(|a| matches!(a, Action::Custom(s) if s == "profile:tmux")));
    assert_eq!(mapper.profile(), Profile::Tmux);
    mapper.update(&UnifiedInput::default(), 1010);
}

#[test]
fn ps_cycles_profiles() {
    let mut mapper = MapperState::default();
    assert_eq!(mapper.profile(), Profile::Default);
    switch_to_tmux(&mut mapper);
    let ps_press = input_with(|i| i.buttons.ps = true);
    let actions = mapper.update(&ps_press, 2000);
    assert!(actions.iter().any(|a| matches!(a, Action::Custom(s) if s == "profile:default")));
    assert_eq!(mapper.profile(), Profile::Default);
}

#[test]
fn default_profile_l2_does_nothing() {
    let mut mapper = MapperState::default();
    assert_eq!(mapper.profile(), Profile::Default);
    let input = input_with(|i| i.buttons.l2 = true);
    let actions = mapper.update(&input, 0);
    assert!(!actions.iter().any(|a| matches!(a, Action::KeySequence(_))));
}

#[test]
fn tmux_l1_fires_key_sequence() {
    let mut mapper = MapperState::default();
    switch_to_tmux(&mut mapper);
    let input = input_with(|i| i.buttons.l1 = true);
    let actions = mapper.update(&input, 2000);
    let tmux_actions: Vec<_> = actions.iter().filter(|a| matches!(a, Action::KeySequence(_))).collect();
    assert_eq!(tmux_actions.len(), 1);
    match &tmux_actions[0] {
        Action::KeySequence(seq) => {
            assert_eq!(seq.len(), 2);
            assert_eq!(seq[0], vec![VKey::Control, VKey::B]);
            assert_eq!(seq[1], vec![VKey::P]);
        }
        _ => unreachable!(),
    }
}

#[test]
fn tmux_disabled_ps_does_nothing() {
    let scroll_cfg = ds4cc::config::ScrollConfig::default();
    let mut tmux_cfg = ds4cc::config::TmuxConfig::default();
    tmux_cfg.enabled = false;
    let mut mapper = MapperState::new(
        &scroll_cfg,
        &ds4cc::config::StickMouseConfig::default(),
        &ds4cc::config::TouchpadConfig::default(),
        &tmux_cfg,
        None,
        &ds4cc::config::OpenCodeConfig::default(),
        None,
        &ds4cc::config::WtConfig::default(),
        None,
        false,
    );
    let ps_press = input_with(|i| i.buttons.ps = true);
    let actions = mapper.update(&ps_press, 0);
    assert!(!actions.iter().any(|a| matches!(a, Action::Custom(s) if s.starts_with("profile:"))));
    assert_eq!(mapper.profile(), Profile::Default);
}

#[test]
fn tmux_mapped_buttons() {
    let tests: Vec<(fn(&mut UnifiedInput), Vec<VKey>)> = vec![
        (|i| i.buttons.l1 = true, vec![VKey::P]),
        (|i| i.buttons.r1 = true, vec![VKey::N]),
        (|i| i.buttons.r2 = true, vec![VKey::Shift, VKey::D7]),
        (|i| i.buttons.square = true, vec![VKey::C]),
    ];
    for (setup, expected_action) in tests {
        let mut mapper = MapperState::default();
        switch_to_tmux(&mut mapper);
        let input = input_with(setup);
        let actions = mapper.update(&input, 2000);
        let seq: Vec<_> = actions
            .iter()
            .filter_map(|a| match a {
                Action::KeySequence(s) => Some(s),
                _ => None,
            })
            .collect();
        assert_eq!(seq.len(), 1, "Expected 1 KeySequence for button");
        assert_eq!(seq[0][0], vec![VKey::Control, VKey::B], "Wrong prefix");
        assert_eq!(seq[0][1], expected_action, "Wrong action key");
    }
}

#[test]
fn tmux_unmapped_buttons_do_nothing() {
    let unmapped: Vec<fn(&mut UnifiedInput)> = vec![
        |i| i.buttons.share = true,
        |i| i.buttons.options = true,
        |i| i.buttons.touchpad = true,
    ];
    for setup in unmapped {
        let mut mapper = MapperState::default();
        switch_to_tmux(&mut mapper);
        let input = input_with(setup);
        let actions = mapper.update(&input, 2000);
        assert!(
            !actions.iter().any(|a| matches!(a, Action::KeySequence(_))),
            "Unmapped button should not fire KeySequence"
        );
    }
}

#[test]
fn r3_ctrl_p_both_profiles() {
    let mut mapper = MapperState::default();
    let input = input_with(|i| i.buttons.r3 = true);
    let actions = mapper.update(&input, 0);
    assert!(
        actions.iter().any(|a| matches!(a, Action::KeyCombo(k) if *k == vec![VKey::Control, VKey::P])),
        "R3 should send Ctrl+P in Default profile"
    );
    let mut mapper = MapperState::default();
    switch_to_tmux(&mut mapper);
    let input = input_with(|i| i.buttons.r3 = true);
    let actions = mapper.update(&input, 2000);
    assert!(
        actions.iter().any(|a| matches!(a, Action::KeyCombo(k) if *k == vec![VKey::Control, VKey::P])),
        "R3 should send Ctrl+P in Tmux profile"
    );
}

#[test]
fn l3_ctrl_t_both_profiles() {
    let mut mapper = MapperState::default();
    let input = input_with(|i| i.buttons.l3 = true);
    let actions = mapper.update(&input, 0);
    assert!(
        actions.iter().any(|a| matches!(a, Action::KeyCombo(k) if *k == vec![VKey::Control, VKey::T])),
        "L3 should send Ctrl+T in Default profile"
    );
    let mut mapper = MapperState::default();
    switch_to_tmux(&mut mapper);
    let input = input_with(|i| i.buttons.l3 = true);
    let actions = mapper.update(&input, 2000);
    assert!(
        actions.iter().any(|a| matches!(a, Action::KeyCombo(k) if *k == vec![VKey::Control, VKey::T])),
        "L3 should send Ctrl+T in Tmux profile"
    );
}

#[test]
fn tmux_overrides_default_l1() {
    let mut mapper = MapperState::default();
    let input = input_with(|i| i.buttons.l1 = true);
    let actions = mapper.update(&input, 0);
    assert!(actions.iter().any(
        |a| matches!(a, Action::KeyCombo(k) if *k == vec![VKey::Control, VKey::Shift, VKey::Tab])
    ));
    mapper.update(&UnifiedInput::default(), 10);
    switch_to_tmux(&mut mapper);
    let actions = mapper.update(&input, 2000);
    let seq: Vec<_> = actions
        .iter()
        .filter_map(|a| match a {
            Action::KeySequence(s) => Some(s),
            _ => None,
        })
        .collect();
    assert_eq!(seq.len(), 1);
    assert_eq!(seq[0][1], vec![VKey::P]);
}

#[test]
fn tmux_overrides_default_square() {
    let mut mapper = MapperState::default();
    let input = input_with(|i| i.buttons.square = true);
    let actions = mapper.update(&input, 0);
    assert!(actions.iter().any(
        |a| matches!(a, Action::KeyCombo(k) if *k == vec![VKey::Control, VKey::Shift, VKey::D1])
    ));
    mapper.update(&UnifiedInput::default(), 10);
    switch_to_tmux(&mut mapper);
    let actions = mapper.update(&input, 2000);
    let seq: Vec<_> = actions
        .iter()
        .filter_map(|a| match a {
            Action::KeySequence(s) => Some(s),
            _ => None,
        })
        .collect();
    assert_eq!(seq.len(), 1);
    assert_eq!(seq[0][1], vec![VKey::C]);
}

fn input_with_touch(x: u16, y: u16, click: bool) -> UnifiedInput {
    let mut i = UnifiedInput::default();
    i.touchpad[0] = TouchPoint { active: true, x, y };
    i.buttons.touchpad = click;
    i
}

#[test]
fn touchpad_first_frame_no_move() {
    let mut mapper = MapperState::default();
    let input = input_with_touch(500, 300, false);
    let actions = mapper.update(&input, 0);
    assert!(
        !actions.iter().any(|a| matches!(a, Action::MouseMove { .. })),
        "No MouseMove on first touch frame"
    );
}

#[test]
fn touchpad_second_frame_emits_move() {
    let mut mapper = MapperState::default();
    mapper.update(&input_with_touch(500, 300, false), 0);
    let actions = mapper.update(&input_with_touch(510, 305, false), 10);
    let moves: Vec<_> = actions
        .iter()
        .filter_map(|a| match a {
            Action::MouseMove { dx, dy } => Some((*dx, *dy)),
            _ => None,
        })
        .collect();
    assert_eq!(moves.len(), 1, "Expected one MouseMove");
    // default sensitivity 1.5: dx = 10 * 1.5 = 15, dy = 5 * 1.5 truncated = 7
    assert_eq!(moves[0], (15, 7));
}

#[test]
fn touchpad_lift_clears_prev() {
    let mut mapper = MapperState::default();
    mapper.update(&input_with_touch(500, 300, false), 0);
    mapper.update(&input_with_touch(510, 305, false), 10);
    mapper.update(&UnifiedInput::default(), 20);
    assert!(mapper.prev_touch.is_none(), "prev_touch cleared after lift");
    let actions = mapper.update(&input_with_touch(900, 600, false), 30);
    assert!(
        !actions.iter().any(|a| matches!(a, Action::MouseMove { .. })),
        "No move on re-touch after lift"
    );
}

#[test]
fn touchpad_no_move_when_stationary() {
    let mut mapper = MapperState::default();
    mapper.update(&input_with_touch(500, 300, false), 0);
    let actions = mapper.update(&input_with_touch(500, 300, false), 10);
    assert!(!actions.iter().any(|a| matches!(a, Action::MouseMove { .. })));
}

#[test]
fn touchpad_click_rising_edge() {
    let mut mapper = MapperState::default();
    let input = input_with_touch(500, 300, true);
    let actions = mapper.update(&input, 0);
    assert!(actions.iter().any(|a| matches!(a, Action::MouseClick)), "MouseClick on first press frame");
    let actions = mapper.update(&input, 10);
    assert!(!actions.iter().any(|a| matches!(a, Action::MouseClick)), "No click on hold");
}

#[test]
fn touchpad_disabled_no_actions() {
    let mut mapper = MapperState::default();
    mapper.touchpad_enabled = false;
    let input = input_with_touch(500, 300, true);
    mapper.update(&input_with_touch(400, 200, false), 0);
    let actions = mapper.update(&input, 10);
    assert!(!actions.iter().any(|a| matches!(a, Action::MouseMove { .. })));
    assert!(!actions.iter().any(|a| matches!(a, Action::MouseClick)));
}

fn input_with_left_stick(lx: u8, ly: u8) -> UnifiedInput {
    let mut i = UnifiedInput::default();
    i.left_stick = (lx, ly);
    i
}

#[test]
fn stick_mouse_center_no_action() {
    let mut mapper = MapperState::default();
    let actions = mapper.update(&input_with_left_stick(128, 128), 0);
    assert!(!actions.iter().any(|a| matches!(a, Action::MouseMove { .. })));
}

#[test]
fn stick_mouse_dead_zone_no_action() {
    let mut mapper = MapperState::default();
    let actions = mapper.update(&input_with_left_stick(138, 118), 0);
    assert!(!actions.iter().any(|a| matches!(a, Action::MouseMove { .. })));
}

#[test]
fn stick_mouse_beyond_dead_zone_emits_move() {
    let mut mapper = MapperState::default();
    mapper.mouse_stick_active = true;
    let actions = mapper.update(&input_with_left_stick(255, 128), 0);
    assert!(
        actions.iter().any(|a| matches!(a, Action::MouseMove { dx, .. } if *dx > 0)),
        "Full right deflection should produce positive dx"
    );
}

#[test]
fn stick_mouse_direction_up_negative_dy() {
    let mut mapper = MapperState::default();
    mapper.mouse_stick_active = true;
    let actions = mapper.update(&input_with_left_stick(128, 0), 0);
    assert!(
        actions.iter().any(|a| matches!(a, Action::MouseMove { dy, .. } if *dy < 0)),
        "Full up deflection should produce negative dy"
    );
}

#[test]
fn stick_mouse_accumulates_subpixel() {
    // sensitivity 0.3 (300 thousandths), deflection 64: about 0.15 px per
    // frame, so a move shows up within a handful of frames.
    let mut mapper = MapperState::default();
    mapper.mouse_stick_active = true;
    mapper.stick_mouse_sensitivity_milli = 300;
    mapper.stick_mouse_dead_zone = 0;
    let input = input_with_left_stick(192, 128);
    let fired = (0..10).any(|k| {
        mapper
            .update(&input, k * 16)
            .iter()
            .any(|a| matches!(a, Action::MouseMove { dx, .. } if *dx > 0))
    });
    assert!(fired, "Sub-pixel accumulator should emit move after enough frames");
}

#[test]
fn stick_mouse_subpixel_conservation() {
    // With sensitivity 0.3 and constant deflection 64/127, the cumulative
    // emitted pixels after N frames track N * 0.3 * 64/127 within one pixel.
    let mut mapper = MapperState::default();
    mapper.mouse_stick_active = true;
    mapper.stick_mouse_sensitivity_milli = 300;
    mapper.stick_mouse_dead_zone = 0;
    let input = input_with_left_stick(192, 128);
    let n: i64 = 100;
    let mut total: i64 = 0;
    for k in 0..n {
        for a in mapper.update(&input, (k * 16) as u64) {
            if let Action::MouseMove { dx, .. } = a {
                total += dx as i64;
            }
        }
    }
    // per-frame velocity in thousandths: 64 * 300 / 127 = 151
    let expected = (n * 151) as f64 / 1000.0;
    let diff = (total as f64 - expected).abs();
    assert!(diff <= 1.0, "cumulative {total} vs expected {expected}");
}

#[test]
fn stick_mouse_acc_resets_at_center() {
    let mut mapper = MapperState::default();
    mapper.mouse_stick_active = true;
    mapper.update(&input_with_left_stick(255, 128), 0);
    mapper.update(&UnifiedInput::default(), 10);
    assert_eq!(mapper.stick_acc_x_milli, 0, "Accumulator should reset at center");
    assert_eq!(mapper.stick_acc_y_milli, 0);
}

#[test]
fn stick_mouse_disabled_no_actions() {
    let mut mapper = MapperState::default();
    mapper.stick_mouse_enabled = false;
    mapper.mouse_stick_active = true;
    let actions = mapper.update(&input_with_left_stick(255, 0), 0);
    assert!(!actions.iter().any(|a| matches!(a, Action::MouseMove { .. })));
}

#[test]
fn stick_mode_off_suppresses_stick_move() {
    let mut mapper = MapperState::default();
    let actions = mapper.update(&input_with_left_stick(255, 128), 0);
    assert!(
        !actions.iter().any(|a| matches!(a, Action::MouseMove { .. })),
        "Stick should not move cursor when stick mode is off"
    );
}

#[test]
fn stick_mode_on_suppresses_touchpad_move() {
    let mut mapper = MapperState::default();
    mapper.mouse_stick_active = true;
    mapper.prev_touch = Some((500, 300));
    let actions = mapper.update(&input_with_touch(510, 305, false), 0);
    assert!(
        !actions.iter().any(|a| matches!(a, Action::MouseMove { .. })),
        "Touchpad touch should not move cursor when stick mode is on"
    );
}

#[test]
fn touchpad_click_always_fires_in_stick_mode() {
    let mut mapper = MapperState::default();
    mapper.mouse_stick_active = true;
    let actions = mapper.update(&input_with_touch(500, 300, true), 0);
    assert!(
        actions.iter().any(|a| matches!(a, Action::MouseClick)),
        "Touchpad click must fire regardless of mouse mode"
    );
    assert!(
        !actions.iter().any(|a| matches!(a, Action::MouseMove { .. })),
        "No touch movement in stick mode"
    );
}

#[test]
fn switching_modes_clears_prev_touch() {
    let mut mapper = MapperState::default();
    mapper.update(&input_with_touch(500, 300, false), 0);
    assert!(mapper.prev_touch.is_some());
    mapper.mouse_stick_active = true;
    mapper.update(&input_with_touch(510, 305, false), 10);
    assert!(mapper.prev_touch.is_none(), "prev_touch must clear when mode switches to stick");
}

#[test]
fn scroll_interval_bounds() {
    // Scroll emissions are rate-limited: a second full-deflection frame
    // within 30 ms stays silent, and one at 30 ms fires again.
    let mut mapper = MapperState::default();
    let input = input_with_left_stick(128, 128);
    let mut full = input;
    full.right_stick = (128, 0);
    assert!(mapper.update(&full, 0).iter().any(|a| matches!(a, Action::Scroll { .. })));
    assert!(!mapper.update(&full, 29).iter().any(|a| matches!(a, Action::Scroll { .. })));
    assert!(mapper.update(&full, 30).iter().any(|a| matches!(a, Action::Scroll { .. })));
}

#[test]
fn opencode_from_config_leader_resolution() {
    let mut cfg = OpenCodeConfig::default();
    cfg.leader = "ctrl+a".to_string();
    cfg.l1 = "ctrl+s".to_string();

    // auto-detection on and a detected leader: the detected one wins
    let det = OpenCodeDetected { leader: Some(vec![VKey::Control, VKey::B]), actions: Vec::new() };
    let st = OpenCodeState::from_config(&cfg, Some(&det));
    assert_eq!(st.leader, vec![VKey::Control, VKey::B]);

    // no detection: the configured combo
    let st2 = OpenCodeState::from_config(&cfg, None);
    assert_eq!(st2.leader, vec![VKey::Control, VKey::A]);
    assert!(matches!(&st2.l1, Some(ActionBinding::Combo(k)) if *k == vec![VKey::Control, VKey::S]));

    // an unparseable configured combo falls back to Control+X
    cfg.leader = "not a key".to_string();
    let st3 = OpenCodeState::from_config(&cfg, None);
    assert_eq!(st3.leader, vec![VKey::Control, VKey::X]);

    // auto-detection off ignores the detected leader
    cfg.leader = "ctrl+a".to_string();
    cfg.auto_detect = false;
    let st4 = OpenCodeState::from_config(&cfg, Some(&det));
    assert_eq!(st4.leader, vec![VKey::Control, VKey::A]);
}

#[test]
fn insert_binding_keys_and_base_word() {
    let mut table: Vec<BindingEntry> = Vec::new();
    insert_binding(&mut table, b"resize-pane -Z".to_vec(), vec![VKey::Z]);
    // the full command and its base word both resolve to the inserted keys
    assert_eq!(binding_lookup(&table, b"resize-pane -Z"), Some(vec![VKey::Z]));
    assert_eq!(binding_lookup(&table, b"resize-pane"), Some(vec![VKey::Z]));
    // first wins: a later binding for a taken name does not override
    insert_binding(&mut table, b"resize-pane".to_vec(), vec![VKey::Q]);
    assert_eq!(binding_lookup(&table, b"resize-pane"), Some(vec![VKey::Z]));
}
