use subd::move_transition::FilterSettings;
use subd::move_transition::RemoteOp;
use subd::obs_routing::handle_obs_commands;
use subd::obs_routing::obs_message_step;
use subd::obs_routing::request_plan;
use subd::obs_routing::CommandError;
use subd::text::split_words;
use subd::types::Event;
use subd::types::TriggerHotkeyRequest;
use subd::types::UserMessage;
use subd::types::UserRoles;

fn viewer() -> UserRoles {
    UserRoles { is_broadcaster: false, is_moderator: false, is_vip: false }
}

fn moderator() -> UserRoles {
    UserRoles { is_broadcaster: false, is_moderator: true, is_vip: false }
}

fn vip() -> UserRoles {
    UserRoles { is_broadcaster: false, is_moderator: false, is_vip: true }
}

fn words_of(line: &str) -> Vec<String> {
    split_words(line)
}

#[test]
fn blur_with_privilege_routes_one_request() {
    let reqs = handle_obs_commands(&words_of("!blur 50"), moderator()).unwrap();
    assert_eq!(reqs.len(), 1);
    let req = &reqs[0];
    assert_eq!(req.source, "begin");
    assert_eq!(req.filter, "Move_Blur");
    assert_eq!(req.setting_name, "Filter.Blur.Size");
    assert_eq!(req.value, 50);
    assert_eq!(req.duration, 3000);
    assert_eq!(req.value_type, 2);
}

#[test]
fn blur_plan_writes_once_and_enables_once() {
    let reqs = handle_obs_commands(&words_of("!blur 50"), moderator()).unwrap();
    let plan = request_plan(&reqs[0], None);
    let mut writes = 0;
    let mut enables = 0;
    for op in plan.iter() {
        match op {
            RemoteOp::SetSettings { source, filter, settings, overlay } => {
                writes += 1;
                assert_eq!(source, "begin");
                assert_eq!(filter, "Move_Blur");
                assert_eq!(*overlay, None);
                match settings {
                    FilterSettings::SingleValue(s) => {
                        assert_eq!(s.setting_name, "Filter.Blur.Size");
                        assert_eq!(s.setting_float, 50);
                        assert_eq!(s.duration, Some(3000));
                        assert_eq!(s.value_type, 2);
                    }
                    other => panic!("expected single-value settings, got {other:?}"),
                }
            }
            RemoteOp::Sleep { ms } => assert_eq!(*ms, 400),
            RemoteOp::SetEnabled { source, filter, enabled } => {
                enables += 1;
                assert_eq!(source, "begin");
                assert_eq!(filter, "Move_Blur");
                assert!(*enabled);
            }
        }
    }
    assert_eq!(writes, 1);
    assert_eq!(enables, 1);
}

#[test]
fn blur_without_privilege_routes_nothing() {
    let reqs = handle_obs_commands(&words_of("!blur 50"), viewer()).unwrap();
    assert_eq!(reqs.len(), 0);
    // The vip tier is not enough for the blur increase either.
    let reqs = handle_obs_commands(&words_of("!blur 50"), vip()).unwrap();
    assert_eq!(reqs.len(), 0);
}

#[test]
fn unblur_needs_only_the_lower_tier() {
    let reqs = handle_obs_commands(&words_of("!unblur"), vip()).unwrap();
    assert_eq!(reqs.len(), 1);
    assert_eq!(reqs[0].value, 0);
    assert_eq!(reqs[0].source, "begin");
    let reqs = handle_obs_commands(&words_of("!noblur cam"), moderator()).unwrap();
    assert_eq!(reqs.len(), 1);
    assert_eq!(reqs[0].source, "cam");
    let reqs = handle_obs_commands(&words_of("!unblur"), viewer()).unwrap();
    assert_eq!(reqs.len(), 0);
}

#[test]
fn malformed_amount_falls_back_to_default() {
    let reqs = handle_obs_commands(&words_of("!blur fifty"), moderator()).unwrap();
    assert_eq!(reqs.len(), 1);
    assert_eq!(reqs[0].value, 100);
}

#[test]
fn named_target_overrides_the_default_source() {
    let reqs = handle_obs_commands(&words_of("!blur 25 cam"), moderator()).unwrap();
    assert_eq!(reqs.len(), 1);
    assert_eq!(reqs[0].source, "cam");
    assert_eq!(reqs[0].value, 25);
}

#[test]
fn scroll_routes_for_everyone() {
    let reqs = handle_obs_commands(&words_of("!scroll 30"), viewer()).unwrap();
    assert_eq!(reqs.len(), 1);
    assert_eq!(reqs[0].filter, "Move_Scroll");
    assert_eq!(reqs[0].setting_name, "speed_x");
    assert_eq!(reqs[0].value, 30);
}

#[test]
fn three_d_requires_its_setting_name() {
    let r = handle_obs_commands(&words_of("!3d"), moderator());
    assert_eq!(r, Err(CommandError::MissingSettingName));
    assert_eq!(
        CommandError::MissingSettingName.message(),
        "the 3-D transform command needs a setting name"
    );
}

#[test]
fn three_d_with_setting_name_routes() {
    let reqs = handle_obs_commands(&words_of("!3d Rotation.X 90"), viewer()).unwrap();
    assert_eq!(reqs.len(), 1);
    assert_eq!(reqs[0].filter, "Move_3D_Transform");
    assert_eq!(reqs[0].setting_name, "Rotation.X");
    assert_eq!(reqs[0].value, 90);
    assert_eq!(reqs[0].source, "begin");
}

#[test]
fn unknown_commands_are_a_no_op() {
    let reqs = handle_obs_commands(&words_of("!dance"), moderator()).unwrap();
    assert_eq!(reqs.len(), 0);
    let reqs = handle_obs_commands(&words_of("hello there"), moderator()).unwrap();
    assert_eq!(reqs.len(), 0);
}

#[test]
fn message_step_routes_chat_and_skips_other_events() {
    let msg = UserMessage {
        user_name: "mod".to_string(),
        contents: "!blur 50".to_string(),
        roles: moderator(),
    };
    let r = obs_message_step(&Event::UserMessage(msg));
    let reqs = r.expect("chat messages are routed").unwrap();
    assert_eq!(reqs.len(), 1);
    assert_eq!(reqs[0].value, 50);
    let other = Event::TriggerHotkeyRequest(TriggerHotkeyRequest { hotkey: "F1".to_string() });
    assert!(obs_message_step(&other).is_none());
}
