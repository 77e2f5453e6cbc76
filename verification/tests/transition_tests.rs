use subd::handlers::transform_text_step;
use subd::handlers::trigger_hotkey_step;
use subd::move_transition::custom_filter_settings;
use subd::move_transition::default_orthographic_settings;
use subd::move_transition::fetch_source_settings;
use subd::move_transition::merge_single_value_settings;
use subd::move_transition::move_with_move_source;
use subd::move_transition::render_transform_text;
use subd::move_transition::update_and_trigger_text_move_filter;
use subd::move_transition::Coordinates;
use subd::move_transition::FilterSettings;
use subd::move_transition::MoveSingleValueSetting;
use subd::move_transition::MoveSourceFilterSettings;
use subd::move_transition::RemoteOp;
use subd::move_transition::SceneItemTransform;
use subd::move_transition::SourceFetch;
use subd::types::Event;
use subd::types::TransformOBSTextRequest;
use subd::types::TriggerHotkeyRequest;

fn sample_fetched() -> MoveSingleValueSetting {
    MoveSingleValueSetting {
        source: Some("cam".to_string()),
        filter: "Move_Blur".to_string(),
        duration: Some(1),
        move_value_type: Some(9),
        setting_float: 1,
        setting_float_max: 7,
        setting_float_min: -3,
        setting_name: "old".to_string(),
        value_type: 9,
        filter_blur_size: Some(11),
        glow_inner: Some(true),
        glow_outer: Some(false),
        shadow_outer: Some(true),
        shadow_inner: Some(false),
        outline: Some(true),
    }
}

#[test]
fn merge_overwrites_named_fields_and_keeps_the_rest() {
    let merged = merge_single_value_settings(Some(sample_fetched()), "new", 42, 500, 2);
    // The four named fields are overwritten.
    assert_eq!(merged.setting_name, "new");
    assert_eq!(merged.setting_float, 42);
    assert_eq!(merged.duration, Some(500));
    assert_eq!(merged.value_type, 2);
    // Every unnamed field is carried forward from the fetched snapshot.
    assert_eq!(merged.source, Some("cam".to_string()));
    assert_eq!(merged.filter, "Move_Blur");
    assert_eq!(merged.move_value_type, Some(9));
    assert_eq!(merged.setting_float_max, 7);
    assert_eq!(merged.setting_float_min, -3);
    assert_eq!(merged.filter_blur_size, Some(11));
    assert_eq!(merged.glow_inner, Some(true));
    assert_eq!(merged.glow_outer, Some(false));
    assert_eq!(merged.shadow_outer, Some(true));
    assert_eq!(merged.shadow_inner, Some(false));
    assert_eq!(merged.outline, Some(true));
}

#[test]
fn merge_over_failed_fetch_uses_the_zero_default() {
    let merged = merge_single_value_settings(None, "Filter.Blur.Size", 50, 3000, 2);
    assert_eq!(merged.setting_name, "Filter.Blur.Size");
    assert_eq!(merged.setting_float, 50);
    assert_eq!(merged.duration, Some(3000));
    assert_eq!(merged.value_type, 2);
    assert_eq!(merged.source, None);
    assert_eq!(merged.filter, "");
    assert_eq!(merged.setting_float_max, 0);
    assert_eq!(merged.filter_blur_size, None);
    assert_eq!(merged.outline, None);
}

#[test]
fn merging_the_same_update_twice_changes_nothing() {
    let once = merge_single_value_settings(Some(sample_fetched()), "new", 42, 500, 2);
    let again = once.clone();
    let twice = merge_single_value_settings(Some(once), "new", 42, 500, 2);
    assert_eq!(twice, again);
}

#[test]
fn text_update_plan_has_write_settle_enable() {
    let plan =
        update_and_trigger_text_move_filter("soundbot-text", "OBS_Text", &"Ok NOW".to_string());
    assert_eq!(plan.len(), 3);
    match &plan[0] {
        RemoteOp::SetSettings { source, filter, settings, overlay } => {
            assert_eq!(source, "soundbot-text");
            assert_eq!(filter, "OBS_Text");
            assert_eq!(*overlay, None);
            match settings {
                FilterSettings::Text(t) => {
                    assert_eq!(t.setting_name, "text");
                    assert_eq!(t.setting_text, "Ok NOW");
                    assert_eq!(t.value_type, 4);
                    assert_eq!(t.move_value_type, Some(4));
                    assert_eq!(t.duration, Some(300));
                    assert!(t.custom_duration);
                    assert_eq!(t.setting_decimals, Some(1));
                }
                other => panic!("expected text settings, got {other:?}"),
            }
        }
        other => panic!("expected a settings write first, got {other:?}"),
    }
    assert_eq!(plan[1], RemoteOp::Sleep { ms: 300 });
    match &plan[2] {
        RemoteOp::SetEnabled { source, filter, enabled } => {
            assert_eq!(source, "soundbot-text");
            assert_eq!(filter, "OBS_Text");
            assert!(*enabled);
        }
        other => panic!("expected the enable trigger last, got {other:?}"),
    }
}

#[test]
fn move_source_plan_writes_then_enables_on_the_default_scene() {
    let settings = MoveSourceFilterSettings {
        crop: None,
        bounds: None,
        position: Some(Coordinates { x: Some(5), y: Some(10) }),
        scale: None,
        duration: Some(4444),
        source: Some("Seal".to_string()),
        transform_text: None,
    };
    let plan = move_with_move_source("Move_Seal", settings);
    assert_eq!(plan.len(), 2);
    match &plan[0] {
        RemoteOp::SetSettings { source, filter, overlay, .. } => {
            assert_eq!(source, "Primary");
            assert_eq!(filter, "Move_Seal");
            assert_eq!(*overlay, Some(false));
        }
        other => panic!("expected a settings write first, got {other:?}"),
    }
    match &plan[1] {
        RemoteOp::SetEnabled { source, filter, enabled } => {
            assert_eq!(source, "Primary");
            assert_eq!(filter, "Move_Seal");
            assert!(*enabled);
        }
        other => panic!("expected the enable trigger last, got {other:?}"),
    }
}

#[test]
fn fetched_transform_becomes_a_complete_record() {
    let t = SceneItemTransform {
        position_x: 83,
        position_y: 763,
        bounds_width: 251,
        bounds_height: 234,
        scale_x: 1,
        scale_y: 2,
        crop_left: 0,
        crop_top: 0,
        crop_right: 0,
        crop_bottom: 0,
    };
    let r = fetch_source_settings("Seal", SourceFetch::Fetched(t));
    assert_eq!(r.source, Some("Seal".to_string()));
    assert_eq!(r.duration, Some(4444));
    assert_eq!(r.position, Some(Coordinates { x: Some(83), y: Some(763) }));
    assert_eq!(r.bounds, Some(Coordinates { x: Some(251), y: Some(234) }));
    assert_eq!(r.scale, Some(Coordinates { x: Some(1), y: Some(2) }));
    assert_eq!(
        r.transform_text,
        Some("pos: x 83 y 763 rot: 0.0 bounds: x 251 y 234 crop: l 0 t 0 r 0 b 0".to_string())
    );
}

#[test]
fn missing_source_falls_back_to_the_empty_record() {
    let r = fetch_source_settings("gone", SourceFetch::MissingSource);
    assert_eq!(r, MoveSourceFilterSettings::default());
}

#[test]
fn missing_transform_falls_back_to_zeroes() {
    let r = fetch_source_settings("Seal", SourceFetch::MissingTransform);
    assert_eq!(r.position, Some(Coordinates { x: Some(0), y: Some(0) }));
    assert_eq!(
        r.transform_text,
        Some("pos: x 0 y 0 rot: 0.0 bounds: x 0 y 0 crop: l 0 t 0 r 0 b 0".to_string())
    );
}

#[test]
fn render_transform_text_handles_negatives() {
    let t = SceneItemTransform {
        position_x: -7,
        position_y: 0,
        bounds_width: 12,
        bounds_height: 34,
        scale_x: 0,
        scale_y: 0,
        crop_left: 1,
        crop_top: 2,
        crop_right: 3,
        crop_bottom: 4,
    };
    assert_eq!(
        render_transform_text(&t),
        "pos: x -7 y 0 rot: 0.0 bounds: x 12 y 34 crop: l 1 t 2 r 3 b 4"
    );
}

#[test]
fn custom_filter_settings_overwrites_only_the_position() {
    let base = MoveSourceFilterSettings {
        crop: None,
        bounds: Some(Coordinates { x: Some(1), y: Some(2) }),
        position: None,
        scale: None,
        duration: Some(7),
        source: Some("Seal".to_string()),
        transform_text: None,
    };
    let r = custom_filter_settings(base, 40, 50);
    assert_eq!(r.position, Some(Coordinates { x: Some(40), y: Some(50) }));
    assert_eq!(r.bounds, Some(Coordinates { x: Some(1), y: Some(2) }));
    assert_eq!(r.duration, Some(7));
    assert_eq!(r.source, Some("Seal".to_string()));
}

#[test]
fn orthographic_defaults_match_the_preset() {
    let s = default_orthographic_settings();
    assert_eq!(s.filter, Some("3D_Orthographic".to_string()));
    assert_eq!(s.move_value_type, Some(1));
    assert_eq!(s.value_type, Some(0));
    assert_eq!(s.scale_x, Some(100));
    assert_eq!(s.scale_y, Some(100));
    assert_eq!(s.position_x, Some(0));
    assert_eq!(s.rotation_z, Some(0));
    assert_eq!(s.shear_y, Some(0));
}

#[test]
fn hotkey_step_extracts_the_sequence() {
    let e = Event::TriggerHotkeyRequest(TriggerHotkeyRequest { hotkey: "OBS_KEY_F1".to_string() });
    assert_eq!(trigger_hotkey_step(&e), Some("OBS_KEY_F1".to_string()));
    let other = Event::TransformOBSTextRequest(TransformOBSTextRequest {
        message: "hi".to_string(),
        text_source: "Seal-text".to_string(),
    });
    assert_eq!(trigger_hotkey_step(&other), None);
}

#[test]
fn text_step_plans_against_the_named_text_source() {
    let e = Event::TransformOBSTextRequest(TransformOBSTextRequest {
        message: "Ok NOW".to_string(),
        text_source: "Seal-text".to_string(),
    });
    let plan = transform_text_step(&e).expect("text requests are handled");
    assert_eq!(plan.len(), 3);
    match &plan[0] {
        RemoteOp::SetSettings { source, filter, .. } => {
            assert_eq!(source, "Seal-text");
            assert_eq!(filter, "OBS_Text");
        }
        other => panic!("expected a settings write first, got {other:?}"),
    }
    let hotkey = Event::TriggerHotkeyRequest(TriggerHotkeyRequest { hotkey: "x".to_string() });
    assert!(transform_text_step(&hotkey).is_none());
}
