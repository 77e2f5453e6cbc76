//! Settings records of the remote "move" filters, and the
//! read-modify-write plans that update and trigger them.
//!
//! The remote visual-production service exposes only low-level get/set
//! primitives, and a settings write only becomes visible after a separate
//! enable trigger that must not race the write.  The functions here are
//! the decision half of that protocol: from the fetched state and the
//! caller's partial change they produce the merged record and the exact
//! operation sequence (write, settle, enable).  The surrounding program
//! performs the fetch, executes the operations in order, and treats a
//! failing enable as best-effort: the settings write is the success
//! criterion, the toggle recovers on the next command.
//!
//! Scalar settings are carried as plain integers standing for the remote
//! service's numeric values.

use vstd::prelude::*;

use crate::text::int_str;
use crate::text::i64_to_string;
use vstd::string::StringExecFns;

verus! {

/// Settle delay between a single-value settings write and its enable
/// trigger: the remote service needs time to internalise the write.
pub const SETTLE_DELAY_MS: u64 = 400;

/// Settle delay for text updates, which apply faster.
pub const TEXT_SETTLE_DELAY_MS: u64 = 300;

/// Duration stamped on settings fetched from a scene-item transform.
pub const FETCHED_SETTINGS_DURATION_MS: u64 = 4444;

// ======================================================================
// == Settings records ==================================================
// ======================================================================

/// Crop margins of a move-source filter.
#[derive(Clone, Copy, PartialEq, Eq, Structural, Debug)]
pub struct MoveSourceCropSetting {
    pub bottom: Option<i64>,
    pub left: Option<i64>,
    pub top: Option<i64>,
    pub right: Option<i64>,
}

/// A coordinate pair, each component optional.
#[derive(Clone, Copy, PartialEq, Eq, Structural, Debug)]
pub struct Coordinates {
    pub x: Option<i64>,
    pub y: Option<i64>,
}

/// Settings of a move-source filter: where a source sits, its scale,
/// bounds and crop, and the text form the remote service also accepts.
#[derive(PartialEq, Eq, Debug)]
pub struct MoveSourceFilterSettings {
    pub crop: Option<MoveSourceCropSetting>,
    pub bounds: Option<Coordinates>,
    pub position: Option<Coordinates>,
    pub scale: Option<Coordinates>,
    pub duration: Option<u64>,
    pub source: Option<String>,
    pub transform_text: Option<String>,
}

/// Mathematical value of a [`MoveSourceFilterSettings`] record.
pub struct SourceFilterSettingsView {
    pub crop: Option<MoveSourceCropSetting>,
    pub bounds: Option<Coordinates>,
    pub position: Option<Coordinates>,
    pub scale: Option<Coordinates>,
    pub duration: Option<u64>,
    pub source: Option<Seq<char>>,
    pub transform_text: Option<Seq<char>>,
}

impl View for MoveSourceFilterSettings {
    type V = SourceFilterSettingsView;

    open spec fn view(&self) -> SourceFilterSettingsView {
        SourceFilterSettingsView {
            crop: self.crop,
            bounds: self.bounds,
            position: self.position,
            scale: self.scale,
            duration: self.duration,
            source: self.source.deep_view(),
            transform_text: self.transform_text.deep_view(),
        }
    }
}

impl Clone for MoveSourceFilterSettings {
    fn clone(&self) -> (r: Self)
        ensures
            r@ == self@,
    {
        MoveSourceFilterSettings {
            crop: self.crop,
            bounds: self.bounds,
            position: self.position,
            scale: self.scale,
            duration: self.duration,
            source: clone_opt_string(&self.source),
            transform_text: clone_opt_string(&self.transform_text),
        }
    }
}

fn clone_opt_string(s: &Option<String>) -> (r: Option<String>)
    ensures
        r.deep_view() == s.deep_view(),
{
    match s {
        Some(v) => Some(v.clone()),
        None => None,
    }
}

/// Settings of the multi-value move filter driving the generic 3-D
/// transform (orthographic projection components).
#[derive(PartialEq, Eq, Debug)]
pub struct MoveMultipleValuesSetting {
    pub filter: Option<String>,
    pub move_value_type: Option<u32>,
    pub value_type: Option<u32>,
    pub scale_x: Option<i64>,
    pub scale_y: Option<i64>,
    pub shear_x: Option<i64>,
    pub shear_y: Option<i64>,
    pub position_x: Option<i64>,
    pub position_y: Option<i64>,
    pub rotation_x: Option<i64>,
    pub rotation_y: Option<i64>,
    pub rotation_z: Option<i64>,
}

/// Mathematical value of a [`MoveMultipleValuesSetting`] record.
pub struct MultipleValuesSettingView {
    pub filter: Option<Seq<char>>,
    pub move_value_type: Option<u32>,
    pub value_type: Option<u32>,
    pub scale_x: Option<i64>,
    pub scale_y: Option<i64>,
    pub shear_x: Option<i64>,
    pub shear_y: Option<i64>,
    pub position_x: Option<i64>,
    pub position_y: Option<i64>,
    pub rotation_x: Option<i64>,
    pub rotation_y: Option<i64>,
    pub rotation_z: Option<i64>,
}

impl View for MoveMultipleValuesSetting {
    type V = MultipleValuesSettingView;

    open spec fn view(&self) -> MultipleValuesSettingView {
        MultipleValuesSettingView {
            filter: self.filter.deep_view(),
            move_value_type: self.move_value_type,
            value_type: self.value_type,
            scale_x: self.scale_x,
            scale_y: self.scale_y,
            shear_x: self.shear_x,
            shear_y: self.shear_y,
            position_x: self.position_x,
            position_y: self.position_y,
            rotation_x: self.rotation_x,
            rotation_y: self.rotation_y,
            rotation_z: self.rotation_z,
        }
    }
}

/// Settings of the single-value move filter: one named scalar setting
/// plus the fields specific to the blur and SDF-effects filters, which a
/// partial update must carry forward unchanged.
#[derive(PartialEq, Eq, Debug)]
pub struct MoveSingleValueSetting {
    pub source: Option<String>,
    pub filter: String,
    pub duration: Option<u32>,
    pub move_value_type: Option<u32>,
    pub setting_float: i64,
    pub setting_float_max: i64,
    pub setting_float_min: i64,
    pub setting_name: String,
    pub value_type: u32,
    pub filter_blur_size: Option<i64>,
    pub glow_inner: Option<bool>,
    pub glow_outer: Option<bool>,
    pub shadow_outer: Option<bool>,
    pub shadow_inner: Option<bool>,
    pub outline: Option<bool>,
}

/// Mathematical value of a [`MoveSingleValueSetting`] record.
pub struct SingleValueSettingView {
    pub source: Option<Seq<char>>,
    pub filter: Seq<char>,
    pub duration: Option<u32>,
    pub move_value_type: Option<u32>,
    pub setting_float: i64,
    pub setting_float_max: i64,
    pub setting_float_min: i64,
    pub setting_name: Seq<char>,
    pub value_type: u32,
    pub filter_blur_size: Option<i64>,
    pub glow_inner: Option<bool>,
    pub glow_outer: Option<bool>,
    pub shadow_outer: Option<bool>,
    pub shadow_inner: Option<bool>,
    pub outline: Option<bool>,
}

impl View for MoveSingleValueSetting {
    type V = SingleValueSettingView;

    open spec fn view(&self) -> SingleValueSettingView {
        SingleValueSettingView {
            source: self.source.deep_view(),
            filter: self.filter@,
            duration: self.duration,
            move_value_type: self.move_value_type,
            setting_float: self.setting_float,
            setting_float_max: self.setting_float_max,
            setting_float_min: self.setting_float_min,
            setting_name: self.setting_name@,
            value_type: self.value_type,
            filter_blur_size: self.filter_blur_size,
            glow_inner: self.glow_inner,
            glow_outer: self.glow_outer,
            shadow_outer: self.shadow_outer,
            shadow_inner: self.shadow_inner,
            outline: self.outline,
        }
    }
}

impl DeepView for MoveSingleValueSetting {
    type V = SingleValueSettingView;

    open spec fn deep_view(&self) -> SingleValueSettingView {
        self.view()
    }
}

impl Clone for MoveSingleValueSetting {
    fn clone(&self) -> (r: Self)
        ensures
            r@ == self@,
    {
        MoveSingleValueSetting {
            source: clone_opt_string(&self.source),
            filter: self.filter.clone(),
            duration: self.duration,
            move_value_type: self.move_value_type,
            setting_float: self.setting_float,
            setting_float_max: self.setting_float_max,
            setting_float_min: self.setting_float_min,
            setting_name: self.setting_name.clone(),
            value_type: self.value_type,
            filter_blur_size: self.filter_blur_size,
            glow_inner: self.glow_inner,
            glow_outer: self.glow_outer,
            shadow_outer: self.shadow_outer,
            shadow_inner: self.shadow_inner,
            outline: self.outline,
        }
    }
}

/// Settings of the text move filter.  Text filters are always fully
/// overwritten: there is no partial text field to preserve, so no merge
/// step exists for them.
#[derive(PartialEq, Eq, Debug)]
pub struct MoveTextFilter {
    pub setting_name: String,
    pub value_type: u32,
    pub setting_text: String,
    pub duration: Option<u32>,
    pub custom_duration: bool,
    pub easing_match: Option<u32>,
    pub setting_decimals: Option<u32>,
    pub move_value_type: Option<u32>,
}

/// Mathematical value of a [`MoveTextFilter`] record.
pub struct TextFilterView {
    pub setting_name: Seq<char>,
    pub value_type: u32,
    pub setting_text: Seq<char>,
    pub duration: Option<u32>,
    pub custom_duration: bool,
    pub easing_match: Option<u32>,
    pub setting_decimals: Option<u32>,
    pub move_value_type: Option<u32>,
}

impl View for MoveTextFilter {
    type V = TextFilterView;

    open spec fn view(&self) -> TextFilterView {
        TextFilterView {
            setting_name: self.setting_name@,
            value_type: self.value_type,
            setting_text: self.setting_text@,
            duration: self.duration,
            custom_duration: self.custom_duration,
            easing_match: self.easing_match,
            setting_decimals: self.setting_decimals,
            move_value_type: self.move_value_type,
        }
    }
}

impl Clone for MoveTextFilter {
    fn clone(&self) -> (r: Self)
        ensures
            r@ == self@,
    {
        MoveTextFilter {
            setting_name: self.setting_name.clone(),
            value_type: self.value_type,
            setting_text: self.setting_text.clone(),
            duration: self.duration,
            custom_duration: self.custom_duration,
            easing_match: self.easing_match,
            setting_decimals: self.setting_decimals,
            move_value_type: self.move_value_type,
        }
    }
}

// ======================================================================
// == Defaults ==========================================================
// ======================================================================

/// The all-absent settings record used when nothing could be fetched.
pub open spec fn zero_source_settings_view() -> SourceFilterSettingsView {
    SourceFilterSettingsView {
        crop: None,
        bounds: None,
        position: None,
        scale: None,
        duration: None,
        source: None,
        transform_text: None,
    }
}

impl Default for MoveSourceFilterSettings {
    fn default() -> (r: Self)
        ensures
            r@ == zero_source_settings_view(),
    {
        MoveSourceFilterSettings {
            crop: None,
            bounds: None,
            position: None,
            scale: None,
            duration: None,
            source: None,
            transform_text: None,
        }
    }
}

/// The zero-valued single-value record substituted when the fetch or the
/// decoding of the remote settings fails: the orchestrator makes progress
/// even against a not-yet-created filter.
pub open spec fn zero_single_value_view() -> SingleValueSettingView {
    SingleValueSettingView {
        source: None,
        filter: Seq::<char>::empty(),
        duration: None,
        move_value_type: None,
        setting_float: 0,
        setting_float_max: 0,
        setting_float_min: 0,
        setting_name: Seq::<char>::empty(),
        value_type: 0,
        filter_blur_size: None,
        glow_inner: None,
        glow_outer: None,
        shadow_outer: None,
        shadow_inner: None,
        outline: None,
    }
}

impl Default for MoveSingleValueSetting {
    fn default() -> (r: Self)
        ensures
            r@ == zero_single_value_view(),
    {
        MoveSingleValueSetting {
            source: None,
            filter: String::new(),
            duration: None,
            move_value_type: None,
            setting_float: 0,
            setting_float_max: 0,
            setting_float_min: 0,
            setting_name: String::new(),
            value_type: 0,
            filter_blur_size: None,
            glow_inner: None,
            glow_outer: None,
            shadow_outer: None,
            shadow_inner: None,
            outline: None,
        }
    }
}

/// The orthographic projection preset of the 3-D transform filter.
pub fn default_orthographic_settings() -> (r: MoveMultipleValuesSetting)
    ensures
        r@ == (MultipleValuesSettingView {
            filter: Some("3D_Orthographic"@),
            move_value_type: Some(1u32),
            value_type: Some(0u32),
            scale_x: Some(100i64),
            scale_y: Some(100i64),
            shear_x: Some(0i64),
            shear_y: Some(0i64),
            position_x: Some(0i64),
            position_y: Some(0i64),
            rotation_x: Some(0i64),
            rotation_y: Some(0i64),
            rotation_z: Some(0i64),
        }),
{
    let filter = String::from_str("3D_Orthographic");
    MoveMultipleValuesSetting {
        filter: Some(filter),
        move_value_type: Some(1),
        value_type: Some(0),
        position_x: Some(0),
        position_y: Some(0),
        rotation_x: Some(0),
        rotation_y: Some(0),
        rotation_z: Some(0),
        scale_x: Some(100),
        scale_y: Some(100),
        shear_x: Some(0),
        shear_y: Some(0),
    }
}

/// The perspective preset is not defined yet.
pub fn default_perspective_settings() {
}

/// The corner-pin preset is not defined yet.
pub fn default_corner_pin_settings() {
}

// ======================================================================
// == The merge =========================================================
// ======================================================================

/// The merged single-value record: the caller's partial change overwrites
/// exactly the named scalar setting, its value, the duration and the
/// value-type tag; every other field is carried forward from the fetched
/// record, or from the zero-valued default when nothing was fetched.
pub open spec fn merged_single_value(
    fetched: Option<SingleValueSettingView>,
    setting_name: Seq<char>,
    value: i64,
    duration: u32,
    value_type: u32,
) -> SingleValueSettingView {
    let base = match fetched {
        Some(f) => f,
        None => zero_single_value_view(),
    };
    SingleValueSettingView {
        setting_name: setting_name,
        setting_float: value,
        duration: Some(duration),
        value_type: value_type,
        source: base.source,
        filter: base.filter,
        move_value_type: base.move_value_type,
        setting_float_max: base.setting_float_max,
        setting_float_min: base.setting_float_min,
        filter_blur_size: base.filter_blur_size,
        glow_inner: base.glow_inner,
        glow_outer: base.glow_outer,
        shadow_outer: base.shadow_outer,
        shadow_inner: base.shadow_inner,
        outline: base.outline,
    }
}

/// Applies a caller's partial change over the fetched settings of a
/// single-value filter.  `fetched` is `None` when the fetch or the
/// decoding failed; the zero-valued default takes its place, so the merge
/// is deterministic and field-complete either way.
pub fn merge_single_value_settings(
    fetched: Option<MoveSingleValueSetting>,
    setting_name: &str,
    value: i64,
    duration: u32,
    value_type: u32,
) -> (r: MoveSingleValueSetting)
    ensures
        r@ == merged_single_value(
            fetched.deep_view(),
            setting_name@,
            value,
            duration,
            value_type,
        ),
{
    let mut base = match fetched {
        Some(f) => f,
        None => MoveSingleValueSetting::default(),
    };
    base.setting_name = String::from_str(setting_name);
    base.setting_float = value;
    base.duration = Some(duration);
    base.value_type = value_type;
    base
}

/// Round-trip law: the merge overwrites exactly the four named fields and
/// preserves every field of the fetched snapshot it does not name —
/// independent of fetch success, since the zero-valued fallback is itself
/// deterministic and field-complete.
pub proof fn lemma_merge_preserves_unnamed_fields(
    fetched: Option<SingleValueSettingView>,
    setting_name: Seq<char>,
    value: i64,
    duration: u32,
    value_type: u32,
)
    ensures
        ({
            let base = match fetched {
                Some(f) => f,
                None => zero_single_value_view(),
            };
            let r = merged_single_value(fetched, setting_name, value, duration, value_type);
            &&& r.setting_name == setting_name
            &&& r.setting_float == value
            &&& r.duration == Some(duration)
            &&& r.value_type == value_type
            &&& r.source == base.source
            &&& r.filter == base.filter
            &&& r.move_value_type == base.move_value_type
            &&& r.setting_float_max == base.setting_float_max
            &&& r.setting_float_min == base.setting_float_min
            &&& r.filter_blur_size == base.filter_blur_size
            &&& r.glow_inner == base.glow_inner
            &&& r.glow_outer == base.glow_outer
            &&& r.shadow_outer == base.shadow_outer
            &&& r.shadow_inner == base.shadow_inner
            &&& r.outline == base.outline
        }),
{
}

/// Idempotence law: issuing the same single-value update twice in
/// succession yields the same final settings record — merging the change
/// over its own result changes nothing.
pub proof fn lemma_merge_idempotent(
    fetched: Option<SingleValueSettingView>,
    setting_name: Seq<char>,
    value: i64,
    duration: u32,
    value_type: u32,
)
    ensures
        merged_single_value(
            Some(merged_single_value(fetched, setting_name, value, duration, value_type)),
            setting_name,
            value,
            duration,
            value_type,
        ) == merged_single_value(fetched, setting_name, value, duration, value_type),
{
}

// ======================================================================
// == Operations and plans ==============================================
// ======================================================================

/// The settings payload of a settings write.
#[derive(PartialEq, Eq, Debug)]
pub enum FilterSettings {
    SingleValue(MoveSingleValueSetting),
    Text(MoveTextFilter),
    Source(MoveSourceFilterSettings),
}

/// Mathematical value of a [`FilterSettings`] payload.
pub enum FilterSettingsView {
    SingleValue(SingleValueSettingView),
    Text(TextFilterView),
    Source(SourceFilterSettingsView),
}

impl View for FilterSettings {
    type V = FilterSettingsView;

    open spec fn view(&self) -> FilterSettingsView {
        match self {
            FilterSettings::SingleValue(s) => FilterSettingsView::SingleValue(s@),
            FilterSettings::Text(s) => FilterSettingsView::Text(s@),
            FilterSettings::Source(s) => FilterSettingsView::Source(s@),
        }
    }
}

/// One step of a read-modify-write sequence against the remote service.
/// The surrounding program executes these in order.
#[derive(PartialEq, Eq, Debug)]
pub enum RemoteOp {
    /// Push a settings record to the filter of an object.
    SetSettings { source: String, filter: String, settings: FilterSettings, overlay: Option<
        bool,
    > },
    /// Wait for the remote service to internalise the previous write.
    Sleep { ms: u64 },
    /// Toggle the filter, making the written settings take visible effect.
    SetEnabled { source: String, filter: String, enabled: bool },
}

/// Mathematical value of a [`RemoteOp`].
pub enum RemoteOpView {
    SetSettings {
        source: Seq<char>,
        filter: Seq<char>,
        settings: FilterSettingsView,
        overlay: Option<bool>,
    },
    Sleep { ms: u64 },
    SetEnabled { source: Seq<char>, filter: Seq<char>, enabled: bool },
}

impl View for RemoteOp {
    type V = RemoteOpView;

    open spec fn view(&self) -> RemoteOpView {
        match self {
            RemoteOp::SetSettings { source, filter, settings, overlay } => (
            RemoteOpView::SetSettings {
                source: source@,
                filter: filter@,
                settings: settings@,
                overlay: *overlay,
            }),
            RemoteOp::Sleep { ms } => (RemoteOpView::Sleep { ms: *ms }),
            RemoteOp::SetEnabled { source, filter, enabled } => (RemoteOpView::SetEnabled {
                source: source@,
                filter: filter@,
                enabled: *enabled,
            }),
        }
    }
}

impl DeepView for RemoteOp {
    type V = RemoteOpView;

    open spec fn deep_view(&self) -> RemoteOpView {
        self.view()
    }
}

/// The plan of a single-value filter update: write the merged settings,
/// wait the settle delay, enable the filter.
pub open spec fn single_value_plan_view(
    source: Seq<char>,
    filter_name: Seq<char>,
    merged: SingleValueSettingView,
) -> Seq<RemoteOpView> {
    seq![
        RemoteOpView::SetSettings {
            source: source,
            filter: filter_name,
            settings: FilterSettingsView::SingleValue(merged),
            overlay: None,
        },
        RemoteOpView::Sleep { ms: SETTLE_DELAY_MS },
        RemoteOpView::SetEnabled { source: source, filter: filter_name, enabled: true },
    ]
}

/// The single-value filter update, as a plan.
///
/// The caller fetched the current settings of `(source, filter_name)`
/// beforehand — `fetched` is `None` when that fetch or its decoding
/// failed — and the plan merges the partial change over them, pushes the
/// merged record, waits the settle delay, and triggers the filter.
/// Executing the enable step is best-effort: a transient failure there
/// leaves the settings applied, which callers treat as success.
pub fn update_and_trigger_move_value_filter(
    source: &str,
    filter_name: &str,
    filter_setting_name: &str,
    filter_value: i64,
    duration: u32,
    value_type: u32,
    fetched: Option<MoveSingleValueSetting>,
) -> (plan: Vec<RemoteOp>)
    ensures
        plan.deep_view() == single_value_plan_view(
            source@,
            filter_name@,
            merged_single_value(
                fetched.deep_view(),
                filter_setting_name@,
                filter_value,
                duration,
                value_type,
            ),
        ),
{
    let merged = merge_single_value_settings(
        fetched,
        filter_setting_name,
        filter_value,
        duration,
        value_type,
    );
    let mut plan: Vec<RemoteOp> = Vec::new();
    plan.push(
        RemoteOp::SetSettings {
            source: String::from_str(source),
            filter: String::from_str(filter_name),
            settings: FilterSettings::SingleValue(merged),
            overlay: None,
        },
    );
    plan.push(RemoteOp::Sleep { ms: SETTLE_DELAY_MS });
    plan.push(
        RemoteOp::SetEnabled {
            source: String::from_str(source),
            filter: String::from_str(filter_name),
            enabled: true,
        },
    );
    proof {
        assert(plan.deep_view() =~= single_value_plan_view(
            source@,
            filter_name@,
            merged_single_value(
                fetched.deep_view(),
                filter_setting_name@,
                filter_value,
                duration,
                value_type,
            ),
        ));
    }
    plan
}

/// The text record written by a text update: fully overwritten, never
/// merged.
pub open spec fn text_update_settings_view(new_text: Seq<char>) -> TextFilterView {
    TextFilterView {
        setting_name: "text"@,
        value_type: 4u32,
        setting_text: new_text,
        duration: Some(TEXT_SETTLE_DELAY_MS as u32),
        custom_duration: true,
        easing_match: None,
        setting_decimals: Some(1u32),
        move_value_type: Some(4u32),
    }
}

/// The plan of a text update: write the full text record, wait the
/// shorter text settle delay, enable the filter.
pub open spec fn text_plan_view(
    source: Seq<char>,
    filter_name: Seq<char>,
    new_text: Seq<char>,
) -> Seq<RemoteOpView> {
    seq![
        RemoteOpView::SetSettings {
            source: source,
            filter: filter_name,
            settings: FilterSettingsView::Text(text_update_settings_view(new_text)),
            overlay: None,
        },
        RemoteOpView::Sleep { ms: TEXT_SETTLE_DELAY_MS },
        RemoteOpView::SetEnabled { source: source, filter: filter_name, enabled: true },
    ]
}

/// The text-update variant of the protocol, as a plan.  The fetch step is
/// skipped — text filters are always fully overwritten — and the settle
/// delay is shorter.
pub fn update_and_trigger_text_move_filter(source: &str, filter_name: &str, new_text: &String) -> (
    plan: Vec<RemoteOp>)
    ensures
        plan.deep_view() == text_plan_view(source@, filter_name@, new_text@),
{
    let settings = MoveTextFilter {
        setting_name: String::from_str("text"),
        value_type: 4,
        setting_text: new_text.clone(),
        duration: Some(300),
        custom_duration: true,
        easing_match: None,
        setting_decimals: Some(1),
        move_value_type: Some(4),
    };
    let mut plan: Vec<RemoteOp> = Vec::new();
    plan.push(
        RemoteOp::SetSettings {
            source: String::from_str(source),
            filter: String::from_str(filter_name),
            settings: FilterSettings::Text(settings),
            overlay: None,
        },
    );
    plan.push(RemoteOp::Sleep { ms: TEXT_SETTLE_DELAY_MS });
    plan.push(
        RemoteOp::SetEnabled {
            source: String::from_str(source),
            filter: String::from_str(filter_name),
            enabled: true,
        },
    );
    proof {
        assert(plan.deep_view() =~= text_plan_view(source@, filter_name@, new_text@));
    }
    plan
}

/// The default scene holding the sources that compound effects move.
pub fn default_scene() -> (s: &'static str)
    ensures
        s@ == "Primary"@,
{
    "Primary"
}

/// The settings-write step of a move-source update, as a one-operation
/// plan: the record is pushed without overlaying over existing values.
pub fn update_move_source_filters(
    source: &str,
    filter_name: &str,
    new_settings: MoveSourceFilterSettings,
) -> (plan: Vec<RemoteOp>)
    ensures
        plan.deep_view() == seq![
            RemoteOpView::SetSettings {
                source: source@,
                filter: filter_name@,
                settings: FilterSettingsView::Source(new_settings@),
                overlay: Some(false),
            },
        ],
{
    let mut plan: Vec<RemoteOp> = Vec::new();
    plan.push(
        RemoteOp::SetSettings {
            source: String::from_str(source),
            filter: String::from_str(filter_name),
            settings: FilterSettings::Source(new_settings),
            overlay: Some(false),
        },
    );
    proof {
        assert(plan.deep_view() =~= seq![
            RemoteOpView::SetSettings {
                source: source@,
                filter: filter_name@,
                settings: FilterSettingsView::Source(new_settings@),
                overlay: Some(false),
            },
        ]);
    }
    plan
}

/// Updates the named move-source filter on the default scene with the
/// given settings and triggers it, as a plan.
pub fn move_with_move_source(filter_name: &str, new_settings: MoveSourceFilterSettings) -> (
    plan: Vec<RemoteOp>)
    ensures
        plan.deep_view() == seq![
            RemoteOpView::SetSettings {
                source: "Primary"@,
                filter: filter_name@,
                settings: FilterSettingsView::Source(new_settings@),
                overlay: Some(false),
            },
            RemoteOpView::SetEnabled { source: "Primary"@, filter: filter_name@, enabled: true },
        ],
{
    let scene = default_scene();
    let mut plan = update_move_source_filters(scene, filter_name, new_settings);
    let ghost prior = plan@;
    let ghost prior_dv = plan.deep_view();
    proof {
        assert(prior_dv.len() == 1);
        assert(prior.len() == 1);
    }
    plan.push(
        RemoteOp::SetEnabled {
            source: String::from_str(scene),
            filter: String::from_str(filter_name),
            enabled: true,
        },
    );
    proof {
        assert(plan@.len() == 2);
        assert(plan.deep_view().len() == 2);
        assert(plan@[0] == prior[0]);
        assert(plan.deep_view()[0] == plan@[0].deep_view());
        assert(prior_dv[0] == prior[0].deep_view());
        assert(plan.deep_view()[0] == (RemoteOpView::SetSettings {
            source: "Primary"@,
            filter: filter_name@,
            settings: FilterSettingsView::Source(new_settings@),
            overlay: Some(false),
        }));
        assert(plan.deep_view()[1] == (RemoteOpView::SetEnabled {
            source: "Primary"@,
            filter: filter_name@,
            enabled: true,
        }));
        assert(plan.deep_view() =~= seq![
            RemoteOpView::SetSettings {
                source: "Primary"@,
                filter: filter_name@,
                settings: FilterSettingsView::Source(new_settings@),
                overlay: Some(false),
            },
            RemoteOpView::SetEnabled { source: "Primary"@, filter: filter_name@, enabled: true },
        ]);
    }
    plan
}

// ======================================================================
// == Fetching ==========================================================
// ======================================================================

/// A scene item's transform as reported by the remote service.
#[derive(Clone, Copy, PartialEq, Eq, Structural, Debug)]
pub struct SceneItemTransform {
    pub position_x: i64,
    pub position_y: i64,
    pub bounds_width: i64,
    pub bounds_height: i64,
    pub scale_x: i64,
    pub scale_y: i64,
    pub crop_left: i64,
    pub crop_top: i64,
    pub crop_right: i64,
    pub crop_bottom: i64,
}

/// The all-zero transform substituted when the transform fetch fails.
pub open spec fn zero_transform() -> SceneItemTransform {
    SceneItemTransform {
        position_x: 0,
        position_y: 0,
        bounds_width: 0,
        bounds_height: 0,
        scale_x: 0,
        scale_y: 0,
        crop_left: 0,
        crop_top: 0,
        crop_right: 0,
        crop_bottom: 0,
    }
}

/// What the two round trips behind a source-settings fetch produced.
#[derive(Clone, Copy, PartialEq, Eq, Debug)]
pub enum SourceFetch {
    /// The source could not be found in the scene.
    MissingSource,
    /// The source was found but its transform could not be fetched.
    MissingTransform,
    /// The source's transform.
    Fetched(SceneItemTransform),
}

/// The text form of a transform, as the remote service renders it.
pub open spec fn transform_text_of(t: SceneItemTransform) -> Seq<char> {
    "pos: x "@ + int_str(t.position_x as int) + " y "@ + int_str(t.position_y as int)
        + " rot: 0.0 bounds: x "@ + int_str(t.bounds_width as int) + " y "@ + int_str(
        t.bounds_height as int,
    ) + " crop: l "@ + int_str(t.crop_left as int) + " t "@ + int_str(t.crop_top as int) + " r "@
        + int_str(t.crop_right as int) + " b "@ + int_str(t.crop_bottom as int)
}

/// Renders the text form of a transform.
pub fn render_transform_text(t: &SceneItemTransform) -> (s: String)
    ensures
        s@ == transform_text_of(*t),
{
    let mut s = String::from_str("pos: x ");
    s.append(i64_to_string(t.position_x).as_str());
    s.append(" y ");
    s.append(i64_to_string(t.position_y).as_str());
    s.append(" rot: 0.0 bounds: x ");
    s.append(i64_to_string(t.bounds_width).as_str());
    s.append(" y ");
    s.append(i64_to_string(t.bounds_height).as_str());
    s.append(" crop: l ");
    s.append(i64_to_string(t.crop_left).as_str());
    s.append(" t ");
    s.append(i64_to_string(t.crop_top).as_str());
    s.append(" r ");
    s.append(i64_to_string(t.crop_right).as_str());
    s.append(" b ");
    s.append(i64_to_string(t.crop_bottom).as_str());
    proof {
        assert(s@ =~= transform_text_of(*t));
    }
    s
}

/// The settings record built from a fetched transform.
pub open spec fn source_settings_view(source: Seq<char>, t: SceneItemTransform) -> SourceFilterSettingsView {
    SourceFilterSettingsView {
        source: Some(source),
        duration: Some(FETCHED_SETTINGS_DURATION_MS),
        bounds: Some(Coordinates { x: Some(t.bounds_width), y: Some(t.bounds_height) }),
        scale: Some(Coordinates { x: Some(t.scale_x), y: Some(t.scale_y) }),
        position: Some(Coordinates { x: Some(t.position_x), y: Some(t.position_y) }),
        crop: Some(
            MoveSourceCropSetting {
                left: Some(t.crop_left),
                right: Some(t.crop_right),
                bottom: Some(t.crop_bottom),
                top: Some(t.crop_top),
            },
        ),
        transform_text: Some(transform_text_of(t)),
    }
}

/// Builds the move-source settings of `source` from what the fetch round
/// trips produced.  A missing source yields the all-absent record; a
/// missing transform falls back to the all-zero transform; neither case
/// aborts the sequence.
pub fn fetch_source_settings(source: &str, fetch: SourceFetch) -> (r: MoveSourceFilterSettings)
    ensures
        r@ == match fetch {
            SourceFetch::MissingSource => zero_source_settings_view(),
            SourceFetch::MissingTransform => source_settings_view(source@, zero_transform()),
            SourceFetch::Fetched(t) => source_settings_view(source@, t),
        },
{
    let t = match fetch {
        SourceFetch::MissingSource => {
            return MoveSourceFilterSettings::default();
        },
        SourceFetch::MissingTransform => SceneItemTransform {
            position_x: 0,
            position_y: 0,
            bounds_width: 0,
            bounds_height: 0,
            scale_x: 0,
            scale_y: 0,
            crop_left: 0,
            crop_top: 0,
            crop_right: 0,
            crop_bottom: 0,
        },
        SourceFetch::Fetched(t) => t,
    };
    let transform_text = render_transform_text(&t);
    MoveSourceFilterSettings {
        source: Some(String::from_str(source)),
        duration: Some(4444),
        bounds: Some(Coordinates { x: Some(t.bounds_width), y: Some(t.bounds_height) }),
        scale: Some(Coordinates { x: Some(t.scale_x), y: Some(t.scale_y) }),
        position: Some(Coordinates { x: Some(t.position_x), y: Some(t.position_y) }),
        crop: Some(
            MoveSourceCropSetting {
                left: Some(t.crop_left),
                right: Some(t.crop_right),
                bottom: Some(t.crop_bottom),
                top: Some(t.crop_top),
            },
        ),
        transform_text: Some(transform_text),
    }
}

/// Places a source at the given position: the position is overwritten,
/// every other field of the base settings is kept.
pub fn custom_filter_settings(base_settings: MoveSourceFilterSettings, x: i64, y: i64) -> (
    r: MoveSourceFilterSettings)
    ensures
        r@ == (SourceFilterSettingsView {
            position: Some(Coordinates { x: Some(x), y: Some(y) }),
            ..base_settings@
        }),
{
    let mut base_settings = base_settings;
    base_settings.position = Some(Coordinates { x: Some(x), y: Some(y) });
    base_settings
}

} // verus!
