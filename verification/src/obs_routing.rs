//! The command router: a pure mapping from a parsed chat line and the
//! caller's roles to the remote-state requests it should cause.
//!
//! Routing policy:
//! - unknown command words are a no-op, never an error;
//! - missing or malformed optional arguments fall back to the documented
//!   per-command defaults (target object, magnitude, duration);
//! - role-gated commands issued without the required role are silently
//!   accepted and produce no request;
//! - a missing mandatory argument (the setting name of the generic 3-D
//!   transform command) fails that one command with an explicit error.
//!
//! The dispatch table, positional arguments after the command word:
//! - `!blur [amount] [source]` — elevated role; sets the blur size.
//! - `!unblur [source]` / `!noblur [source]` — trusted role; blur to zero.
//! - `!scroll [speed] [source]` — sets the horizontal scroll speed.
//! - `!3d <setting> [value] [source]` — sets one 3-D transform setting;
//!   the setting name is mandatory.

use vstd::prelude::*;
use vstd::string::StrSliceExecFns;
use vstd::string::StringExecFns;

use crate::move_transition::MoveSingleValueSetting;
use crate::move_transition::RemoteOp;
use crate::move_transition::single_value_plan_view;
use crate::move_transition::merged_single_value;
use crate::move_transition::update_and_trigger_move_value_filter;
use crate::text::all_digits;
use crate::text::dec_val;
use crate::text::parse_u64;
use crate::text::str_eq;
use crate::text::split_spaces;
use crate::text::split_words;
use crate::types::Event;
use crate::types::UserRoles;

verus! {

/// Magnitude used when a numeric argument is missing or malformed.
pub const DEFAULT_FILTER_VALUE: i64 = 100;

/// Duration stamped on routed filter updates.
pub const DEFAULT_DURATION_MS: u32 = 3000;

/// Value-type tag of a numeric single-value setting.
pub const SINGLE_VALUE_TYPE: u32 = 2;

/// The object a command falls back to when no target is named.
pub fn default_source() -> (s: &'static str)
    ensures
        s@ == "begin"@,
{
    "begin"
}

/// One orchestration request: a single-value filter update against
/// `(source, filter)`, handed to the transform orchestrator.
#[derive(PartialEq, Eq, Debug)]
pub struct MoveValueRequest {
    pub source: String,
    pub filter: String,
    pub setting_name: String,
    pub value: i64,
    pub duration: u32,
    pub value_type: u32,
}

/// Mathematical value of a [`MoveValueRequest`].
pub struct MoveValueRequestView {
    pub source: Seq<char>,
    pub filter: Seq<char>,
    pub setting_name: Seq<char>,
    pub value: i64,
    pub duration: u32,
    pub value_type: u32,
}

impl View for MoveValueRequest {
    type V = MoveValueRequestView;

    open spec fn view(&self) -> MoveValueRequestView {
        MoveValueRequestView {
            source: self.source@,
            filter: self.filter@,
            setting_name: self.setting_name@,
            value: self.value,
            duration: self.duration,
            value_type: self.value_type,
        }
    }
}

impl DeepView for MoveValueRequest {
    type V = MoveValueRequestView;

    open spec fn deep_view(&self) -> MoveValueRequestView {
        self.view()
    }
}

impl Clone for MoveValueRequest {
    fn clone(&self) -> (r: Self)
        ensures
            r@ == self@,
    {
        MoveValueRequest {
            source: self.source.clone(),
            filter: self.filter.clone(),
            setting_name: self.setting_name.clone(),
            value: self.value,
            duration: self.duration,
            value_type: self.value_type,
        }
    }
}

/// Why a single command invocation failed.  Failures never propagate past
/// the one invocation: the handler logs them and keeps receiving.
#[derive(Clone, Copy, PartialEq, Eq, Structural, Debug)]
pub enum CommandError {
    /// The generic 3-D transform command was issued without the setting
    /// name it requires.
    MissingSettingName,
}

impl CommandError {
    /// A human-readable description of the failure.
    pub fn message(&self) -> (s: String)
        ensures
            s@ == "the 3-D transform command needs a setting name"@,
    {
        String::from_str("the 3-D transform command needs a setting name")
    }
}

/// The numeric argument at position `i`, or `default` when it is absent,
/// not a numeral, or out of range.
pub open spec fn parsed_amount(w: Seq<Seq<char>>, i: int, default: i64) -> i64 {
    if 0 <= i < w.len() && w[i].len() > 0 && all_digits(w[i]) && dec_val(w[i]) <= i64::MAX {
        dec_val(w[i]) as i64
    } else {
        default
    }
}

/// The target object named at position `i`, or the default source when
/// the argument is absent or empty.
pub open spec fn target_source(w: Seq<Seq<char>>, i: int) -> Seq<char> {
    if 0 <= i < w.len() && w[i].len() > 0 {
        w[i]
    } else {
        "begin"@
    }
}

/// The request caused by a blur-family command.
pub open spec fn blur_request(w: Seq<Seq<char>>, source_pos: int, value: i64) -> MoveValueRequestView {
    MoveValueRequestView {
        source: target_source(w, source_pos),
        filter: "Move_Blur"@,
        setting_name: "Filter.Blur.Size"@,
        value: value,
        duration: DEFAULT_DURATION_MS,
        value_type: SINGLE_VALUE_TYPE,
    }
}

/// The pure routing table: what a word list and the caller's roles map
/// to.  `Ok` carries zero or more orchestration requests; `Err` is the
/// explicit failure of a command missing a mandatory argument.
pub open spec fn routed(w: Seq<Seq<char>>, roles: UserRoles) -> Result<
    Seq<MoveValueRequestView>,
    CommandError,
> {
    if w.len() == 0 {
        Ok(seq![])
    } else if w[0] == "!blur"@ {
        if roles.spec_is_elevated() {
            Ok(seq![blur_request(w, 2, parsed_amount(w, 1, DEFAULT_FILTER_VALUE))])
        } else {
            Ok(seq![])
        }
    } else if w[0] == "!unblur"@ || w[0] == "!noblur"@ {
        if roles.spec_is_trusted() {
            Ok(seq![blur_request(w, 1, 0)])
        } else {
            Ok(seq![])
        }
    } else if w[0] == "!scroll"@ {
        Ok(
            seq![
                MoveValueRequestView {
                    source: target_source(w, 2),
                    filter: "Move_Scroll"@,
                    setting_name: "speed_x"@,
                    value: parsed_amount(w, 1, DEFAULT_FILTER_VALUE),
                    duration: DEFAULT_DURATION_MS,
                    value_type: SINGLE_VALUE_TYPE,
                },
            ],
        )
    } else if w[0] == "!3d"@ {
        if 1 < w.len() && w[1].len() > 0 {
            Ok(
                seq![
                    MoveValueRequestView {
                        source: target_source(w, 3),
                        filter: "Move_3D_Transform"@,
                        setting_name: w[1],
                        value: parsed_amount(w, 2, DEFAULT_FILTER_VALUE),
                        duration: DEFAULT_DURATION_MS,
                        value_type: SINGLE_VALUE_TYPE,
                    },
                ],
            )
        } else {
            Err(CommandError::MissingSettingName)
        }
    } else {
        Ok(seq![])
    }
}

/// Law: a command that references its mandatory argument but does not
/// supply it yields the explicit error — and therefore no requests.
pub proof fn lemma_missing_mandatory_argument_is_error(w: Seq<Seq<char>>, roles: UserRoles)
    requires
        w.len() >= 1,
        w[0] == "!3d"@,
        !(1 < w.len() && w[1].len() > 0),
    ensures
        routed(w, roles) == Err::<Seq<MoveValueRequestView>, CommandError>(
            CommandError::MissingSettingName,
        ),
{
    reveal_strlit("!3d");
    reveal_strlit("!blur");
    reveal_strlit("!unblur");
    reveal_strlit("!noblur");
    reveal_strlit("!scroll");
    assert("!3d"@.len() == 3);
    assert("!blur"@.len() == 5);
    assert("!unblur"@.len() == 7);
    assert("!noblur"@.len() == 7);
    assert("!scroll"@.len() == 7);
    assert(w[0] != "!blur"@ && w[0] != "!unblur"@ && w[0] != "!noblur"@ && w[0] != "!scroll"@);
}

/// Law: a role-gated command issued by a caller lacking the required
/// role is silently accepted and produces zero requests.
pub proof fn lemma_ungated_caller_causes_no_requests(w: Seq<Seq<char>>, roles: UserRoles)
    requires
        w.len() >= 1,
        w[0] == "!blur"@,
        !roles.spec_is_elevated(),
    ensures
        routed(w, roles) == Ok::<Seq<MoveValueRequestView>, CommandError>(Seq::empty()),
{
    assert(routed(w, roles) matches Ok(reqs) && reqs =~= Seq::<MoveValueRequestView>::empty());
}

fn amount_arg(words: &Vec<String>, i: usize, default: i64) -> (r: i64)
    ensures
        r == parsed_amount(words.deep_view(), i as int, default),
{
    proof {
        assert(words.deep_view().len() == words@.len());
    }
    if i < words.len() {
        proof {
            assert(words.deep_view()[i as int] == words@[i as int]@);
        }
        match parse_u64(words[i].as_str()) {
            Some(v) => {
                if v <= i64::MAX as u64 {
                    v as i64
                } else {
                    default
                }
            },
            None => default,
        }
    } else {
        default
    }
}

fn source_arg(words: &Vec<String>, i: usize) -> (r: String)
    ensures
        r@ == target_source(words.deep_view(), i as int),
{
    proof {
        assert(words.deep_view().len() == words@.len());
    }
    if i < words.len() {
        proof {
            assert(words.deep_view()[i as int] == words@[i as int]@);
        }
        let w = &words[i];
        if !w.as_str().is_empty() {
            w.clone()
        } else {
            String::from_str(default_source())
        }
    } else {
        String::from_str(default_source())
    }
}

/// Routes one chat command: the word list is the chat line split on
/// spaces, the roles are the sender's.  Returns the orchestration
/// requests the command maps to under [`routed`].
pub fn handle_obs_commands(splitmsg: &Vec<String>, roles: UserRoles) -> (r: Result<
    Vec<MoveValueRequest>,
    CommandError,
>)
    ensures
        ({
            let spec_r = routed(splitmsg.deep_view(), roles);
            match r {
                Ok(reqs) => spec_r matches Ok(v) && reqs.deep_view() == v,
                Err(e) => spec_r matches Err(v) && v == e,
            }
        }),
{
    let ghost w = splitmsg.deep_view();
    proof {
        assert(w.len() == splitmsg@.len());
    }
    let mut reqs: Vec<MoveValueRequest> = Vec::new();
    if splitmsg.len() == 0 {
        proof {
            assert(reqs.deep_view() =~= Seq::<MoveValueRequestView>::empty());
        }
        return Ok(reqs);
    }
    proof {
        assert(w[0] == splitmsg@[0]@);
    }
    let head = splitmsg[0].as_str();
    if str_eq(head, "!blur") {
        if roles.is_elevated() {
            let value = amount_arg(splitmsg, 1, DEFAULT_FILTER_VALUE);
            reqs.push(
                MoveValueRequest {
                    source: source_arg(splitmsg, 2),
                    filter: String::from_str("Move_Blur"),
                    setting_name: String::from_str("Filter.Blur.Size"),
                    value,
                    duration: DEFAULT_DURATION_MS,
                    value_type: SINGLE_VALUE_TYPE,
                },
            );
            proof {
                assert(reqs.deep_view() =~= seq![blur_request(w, 2, parsed_amount(w, 1, DEFAULT_FILTER_VALUE))]);
            }
        } else {
            proof {
                assert(reqs.deep_view() =~= Seq::<MoveValueRequestView>::empty());
            }
        }
        Ok(reqs)
    } else if str_eq(head, "!unblur") || str_eq(head, "!noblur") {
        if roles.is_trusted() {
            reqs.push(
                MoveValueRequest {
                    source: source_arg(splitmsg, 1),
                    filter: String::from_str("Move_Blur"),
                    setting_name: String::from_str("Filter.Blur.Size"),
                    value: 0,
                    duration: DEFAULT_DURATION_MS,
                    value_type: SINGLE_VALUE_TYPE,
                },
            );
            proof {
                assert(reqs.deep_view() =~= seq![blur_request(w, 1, 0)]);
            }
        } else {
            proof {
                assert(reqs.deep_view() =~= Seq::<MoveValueRequestView>::empty());
            }
        }
        Ok(reqs)
    } else if str_eq(head, "!scroll") {
        let value = amount_arg(splitmsg, 1, DEFAULT_FILTER_VALUE);
        reqs.push(
            MoveValueRequest {
                source: source_arg(splitmsg, 2),
                filter: String::from_str("Move_Scroll"),
                setting_name: String::from_str("speed_x"),
                value,
                duration: DEFAULT_DURATION_MS,
                value_type: SINGLE_VALUE_TYPE,
            },
        );
        proof {
            assert(reqs.deep_view() =~= (routed(w, roles))->Ok_0);
        }
        Ok(reqs)
    } else if str_eq(head, "!3d") {
        let has_setting = if splitmsg.len() > 1 {
            proof {
                assert(w[1] == splitmsg@[1]@);
            }
            !splitmsg[1].as_str().is_empty()
        } else {
            false
        };
        if !has_setting {
            return Err(CommandError::MissingSettingName);
        }
        let value = amount_arg(splitmsg, 2, DEFAULT_FILTER_VALUE);
        reqs.push(
            MoveValueRequest {
                source: source_arg(splitmsg, 3),
                filter: String::from_str("Move_3D_Transform"),
                setting_name: splitmsg[1].clone(),
                value,
                duration: DEFAULT_DURATION_MS,
                value_type: SINGLE_VALUE_TYPE,
            },
        );
        proof {
            assert(reqs.deep_view() =~= (routed(w, roles))->Ok_0);
        }
        Ok(reqs)
    } else {
        proof {
            assert(routed(w, roles) == Ok::<Seq<MoveValueRequestView>, CommandError>(seq![]));
            assert(reqs.deep_view() =~= Seq::<MoveValueRequestView>::empty());
            assert(Seq::<MoveValueRequestView>::empty() =~= seq![]);
        }
        Ok(reqs)
    }
}

/// Turns an orchestration request into its read-modify-write plan, given
/// what the settings fetch for `(request.source, request.filter)`
/// produced.
pub fn request_plan(request: &MoveValueRequest, fetched: Option<MoveSingleValueSetting>) -> (
    plan: Vec<RemoteOp>)
    ensures
        plan.deep_view() == single_value_plan_view(
            request.source@,
            request.filter@,
            merged_single_value(
                fetched.deep_view(),
                request.setting_name@,
                request.value,
                request.duration,
                request.value_type,
            ),
        ),
{
    update_and_trigger_move_value_filter(
        request.source.as_str(),
        request.filter.as_str(),
        request.setting_name.as_str(),
        request.value,
        request.duration,
        request.value_type,
        fetched,
    )
}

/// The chat-command handler's decision for one bus event: a chat message
/// is split on spaces and routed; every other event is skipped, which is
/// never an error.
pub fn obs_message_step(event: &Event) -> (r: Option<Result<Vec<MoveValueRequest>, CommandError>>)
    ensures
        match event {
            Event::UserMessage(m) => match r {
                Some(res) => {
                    let spec_r = routed(split_spaces(m.contents@), m.roles);
                    match res {
                        Ok(reqs) => spec_r matches Ok(v) && reqs.deep_view() == v,
                        Err(e) => spec_r matches Err(v) && v == e,
                    }
                },
                None => false,
            },
            _ => r is None,
        },
{
    match event {
        Event::UserMessage(m) => {
            let words = split_words(m.contents.as_str());
            Some(handle_obs_commands(&words, m.roles))
        },
        _ => None,
    }
}

} // verus!
