//! The closed set of events carried by the bus, with their payloads.
//!
//! Events are immutable once published: the bus hands every subscriber its
//! own copy, so each payload type implements `Clone` with the guarantee
//! that the copy equals the original.

use vstd::prelude::*;

verus! {

/// Role flags attached to the sender of a chat message.
#[derive(Clone, Copy, PartialEq, Eq, Structural, Debug)]
pub struct UserRoles {
    pub is_broadcaster: bool,
    pub is_moderator: bool,
    pub is_vip: bool,
}

impl UserRoles {
    /// The privilege needed by commands reserved for the channel's staff.
    pub open spec fn spec_is_elevated(&self) -> bool {
        self.is_broadcaster || self.is_moderator
    }

    /// The lower privilege tier: anyone singled out by the channel.
    pub open spec fn spec_is_trusted(&self) -> bool {
        self.is_broadcaster || self.is_moderator || self.is_vip
    }

    #[verifier::when_used_as_spec(spec_is_elevated)]
    pub fn is_elevated(&self) -> (r: bool)
        ensures
            r == self.spec_is_elevated(),
    {
        self.is_broadcaster || self.is_moderator
    }

    #[verifier::when_used_as_spec(spec_is_trusted)]
    pub fn is_trusted(&self) -> (r: bool)
        ensures
            r == self.spec_is_trusted(),
    {
        self.is_broadcaster || self.is_moderator || self.is_vip
    }
}

/// One received chat line: sender identity, display text and role flags.
#[derive(PartialEq, Eq, Debug)]
pub struct UserMessage {
    pub user_name: String,
    pub contents: String,
    pub roles: UserRoles,
}

impl Clone for UserMessage {
    fn clone(&self) -> (r: Self)
        ensures
            r == *self,
    {
        UserMessage {
            user_name: self.user_name.clone(),
            contents: self.contents.clone(),
            roles: self.roles,
        }
    }
}

/// A request to synthesise speech for a chat message.
#[derive(PartialEq, Eq, Debug)]
pub struct UberDuckRequest {
    /// Text to show on the character's text source, already line-wrapped.
    pub message: String,
    /// Text handed to the speech vendor verbatim.
    pub voice_text: String,
    /// The requesting chat user; picks the voice and the visual source.
    pub username: String,
}

impl Clone for UberDuckRequest {
    fn clone(&self) -> (r: Self)
        ensures
            r == *self,
    {
        UberDuckRequest {
            message: self.message.clone(),
            voice_text: self.voice_text.clone(),
            username: self.username.clone(),
        }
    }
}

/// A request to rewrite the text shown by a remote text object.
#[derive(PartialEq, Eq, Debug)]
pub struct TransformOBSTextRequest {
    pub message: String,
    pub text_source: String,
}

impl Clone for TransformOBSTextRequest {
    fn clone(&self) -> (r: Self)
        ensures
            r == *self,
    {
        TransformOBSTextRequest {
            message: self.message.clone(),
            text_source: self.text_source.clone(),
        }
    }
}

/// A request to show or hide one source inside a scene.
#[derive(PartialEq, Eq, Debug)]
pub struct SourceVisibilityRequest {
    pub scene: String,
    pub source: String,
    pub enabled: bool,
}

impl Clone for SourceVisibilityRequest {
    fn clone(&self) -> (r: Self)
        ensures
            r == *self,
    {
        SourceVisibilityRequest {
            scene: self.scene.clone(),
            source: self.source.clone(),
            enabled: self.enabled,
        }
    }
}

/// A request to show or hide a stream character's visual source.
#[derive(PartialEq, Eq, Debug)]
pub struct StreamCharacterRequest {
    pub source: String,
    pub enabled: bool,
}

impl Clone for StreamCharacterRequest {
    fn clone(&self) -> (r: Self)
        ensures
            r == *self,
    {
        StreamCharacterRequest {
            source: self.source.clone(),
            enabled: self.enabled,
        }
    }
}

/// A request to fire a remote hotkey sequence.
#[derive(PartialEq, Eq, Debug)]
pub struct TriggerHotkeyRequest {
    pub hotkey: String,
}

impl Clone for TriggerHotkeyRequest {
    fn clone(&self) -> (r: Self)
        ensures
            r == *self,
    {
        TriggerHotkeyRequest { hotkey: self.hotkey.clone() }
    }
}

/// The closed, tagged union of messages carried by the bus.
///
/// The variant set is versioned together with the handlers that match on
/// it: adding a variant requires auditing every handler's default arm.
#[derive(PartialEq, Eq, Debug)]
pub enum Event {
    UserMessage(UserMessage),
    UberDuckRequest(UberDuckRequest),
    TransformOBSTextRequest(TransformOBSTextRequest),
    SourceVisibilityRequest(SourceVisibilityRequest),
    StreamCharacterRequest(StreamCharacterRequest),
    TriggerHotkeyRequest(TriggerHotkeyRequest),
}

impl Clone for Event {
    fn clone(&self) -> (r: Self)
        ensures
            r == *self,
    {
        match self {
            Event::UserMessage(m) => Event::UserMessage(m.clone()),
            Event::UberDuckRequest(m) => Event::UberDuckRequest(m.clone()),
            Event::TransformOBSTextRequest(m) => Event::TransformOBSTextRequest(m.clone()),
            Event::SourceVisibilityRequest(m) => Event::SourceVisibilityRequest(m.clone()),
            Event::StreamCharacterRequest(m) => Event::StreamCharacterRequest(m.clone()),
            Event::TriggerHotkeyRequest(m) => Event::TriggerHotkeyRequest(m.clone()),
        }
    }
}

} // verus!
