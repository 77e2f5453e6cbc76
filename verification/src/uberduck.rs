//! The speech pipeline: maps a requesting chat user to a voice and a
//! visual source, and decides every step of the synthesis session — which
//! indicator events to publish, when to poll again, when to download,
//! play, and hide the character.
//!
//! The vendor calls themselves (beginning synthesis, polling the status
//! endpoint, downloading audio) and the audio playback are performed by
//! the surrounding program, which feeds each poll result back into
//! [`speech_poll_step`] and executes the returned actions in order.
//! Side effects on the remote visual service are paired: the loading
//! indicator is shown before the first poll and hidden once the audio
//! URL is known; the character is shown before playback and hidden after
//! it.

use vstd::prelude::*;
use vstd::string::StrSliceExecFns;
use vstd::string::StringExecFns;

use crate::types::Event;
use crate::types::SourceVisibilityRequest;
use crate::types::StreamCharacterRequest;
use crate::types::TransformOBSTextRequest;
use crate::types::UberDuckRequest;

verus! {

/// Interval between two polls of the synthesis status endpoint.
pub const POLL_INTERVAL_MS: u64 = 1000;

/// How long the character stays visible after playback before the hide
/// event is published.
pub const HIDE_DELAY_MS: u64 = 1000;

/// One entry of a lookup table: a key and the value it maps to.
#[derive(PartialEq, Eq, Debug)]
pub struct NamePair {
    pub key: String,
    pub value: String,
}

/// Mathematical value of a [`NamePair`].
pub struct NamePairView {
    pub key: Seq<char>,
    pub value: Seq<char>,
}

impl View for NamePair {
    type V = NamePairView;

    open spec fn view(&self) -> NamePairView {
        NamePairView { key: self.key@, value: self.value@ }
    }
}

impl DeepView for NamePair {
    type V = NamePairView;

    open spec fn deep_view(&self) -> NamePairView {
        self.view()
    }
}

/// The immutable configuration injected at startup: the two lookup
/// tables (username to voice, voice to visual source) and the defaults
/// used when a key is unmapped.
#[derive(Debug)]
pub struct VoiceConfig {
    pub voices: Vec<NamePair>,
    pub sources: Vec<NamePair>,
    pub default_voice: String,
    pub default_source: String,
}

/// Mathematical value of a [`VoiceConfig`].
pub struct VoiceConfigView {
    pub voices: Seq<NamePairView>,
    pub sources: Seq<NamePairView>,
    pub default_voice: Seq<char>,
    pub default_source: Seq<char>,
}

impl View for VoiceConfig {
    type V = VoiceConfigView;

    open spec fn view(&self) -> VoiceConfigView {
        VoiceConfigView {
            voices: self.voices.deep_view(),
            sources: self.sources.deep_view(),
            default_voice: self.default_voice@,
            default_source: self.default_source@,
        }
    }
}

/// The value of the first entry whose key is `key`, if any.
pub open spec fn assoc(pairs: Seq<NamePairView>, key: Seq<char>) -> Option<Seq<char>>
    decreases pairs.len(),
{
    if pairs.len() == 0 {
        None
    } else if pairs[0].key == key {
        Some(pairs[0].value)
    } else {
        assoc(pairs.drop_first(), key)
    }
}

/// The voice a username maps to: its table entry, or the default voice.
pub open spec fn voice_for(config: VoiceConfigView, username: Seq<char>) -> Seq<char> {
    match assoc(config.voices, username) {
        Some(v) => v,
        None => config.default_voice,
    }
}

/// The visual source a voice maps to: its table entry, or the default
/// source.
pub open spec fn source_for_voice(config: VoiceConfigView, voice: Seq<char>) -> Seq<char> {
    match assoc(config.sources, voice) {
        Some(s) => s,
        None => config.default_source,
    }
}

/// A table with no entry for `key` resolves to `None`.
pub proof fn lemma_assoc_absent(pairs: Seq<NamePairView>, key: Seq<char>)
    requires
        forall|k: int| 0 <= k < pairs.len() ==> (#[trigger] pairs[k]).key != key,
    ensures
        assoc(pairs, key) is None,
    decreases pairs.len(),
{
    if pairs.len() > 0 {
        lemma_assoc_absent(pairs.drop_first(), key);
    }
}

/// Fallback law: a username absent from the voice table maps to the
/// default voice, and a voice absent from the source table maps to the
/// default source.  Both mappings are pure functions of the
/// configuration and the name, so the result does not depend on the
/// order of requests.
pub proof fn lemma_unmapped_username_gets_defaults(config: VoiceConfigView, username: Seq<char>)
    requires
        forall|k: int|
            0 <= k < config.voices.len() ==> (#[trigger] config.voices[k]).key != username,
    ensures
        voice_for(config, username) == config.default_voice,
        (forall|k: int|
            0 <= k < config.sources.len() ==> (#[trigger] config.sources[k]).key
                != config.default_voice) ==> source_for_voice(config, voice_for(config, username))
            == config.default_source,
{
    lemma_assoc_absent(config.voices, username);
    if forall|k: int|
        0 <= k < config.sources.len() ==> (#[trigger] config.sources[k]).key
            != config.default_voice {
        lemma_assoc_absent(config.sources, config.default_voice);
    }
}

fn lookup(pairs: &Vec<NamePair>, key: &str) -> (r: Option<String>)
    ensures
        r.deep_view() == assoc(pairs.deep_view(), key@),
{
    let ghost ps = pairs.deep_view();
    proof {
        assert(ps.len() == pairs@.len());
    }
    let n = pairs.len();
    proof {
        assert(ps.subrange(0, n as int) =~= ps);
    }
    let mut i: usize = 0;
    while i < n
        invariant
            i <= n,
            n == pairs@.len(),
            ps == pairs.deep_view(),
            ps.len() == n,
            assoc(ps, key@) == assoc(ps.subrange(i as int, n as int), key@),
        decreases n - i,
    {
        proof {
            assert(ps[i as int] == pairs@[i as int]@);
        }
        let p = &pairs[i];
        if crate::text::str_eq(p.key.as_str(), key) {
            proof {
                let tail = ps.subrange(i as int, n as int);
                assert(tail[0] == ps[i as int]);
            }
            return Some(p.value.clone());
        }
        proof {
            let tail = ps.subrange(i as int, n as int);
            assert(tail[0] == ps[i as int]);
            assert(tail.drop_first() =~= ps.subrange(i + 1, n as int));
        }
        i = i + 1;
    }
    proof {
        assert(ps.subrange(n as int, n as int) =~= Seq::<NamePairView>::empty());
    }
    None
}

/// The stateless mapping derived for a requesting chat user: the voice
/// that speaks for them and the visual source shown while it speaks.
#[derive(PartialEq, Eq, Debug)]
pub struct StreamCharacter {
    pub username: String,
    pub voice: String,
    pub source: String,
}

/// Derives the stream character of a username from the configuration
/// tables: the username picks the voice, the voice picks the source,
/// each falling back to its configured default when unmapped.
pub fn build_stream_character(config: &VoiceConfig, username: &str) -> (c: StreamCharacter)
    ensures
        c.username@ == username@,
        c.voice@ == voice_for(config@, username@),
        c.source@ == source_for_voice(config@, voice_for(config@, username@)),
{
    let voice = match lookup(&config.voices, username) {
        Some(v) => v,
        None => config.default_voice.clone(),
    };
    let source = find_obs_character(config, voice.as_str());
    StreamCharacter { username: String::from_str(username), voice, source }
}

/// The visual source a voice maps to, or the default source.
pub fn find_obs_character(config: &VoiceConfig, voice: &str) -> (s: String)
    ensures
        s@ == source_for_voice(config@, voice@),
{
    match lookup(&config.sources, voice) {
        Some(s) => s,
        None => config.default_source.clone(),
    }
}

fn make_pair(key: &str, value: &str) -> (p: NamePair)
    ensures
        p@.key == key@,
        p@.value == value@,
{
    NamePair { key: String::from_str(key), value: String::from_str(value) }
}

/// The built-in configuration: the known chatters' voices, the voices'
/// visual sources, and the fallback pair.
pub fn default_voice_config() -> (config: VoiceConfig)
    ensures
        config@.voices == seq![
            (NamePairView { key: "beginbot"@, value: "mr-krabs-joewhyte"@ }),
            (NamePairView { key: "beginbotbot"@, value: "brock-samson"@ }),
            (NamePairView { key: "ArtMattDank"@, value: "dr-nick"@ }),
            (NamePairView { key: "carlvandergeest"@, value: "danny-devito-angry"@ }),
            (NamePairView { key: "stupac62"@, value: "stewie-griffin"@ }),
            (NamePairView { key: "swenson"@, value: "mike-wazowski"@ }),
            (NamePairView { key: "teej_dv"@, value: "mr-krabs-joewhyte"@ }),
        ],
        config@.sources == seq![
            (NamePairView { key: "brock-samson"@, value: "Seal"@ }),
            (NamePairView { key: "theneedledrop"@, value: "ArtMatt"@ }),
            (NamePairView { key: "mr-krabs-joewhyte"@, value: "Crabs"@ }),
            (NamePairView { key: "danny-devito-angry"@, value: "Kevin"@ }),
        ],
        config@.default_voice == "brock-samson"@,
        config@.default_source == "Seal"@,
{
    let mut voices: Vec<NamePair> = Vec::new();
    voices.push(make_pair("beginbot", "mr-krabs-joewhyte"));
    voices.push(make_pair("beginbotbot", "brock-samson"));
    voices.push(make_pair("ArtMattDank", "dr-nick"));
    voices.push(make_pair("carlvandergeest", "danny-devito-angry"));
    voices.push(make_pair("stupac62", "stewie-griffin"));
    voices.push(make_pair("swenson", "mike-wazowski"));
    voices.push(make_pair("teej_dv", "mr-krabs-joewhyte"));
    let mut sources: Vec<NamePair> = Vec::new();
    sources.push(make_pair("brock-samson", "Seal"));
    sources.push(make_pair("theneedledrop", "ArtMatt"));
    sources.push(make_pair("mr-krabs-joewhyte", "Crabs"));
    sources.push(make_pair("danny-devito-angry", "Kevin"));
    let config = VoiceConfig {
        voices,
        sources,
        default_voice: String::from_str("brock-samson"),
        default_source: String::from_str("Seal"),
    };
    proof {
        assert(config@.voices =~= seq![
            (NamePairView { key: "beginbot"@, value: "mr-krabs-joewhyte"@ }),
            (NamePairView { key: "beginbotbot"@, value: "brock-samson"@ }),
            (NamePairView { key: "ArtMattDank"@, value: "dr-nick"@ }),
            (NamePairView { key: "carlvandergeest"@, value: "danny-devito-angry"@ }),
            (NamePairView { key: "stupac62"@, value: "stewie-griffin"@ }),
            (NamePairView { key: "swenson"@, value: "mike-wazowski"@ }),
            (NamePairView { key: "teej_dv"@, value: "mr-krabs-joewhyte"@ }),
        ]);
        assert(config@.sources =~= seq![
            (NamePairView { key: "brock-samson"@, value: "Seal"@ }),
            (NamePairView { key: "theneedledrop"@, value: "ArtMatt"@ }),
            (NamePairView { key: "mr-krabs-joewhyte"@, value: "Crabs"@ }),
            (NamePairView { key: "danny-devito-angry"@, value: "Kevin"@ }),
        ]);
    }
    config
}

/// The state of one accepted speech request, fixed for the session.
#[derive(PartialEq, Eq, Debug)]
pub struct SpeechSession {
    /// Caption shown on the character's text source.
    pub message: String,
    /// Text handed to the vendor.
    pub voice_text: String,
    /// The synthesis voice.
    pub voice: String,
    /// The character's visual source.
    pub source: String,
    /// The character's text source, `<source>-text`.
    pub text_source: String,
}

/// One side effect the surrounding program performs for the session.
#[derive(PartialEq, Eq, Debug)]
pub enum SpeechAction {
    /// Publish this event on the bus.
    Publish(Event),
    /// Download the synthesised audio to the local scratch file.
    Download { url: String },
    /// Play the scratch file to completion.
    PlayAudio,
    /// Wait this long.
    Sleep { ms: u64 },
}

/// Opens a session for a speech request: chatter that is itself a
/// command (a leading `'!'`) is never spoken and yields no session;
/// otherwise the requesting username is mapped to its voice and source.
pub fn start_speech_session(config: &VoiceConfig, msg: &UberDuckRequest) -> (r: Option<
    SpeechSession,
>)
    requires
        msg.message@.len() > 0,
    ensures
        match r {
            Some(s) => {
                &&& msg.message@[0] != '!'
                &&& s.message@ == msg.message@
                &&& s.voice_text@ == msg.voice_text@
                &&& s.voice@ == voice_for(config@, msg.username@)
                &&& s.source@ == source_for_voice(config@, voice_for(config@, msg.username@))
                &&& s.text_source@ == source_for_voice(
                    config@,
                    voice_for(config@, msg.username@),
                ) + "-text"@
            },
            None => msg.message@[0] == '!',
        },
{
    let first = msg.message.as_str().get_char(0);
    if first == '!' {
        return None;
    }
    let character = build_stream_character(config, msg.username.as_str());
    let text_source = character.source.clone().concat("-text");
    Some(
        SpeechSession {
            message: msg.message.clone(),
            voice_text: msg.voice_text.clone(),
            voice: character.voice,
            source: character.source,
            text_source,
        },
    )
}

/// The actions preceding the first status poll: show the loading
/// indicator.
pub fn speech_session_opening(_session: &SpeechSession) -> (r: Vec<SpeechAction>)
    ensures
        r@.len() == 1,
        r@[0] matches SpeechAction::Publish(Event::SourceVisibilityRequest(v)) && v.scene@
            == "Characters"@ && v.source@ == "loading_duck"@ && v.enabled,
{
    let mut r: Vec<SpeechAction> = Vec::new();
    r.push(
        SpeechAction::Publish(
            Event::SourceVisibilityRequest(
                SourceVisibilityRequest {
                    scene: String::from_str("Characters"),
                    source: String::from_str("loading_duck"),
                    enabled: true,
                },
            ),
        ),
    );
    r
}

/// The actions after one status poll.  While no audio URL is known the
/// session just waits out the poll interval.  Once the URL appears, the
/// loading indicator is hidden, the caption is updated, the audio is
/// downloaded, and the character is shown, heard, and — after the hide
/// delay — hidden again: every show is paired with a hide.
pub fn speech_poll_step(session: &SpeechSession, path: Option<String>) -> (r: Vec<SpeechAction>)
    ensures
        match path {
            None => {
                &&& r@.len() == 1
                &&& r@[0] matches SpeechAction::Sleep { ms } && ms == POLL_INTERVAL_MS
            },
            Some(url) => {
                &&& r@.len() == 7
                &&& r@[0] matches SpeechAction::Publish(Event::SourceVisibilityRequest(v))
                    && v.scene@ == "Characters"@ && v.source@ == "loading_duck"@ && !v.enabled
                &&& r@[1] matches SpeechAction::Publish(Event::TransformOBSTextRequest(t))
                    && t.text_source@ == session.text_source@ && t.message@ == session.message@
                &&& r@[2] matches SpeechAction::Download { url: u } && u@ == url@
                &&& r@[3] matches SpeechAction::Publish(Event::StreamCharacterRequest(c))
                    && c.source@ == session.source@ && c.enabled
                &&& r@[4] is PlayAudio
                &&& r@[5] matches SpeechAction::Sleep { ms } && ms == HIDE_DELAY_MS
                &&& r@[6] matches SpeechAction::Publish(Event::StreamCharacterRequest(c))
                    && c.source@ == session.source@ && !c.enabled
            },
        },
{
    let mut r: Vec<SpeechAction> = Vec::new();
    match path {
        None => {
            r.push(SpeechAction::Sleep { ms: POLL_INTERVAL_MS });
        },
        Some(url) => {
            r.push(
                SpeechAction::Publish(
                    Event::SourceVisibilityRequest(
                        SourceVisibilityRequest {
                            scene: String::from_str("Characters"),
                            source: String::from_str("loading_duck"),
                            enabled: false,
                        },
                    ),
                ),
            );
            r.push(
                SpeechAction::Publish(
                    Event::TransformOBSTextRequest(
                        TransformOBSTextRequest {
                            message: session.message.clone(),
                            text_source: session.text_source.clone(),
                        },
                    ),
                ),
            );
            r.push(SpeechAction::Download { url });
            r.push(
                SpeechAction::Publish(
                    Event::StreamCharacterRequest(
                        StreamCharacterRequest { source: session.source.clone(), enabled: true },
                    ),
                ),
            );
            r.push(SpeechAction::PlayAudio);
            r.push(SpeechAction::Sleep { ms: HIDE_DELAY_MS });
            r.push(
                SpeechAction::Publish(
                    Event::StreamCharacterRequest(
                        StreamCharacterRequest { source: session.source.clone(), enabled: false },
                    ),
                ),
            );
        },
    }
    r
}

} // verus!
