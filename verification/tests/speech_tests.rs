use subd::runtime::EventLoop;
use subd::runtime::HandlerState;
use subd::sound::sound_files_for_message;
use subd::sound::sound_step;
use subd::types::Event;
use subd::types::SourceVisibilityRequest;
use subd::types::StreamCharacterRequest;
use subd::types::TriggerHotkeyRequest;
use subd::types::UberDuckRequest;
use subd::types::UserMessage;
use subd::types::UserRoles;
use subd::uberduck::build_stream_character;
use subd::uberduck::default_voice_config;
use subd::uberduck::find_obs_character;
use subd::uberduck::speech_poll_step;
use subd::uberduck::speech_session_opening;
use subd::uberduck::start_speech_session;
use subd::uberduck::SpeechAction;

fn plain_roles() -> UserRoles {
    UserRoles { is_broadcaster: false, is_moderator: false, is_vip: false }
}

#[test]
fn mapped_username_gets_its_voice_and_source() {
    let config = default_voice_config();
    let c = build_stream_character(&config, "beginbot");
    assert_eq!(c.username, "beginbot");
    assert_eq!(c.voice, "mr-krabs-joewhyte");
    assert_eq!(c.source, "Crabs");
    let c = build_stream_character(&config, "carlvandergeest");
    assert_eq!(c.voice, "danny-devito-angry");
    assert_eq!(c.source, "Kevin");
}

#[test]
fn unmapped_username_falls_back_to_the_default_pair() {
    let config = default_voice_config();
    let c = build_stream_character(&config, "someone_new");
    assert_eq!(c.voice, "brock-samson");
    assert_eq!(c.source, "Seal");
}

#[test]
fn fallback_is_deterministic_across_request_orders() {
    let config = default_voice_config();
    let first = build_stream_character(&config, "someone_new");
    // Other lookups in between must not influence the fallback.
    let _ = build_stream_character(&config, "beginbot");
    let _ = build_stream_character(&config, "teej_dv");
    let second = build_stream_character(&config, "someone_new");
    assert_eq!(first, second);
}

#[test]
fn mapped_voice_without_source_entry_gets_default_source() {
    let config = default_voice_config();
    // "dr-nick" has no source entry, so the default source applies.
    let c = build_stream_character(&config, "ArtMattDank");
    assert_eq!(c.voice, "dr-nick");
    assert_eq!(c.source, "Seal");
    assert_eq!(find_obs_character(&config, "dr-nick"), "Seal");
    assert_eq!(find_obs_character(&config, "danny-devito-angry"), "Kevin");
}

#[test]
fn command_chatter_is_never_spoken() {
    let config = default_voice_config();
    let msg = UberDuckRequest {
        message: "!blur 50".to_string(),
        voice_text: "!blur 50".to_string(),
        username: "beginbot".to_string(),
    };
    assert!(start_speech_session(&config, &msg).is_none());
}

#[test]
fn a_session_carries_the_derived_character() {
    let config = default_voice_config();
    let msg = UberDuckRequest {
        message: "hello friends".to_string(),
        voice_text: "hello friends".to_string(),
        username: "beginbot".to_string(),
    };
    let s = start_speech_session(&config, &msg).expect("plain chatter is spoken");
    assert_eq!(s.message, "hello friends");
    assert_eq!(s.voice_text, "hello friends");
    assert_eq!(s.voice, "mr-krabs-joewhyte");
    assert_eq!(s.source, "Crabs");
    assert_eq!(s.text_source, "Crabs-text");
}

#[test]
fn the_loading_indicator_is_shown_before_the_first_poll() {
    let config = default_voice_config();
    let msg = UberDuckRequest {
        message: "hello".to_string(),
        voice_text: "hello".to_string(),
        username: "x".to_string(),
    };
    let s = start_speech_session(&config, &msg).unwrap();
    let opening = speech_session_opening(&s);
    assert_eq!(
        opening,
        vec![SpeechAction::Publish(Event::SourceVisibilityRequest(SourceVisibilityRequest {
            scene: "Characters".to_string(),
            source: "loading_duck".to_string(),
            enabled: true,
        }))]
    );
}

#[test]
fn a_pending_poll_just_waits_out_the_interval() {
    let config = default_voice_config();
    let msg = UberDuckRequest {
        message: "hello".to_string(),
        voice_text: "hello".to_string(),
        username: "x".to_string(),
    };
    let s = start_speech_session(&config, &msg).unwrap();
    assert_eq!(speech_poll_step(&s, None), vec![SpeechAction::Sleep { ms: 1000 }]);
}

#[test]
fn a_finished_poll_pairs_every_show_with_a_hide() {
    let config = default_voice_config();
    let msg = UberDuckRequest {
        message: "hello friends".to_string(),
        voice_text: "hello friends".to_string(),
        username: "beginbot".to_string(),
    };
    let s = start_speech_session(&config, &msg).unwrap();
    let actions = speech_poll_step(&s, Some("https://audio.example/clip.wav".to_string()));
    assert_eq!(
        actions,
        vec![
            SpeechAction::Publish(Event::SourceVisibilityRequest(SourceVisibilityRequest {
                scene: "Characters".to_string(),
                source: "loading_duck".to_string(),
                enabled: false,
            })),
            SpeechAction::Publish(Event::TransformOBSTextRequest(
                subd::types::TransformOBSTextRequest {
                    message: "hello friends".to_string(),
                    text_source: "Crabs-text".to_string(),
                }
            )),
            SpeechAction::Download { url: "https://audio.example/clip.wav".to_string() },
            SpeechAction::Publish(Event::StreamCharacterRequest(StreamCharacterRequest {
                source: "Crabs".to_string(),
                enabled: true,
            })),
            SpeechAction::PlayAudio,
            SpeechAction::Sleep { ms: 1000 },
            SpeechAction::Publish(Event::StreamCharacterRequest(StreamCharacterRequest {
                source: "Crabs".to_string(),
                enabled: false,
            })),
        ]
    );
}

#[test]
fn words_pick_their_lowercased_sample_files() {
    let words = vec!["HELLO".to_string(), "World".to_string(), "quiet".to_string()];
    let available = vec!["./MP3s/hello.mp3".to_string(), "./MP3s/world.mp3".to_string()];
    // If the words were not lower-cased, neither file name would match.
    assert_eq!(
        sound_files_for_message(&words, &available),
        vec!["./MP3s/hello.mp3".to_string(), "./MP3s/world.mp3".to_string()]
    );
}

#[test]
fn unmatched_words_play_nothing() {
    let words = vec!["nothing".to_string(), "here".to_string()];
    let available = vec!["./MP3s/hello.mp3".to_string()];
    assert_eq!(sound_files_for_message(&words, &available), Vec::<String>::new());
}

#[test]
fn sound_step_builds_the_speech_request() {
    let e = Event::UserMessage(UserMessage {
        user_name: "beginbot".to_string(),
        contents: "The quick brown fox jumps over the lazy dog today yes".to_string(),
        roles: plain_roles(),
    });
    let available = vec!["./MP3s/fox.mp3".to_string()];
    let (req, files) = sound_step(&e, &available).expect("chat messages are handled");
    assert_eq!(req.username, "beginbot");
    assert_eq!(req.voice_text, "The quick brown fox jumps over the lazy dog today yes");
    assert_eq!(req.message, "The quick brown fox jumps\nover the lazy dog\ntoday yes");
    assert_eq!(files, vec!["./MP3s/fox.mp3".to_string()]);
    let other = Event::TriggerHotkeyRequest(TriggerHotkeyRequest { hotkey: "x".to_string() });
    assert!(sound_step(&other, &available).is_none());
}

#[test]
fn the_event_loop_starts_handlers_and_isolates_failures() {
    let mut el = EventLoop::new(16);
    let chat = el.push("chat".to_string());
    let obs = el.push("obs".to_string());
    let speech = el.push("speech".to_string());
    assert_eq!((chat, obs, speech), (0, 1, 2));
    assert_eq!(el.handlers[0].state, HandlerState::Registered);
    el.start_all();
    assert_eq!(el.handlers[0].state, HandlerState::Running);
    assert_eq!(el.handlers[2].state, HandlerState::Running);
    // One handler failing does not cancel its siblings.
    el.mark_failed(obs);
    assert_eq!(el.handlers[1].state, HandlerState::Failed);
    assert_eq!(el.handlers[0].state, HandlerState::Running);
    assert_eq!(el.handlers[2].state, HandlerState::Running);
    assert_eq!(el.handlers[0].name, "chat");
}
