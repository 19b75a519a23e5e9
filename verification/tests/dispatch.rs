use download_bot::dispatch::{
    classify, dispatch, handle_callback, handle_commands, handle_download_command,
    parse_shorthand, Command, Directive, InboundEvent, Route,
};
use download_bot::job::{Action, DownloadJob, DownloadRequest, Event, StatusHandle};
use download_bot::plan::JobIds;
use download_bot::quality::{quality_keyboard, QualityPreference};
use download_bot::settings::{ConversationId, SettingsStore};

fn message(conversation: i64, text: &str) -> InboundEvent {
    InboundEvent::Message { conversation: ConversationId(conversation), text: Some(String::from(text)) }
}

fn press(conversation: i64, payload: &str) -> InboundEvent {
    InboundEvent::Callback {
        origin: Some(ConversationId(conversation)),
        payload: Some(String::from(payload)),
    }
}

fn format_asked_for(request: DownloadRequest) -> String {
    let (mut job, _) = DownloadJob::begin(&mut JobIds::new(), request).unwrap();
    job.step(Event::StatusSent { status: StatusHandle(1) }).unwrap();
    match job.step(Event::ToolLocated { found: true }).unwrap() {
        Action::RunTool { format, .. } => format,
        other => panic!("expected the downloader to be run, got {:?}", other),
    }
}

#[test]
fn commands_go_to_the_command_handler() {
    for command in [Command::Start, Command::Quality] {
        let event = InboundEvent::Command { conversation: ConversationId(1), command };
        assert_eq!(classify(&event), Route::Command);
    }
}

#[test]
fn shorthand_messages_go_to_the_download_handler() {
    assert_eq!(classify(&message(1, "download https://example/video")), Route::Download);
    assert_eq!(classify(&message(1, "audio https://example/video")), Route::Download);
    assert_eq!(classify(&message(1, "download ")), Route::Download);
    assert_eq!(classify(&message(1, "audio ")), Route::Download);
}

#[test]
fn other_messages_go_to_the_welcome_handler() {
    for text in ["hello", "", "download", "audio", "Download x", " download x", "downloadx", "start", "quality"] {
        assert_eq!(classify(&message(1, text)), Route::Welcome);
    }
    let without_text = InboundEvent::Message { conversation: ConversationId(1), text: None };
    assert_eq!(classify(&without_text), Route::Welcome);
}

#[test]
fn button_presses_go_to_the_callback_handler() {
    assert_eq!(classify(&press(1, "quality_720p")), Route::Callback);
    assert_eq!(classify(&press(1, "download x")), Route::Callback);
    let bare = InboundEvent::Callback { origin: None, payload: None };
    assert_eq!(classify(&bare), Route::Callback);
}

#[test]
fn start_command_is_answered_with_help() {
    let conversation = ConversationId(5);
    assert_eq!(handle_commands(conversation, Command::Start), Directive::Welcome { conversation });
}

#[test]
fn quality_command_is_answered_with_the_selector() {
    let conversation = ConversationId(5);
    assert_eq!(
        handle_commands(conversation, Command::Quality),
        Directive::OfferQualities {
            conversation,
            rows: vec![
                vec![QualityPreference::P360, QualityPreference::P720],
                vec![QualityPreference::P1080, QualityPreference::Best],
            ],
        }
    );
}

#[test]
fn parse_shorthand_reads_video_requests() {
    assert_eq!(
        parse_shorthand("download https://example/video"),
        Some((String::from("https://example/video"), false))
    );
}

#[test]
fn parse_shorthand_reads_audio_requests() {
    assert_eq!(
        parse_shorthand("audio https://example/video"),
        Some((String::from("https://example/video"), true))
    );
}

#[test]
fn parse_shorthand_rejects_other_texts() {
    for text in ["", "hello", "download", "audio", "downloads x", "Audio x", "/download x", "x download y"] {
        assert_eq!(parse_shorthand(text), None);
    }
}

#[test]
fn parse_shorthand_accepts_an_empty_address() {
    assert_eq!(parse_shorthand("download "), Some((String::new(), false)));
    assert_eq!(parse_shorthand("audio "), Some((String::new(), true)));
}

#[test]
fn parse_shorthand_drops_a_repeated_prefix() {
    assert_eq!(parse_shorthand("download download x"), Some((String::from("x"), false)));
    assert_eq!(parse_shorthand("audio audio audio y"), Some((String::from("y"), true)));
}

#[test]
fn parse_shorthand_prefers_video_and_keeps_the_rest() {
    assert_eq!(parse_shorthand("download audio x"), Some((String::from("audio x"), false)));
    assert_eq!(parse_shorthand("audio download x"), Some((String::from("download x"), true)));
    assert_eq!(parse_shorthand("download  x"), Some((String::from(" x"), false)));
}

#[test]
fn download_handler_uses_the_stored_preference() {
    let mut settings = SettingsStore::new();
    let conversation = ConversationId(8);
    settings.set(conversation, QualityPreference::P1080);
    assert_eq!(
        handle_download_command(&settings, conversation, Some("download u")),
        Directive::Download {
            request: DownloadRequest {
                conversation,
                url: String::from("u"),
                audio_only: false,
                quality: QualityPreference::P1080,
            },
        }
    );
}

#[test]
fn download_handler_defaults_to_best() {
    let settings = SettingsStore::new();
    let conversation = ConversationId(8);
    assert_eq!(
        handle_download_command(&settings, conversation, Some("audio u")),
        Directive::Download {
            request: DownloadRequest {
                conversation,
                url: String::from("u"),
                audio_only: true,
                quality: QualityPreference::Best,
            },
        }
    );
}

#[test]
fn download_handler_ignores_what_is_no_shorthand() {
    let settings = SettingsStore::new();
    assert_eq!(handle_download_command(&settings, ConversationId(8), Some("hello")), Directive::Nothing);
    assert_eq!(handle_download_command(&settings, ConversationId(8), None), Directive::Nothing);
}

#[test]
fn callback_handler_stores_and_confirms() {
    let mut settings = SettingsStore::new();
    let conversation = ConversationId(3);
    for tier in [
        QualityPreference::P360,
        QualityPreference::P720,
        QualityPreference::P1080,
        QualityPreference::Best,
    ] {
        assert_eq!(
            handle_callback(&mut settings, Some(conversation), Some(tier.payload())),
            Directive::ConfirmQuality { conversation, preference: tier }
        );
        assert_eq!(settings.get(conversation), tier);
    }
}

#[test]
fn callback_handler_ignores_unknown_payloads() {
    let mut settings = SettingsStore::new();
    let conversation = ConversationId(3);
    settings.set(conversation, QualityPreference::P360);
    for payload in ["", "quality_", "quality_480p", "720p", "other_button", "quality_720p!"] {
        assert_eq!(handle_callback(&mut settings, Some(conversation), Some(payload)), Directive::Nothing);
        assert_eq!(settings.get(conversation), QualityPreference::P360);
    }
}

#[test]
fn callback_handler_ignores_presses_without_payload_or_conversation() {
    let mut settings = SettingsStore::new();
    let conversation = ConversationId(3);
    assert_eq!(handle_callback(&mut settings, Some(conversation), None), Directive::Nothing);
    assert_eq!(handle_callback(&mut settings, None, Some("quality_720p")), Directive::Nothing);
    assert_eq!(handle_callback(&mut settings, None, None), Directive::Nothing);
    assert_eq!(settings.get(conversation), QualityPreference::Best);
}

#[test]
fn dispatch_answers_commands() {
    let mut settings = SettingsStore::new();
    let conversation = ConversationId(11);
    let start = InboundEvent::Command { conversation, command: Command::Start };
    let quality = InboundEvent::Command { conversation, command: Command::Quality };
    assert_eq!(dispatch(&mut settings, &start), Directive::Welcome { conversation });
    assert_eq!(
        dispatch(&mut settings, &quality),
        Directive::OfferQualities { conversation, rows: quality_keyboard() }
    );
    assert_eq!(settings.get(conversation), QualityPreference::Best);
}

#[test]
fn dispatch_answers_other_messages_with_help() {
    let mut settings = SettingsStore::new();
    let conversation = ConversationId(11);
    assert_eq!(dispatch(&mut settings, &message(11, "hi there")), Directive::Welcome { conversation });
    let without_text = InboundEvent::Message { conversation, text: None };
    assert_eq!(dispatch(&mut settings, &without_text), Directive::Welcome { conversation });
}

#[test]
fn dispatch_ignores_stale_buttons() {
    let mut settings = SettingsStore::new();
    settings.set(ConversationId(11), QualityPreference::P720);
    assert_eq!(dispatch(&mut settings, &press(11, "old_menu_item")), Directive::Nothing);
    let bare = InboundEvent::Callback { origin: None, payload: Some(String::from("quality_360p")) };
    assert_eq!(dispatch(&mut settings, &bare), Directive::Nothing);
    assert_eq!(settings.get(ConversationId(11)), QualityPreference::P720);
}

#[test]
fn dispatch_does_not_touch_settings_on_messages() {
    let mut settings = SettingsStore::new();
    settings.set(ConversationId(11), QualityPreference::P360);
    dispatch(&mut settings, &message(11, "download x"));
    dispatch(&mut settings, &message(11, "quality_720p"));
    dispatch(&mut settings, &message(12, "audio y"));
    assert_eq!(settings.get(ConversationId(11)), QualityPreference::P360);
    assert_eq!(settings.get(ConversationId(12)), QualityPreference::Best);
}

#[test]
fn scenario_quality_then_tap_720p() {
    let mut settings = SettingsStore::new();
    let conversation = ConversationId(77);
    let asked = dispatch(&mut settings, &InboundEvent::Command { conversation, command: Command::Quality });
    let rows = match asked {
        Directive::OfferQualities { conversation: target, rows } => {
            assert_eq!(target, conversation);
            rows
        }
        other => panic!("expected the selector, got {:?}", other),
    };
    let button = rows.into_iter().flatten().find(|tier| tier.caption() == "720p").unwrap();
    let answered = dispatch(&mut settings, &press(77, button.payload()));
    assert_eq!(
        answered,
        Directive::ConfirmQuality { conversation, preference: QualityPreference::P720 }
    );
    assert_eq!(settings.get(conversation), QualityPreference::P720);
    match answered {
        Directive::ConfirmQuality { preference, .. } => assert_eq!(preference.label(), "720p"),
        other => panic!("expected a confirmation, got {:?}", other),
    }
}

#[test]
fn scenario_download_with_stored_720p() {
    let mut settings = SettingsStore::new();
    let conversation = ConversationId(77);
    settings.set(conversation, QualityPreference::P720);
    let directive = dispatch(&mut settings, &message(77, "download https://example/video"));
    let request = match directive {
        Directive::Download { request } => request,
        other => panic!("expected a download, got {:?}", other),
    };
    assert_eq!(request.conversation, conversation);
    assert_eq!(request.url, "https://example/video");
    assert!(!request.audio_only);
    assert_eq!(request.quality, QualityPreference::P720);
    assert_eq!(format_asked_for(request), "bestvideo[height<=720]+bestaudio/best[height<=720]");
}

#[test]
fn scenario_audio_ignores_stored_quality() {
    for stored in [
        None,
        Some(QualityPreference::P360),
        Some(QualityPreference::P720),
        Some(QualityPreference::P1080),
        Some(QualityPreference::Best),
    ] {
        let mut settings = SettingsStore::new();
        let conversation = ConversationId(77);
        if let Some(preference) = stored {
            settings.set(conversation, preference);
        }
        let directive = dispatch(&mut settings, &message(77, "audio https://example/video"));
        let request = match directive {
            Directive::Download { request } => request,
            other => panic!("expected a download, got {:?}", other),
        };
        assert!(request.audio_only);
        assert_eq!(request.url, "https://example/video");
        assert_eq!(format_asked_for(request), "bestaudio[ext=mp3]");
    }
}
