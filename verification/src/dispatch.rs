//! The dispatcher: sorts each inbound event to one handler and says what the
//! front end is to do about it. It owns no state; the settings it reads and
//! writes are handed in.

use vstd::prelude::*;
use crate::job::{DownloadRequest, DownloadRequestView};
use crate::quality::{keyboard_rows, quality_keyboard, rows_of, QualityPreference};
use crate::settings::{preference_in, ConversationId, SettingsStore};
use crate::text::{starts_with, strip_leading, without_leading};

verus! {

/// The explicit commands.
#[derive(Clone, Copy, Debug, PartialEq, Eq, Hash, Structural)]
pub enum Command {
    /// `start`: show the help text.
    Start,
    /// `quality`: show the quality selector.
    Quality,
}

/// What the chat delivers: a command, a message, or the press of a button.
#[derive(Clone, Debug, PartialEq, Eq)]
pub enum InboundEvent {
    /// An explicit command.
    Command { conversation: ConversationId, command: Command },
    /// Any other message, with its text if it has one.
    Message { conversation: ConversationId, text: Option<String> },
    /// A pressed button, with the payload it carried and the conversation
    /// of the message it sat under (`origin`), as far as the chat still
    /// knows them.
    Callback { origin: Option<ConversationId>, payload: Option<String> },
}

/// An [`InboundEvent`] as contracts see it.
pub enum InboundEventView {
    Command { conversation: ConversationId, command: Command },
    Message { conversation: ConversationId, text: Option<Seq<char>> },
    Callback { origin: Option<ConversationId>, payload: Option<Seq<char>> },
}

impl View for InboundEvent {
    type V = InboundEventView;

    open spec fn view(&self) -> InboundEventView {
        match *self {
            InboundEvent::Command { conversation, command } => InboundEventView::Command {
                conversation,
                command,
            },
            InboundEvent::Message { conversation, text } => InboundEventView::Message {
                conversation,
                text: match text {
                    Some(text) => Some(text@),
                    None => None,
                },
            },
            InboundEvent::Callback { origin, payload } => InboundEventView::Callback {
                origin,
                payload: match payload {
                    Some(payload) => Some(payload@),
                    None => None,
                },
            },
        }
    }
}

/// The handler an event goes to.
#[derive(Clone, Copy, Debug, PartialEq, Eq, Hash, Structural)]
pub enum Route {
    /// An explicit command.
    Command,
    /// A message that asks for a download in shorthand.
    Download,
    /// Any other message: it is answered with the help text.
    Welcome,
    /// A pressed button.
    Callback,
}

/// What the front end is to do about an event.
#[derive(Clone, Debug, PartialEq, Eq)]
pub enum Directive {
    /// Send the help text.
    Welcome { conversation: ConversationId },
    /// Send the quality selector: one button for each tier in `rows`, with
    /// the tier's caption on it and the tier's payload behind it.
    OfferQualities { conversation: ConversationId, rows: Vec<Vec<QualityPreference>> },
    /// Confirm that `preference` is now the conversation's default.
    ConfirmQuality { conversation: ConversationId, preference: QualityPreference },
    /// Run a download job for `request`.
    Download { request: DownloadRequest },
    /// Nothing: the event has no corresponding action.
    Nothing,
}

/// A [`Directive`] as contracts see it.
pub enum DirectiveView {
    Welcome { conversation: ConversationId },
    OfferQualities { conversation: ConversationId, rows: Seq<Seq<QualityPreference>> },
    ConfirmQuality { conversation: ConversationId, preference: QualityPreference },
    Download { request: DownloadRequestView },
    Nothing,
}

impl View for Directive {
    type V = DirectiveView;

    open spec fn view(&self) -> DirectiveView {
        match *self {
            Directive::Welcome { conversation } => DirectiveView::Welcome { conversation },
            Directive::OfferQualities { conversation, rows } => DirectiveView::OfferQualities {
                conversation,
                rows: rows_of(rows@),
            },
            Directive::ConfirmQuality { conversation, preference } => {
                DirectiveView::ConfirmQuality { conversation, preference }
            },
            Directive::Download { request } => DirectiveView::Download { request: request@ },
            Directive::Nothing => DirectiveView::Nothing,
        }
    }
}

/// The shorthand for a video download: the word and one space.
pub open spec fn video_prefix() -> Seq<char> {
    "download "@
}

/// The shorthand for an audio download: the word and one space.
pub open spec fn audio_prefix() -> Seq<char> {
    "audio "@
}

/// What a message text asks for in shorthand: the address, and whether only
/// audio is wanted. The address is what follows the shorthand prefix, which
/// may be repeated. `None` for a text that begins with neither prefix.
pub open spec fn shorthand(text: Seq<char>) -> Option<(Seq<char>, bool)> {
    if video_prefix().is_prefix_of(text) {
        Some((without_leading(text, video_prefix()), false))
    } else if audio_prefix().is_prefix_of(text) {
        Some((without_leading(text, audio_prefix()), true))
    } else {
        None
    }
}

/// The handler of each event. The first match wins: commands, then
/// shorthand downloads, then other messages; button presses go to their own
/// handler.
pub open spec fn route_of(event: InboundEventView) -> Route {
    match event {
        InboundEventView::Command { .. } => Route::Command,
        InboundEventView::Message { text, .. } => if text is Some && shorthand(text.unwrap())
            is Some {
            Route::Download
        } else {
            Route::Welcome
        },
        InboundEventView::Callback { .. } => Route::Callback,
    }
}

/// What the command handler answers: the help text to `start`, the quality
/// selector with all its tiers to `quality`.
pub open spec fn command_directive(conversation: ConversationId, command: Command) -> DirectiveView {
    match command {
        Command::Start => DirectiveView::Welcome { conversation },
        Command::Quality => DirectiveView::OfferQualities { conversation, rows: keyboard_rows() },
    }
}

/// What the download handler answers: a request with the address from the
/// text and the conversation's stored preference, or nothing for a text
/// that is no shorthand.
pub open spec fn download_directive(
    settings: Map<ConversationId, QualityPreference>,
    conversation: ConversationId,
    text: Option<Seq<char>>,
) -> DirectiveView {
    if text is Some && shorthand(text.unwrap()) is Some {
        DirectiveView::Download {
            request: DownloadRequestView {
                conversation,
                url: shorthand(text.unwrap()).unwrap().0,
                audio_only: shorthand(text.unwrap()).unwrap().1,
                quality: preference_in(settings, conversation),
            },
        }
    } else {
        DirectiveView::Nothing
    }
}

/// The conversation and tier that a button press selects, if the press
/// names a conversation and carries the payload of a selector button.
pub open spec fn selection(
    conversation: Option<ConversationId>,
    payload: Option<Seq<char>>,
) -> Option<(ConversationId, QualityPreference)> {
    if conversation is Some && payload is Some && QualityPreference::of_payload(payload.unwrap())
        is Some {
        Some((conversation.unwrap(), QualityPreference::of_payload(payload.unwrap()).unwrap()))
    } else {
        None
    }
}

/// What the button handler answers: a confirmation of the selected tier, or
/// nothing for a press that selects none.
pub open spec fn callback_directive(
    conversation: Option<ConversationId>,
    payload: Option<Seq<char>>,
) -> DirectiveView {
    match selection(conversation, payload) {
        Some((conversation, preference)) => DirectiveView::ConfirmQuality {
            conversation,
            preference,
        },
        None => DirectiveView::Nothing,
    }
}

/// The settings after the button handler: the selected tier is stored for
/// the conversation; a press that selects none changes nothing.
pub open spec fn callback_settings(
    settings: Map<ConversationId, QualityPreference>,
    conversation: Option<ConversationId>,
    payload: Option<Seq<char>>,
) -> Map<ConversationId, QualityPreference> {
    match selection(conversation, payload) {
        Some((conversation, preference)) => settings.insert(conversation, preference),
        None => settings,
    }
}

/// What is to be done about an event, given the settings at its arrival.
pub open spec fn directive_of(
    settings: Map<ConversationId, QualityPreference>,
    event: InboundEventView,
) -> DirectiveView {
    match event {
        InboundEventView::Command { conversation, command } => command_directive(
            conversation,
            command,
        ),
        InboundEventView::Message { conversation, text } => match route_of(event) {
            Route::Download => download_directive(settings, conversation, text),
            _ => DirectiveView::Welcome { conversation },
        },
        InboundEventView::Callback { origin, payload } => callback_directive(origin, payload),
    }
}

/// The settings after an event: only a button press can change them.
pub open spec fn settings_after(
    settings: Map<ConversationId, QualityPreference>,
    event: InboundEventView,
) -> Map<ConversationId, QualityPreference> {
    match event {
        InboundEventView::Callback { origin, payload } => callback_settings(
            settings,
            origin,
            payload,
        ),
        _ => settings,
    }
}

/// The shorthand is read back as written: `download ` before an address
/// asks for video from that address, and `audio ` before an address asks
/// for audio from it, for every address that does not itself begin with the
/// prefix.
pub proof fn lemma_shorthand_reads_the_address(url: Seq<char>)
    ensures
        !video_prefix().is_prefix_of(url) ==> shorthand(video_prefix() + url) == Some(
            (url, false),
        ),
        !audio_prefix().is_prefix_of(url) ==> shorthand(audio_prefix() + url) == Some(
            (url, true),
        ),
{
    reveal_strlit("download ");
    reveal_strlit("audio ");
    let video = video_prefix() + url;
    let audio = audio_prefix() + url;
    assert(video.subrange(0, video_prefix().len() as int) =~= video_prefix());
    assert(video.skip(video_prefix().len() as int) =~= url);
    assert(audio.subrange(0, audio_prefix().len() as int) =~= audio_prefix());
    assert(audio.skip(audio_prefix().len() as int) =~= url);
    assert(audio[0] == 'a' && video_prefix()[0] == 'd');
    reveal_with_fuel(without_leading, 2);
}

/// Pressing a selector button makes its tier the default of the
/// conversation it is pressed in: the press is confirmed with that tier,
/// the conversation then reads that tier, and every other conversation
/// reads what it read before.
pub proof fn lemma_pressed_button_becomes_the_default(
    settings: Map<ConversationId, QualityPreference>,
    conversation: ConversationId,
    tier: QualityPreference,
)
    ensures
        ({
            let press = InboundEventView::Callback {
                origin: Some(conversation),
                payload: Some(tier.payload_text()),
            };
            let after = settings_after(settings, press);
            &&& route_of(press) == Route::Callback
            &&& directive_of(settings, press) == (DirectiveView::ConfirmQuality {
                conversation,
                preference: tier,
            })
            &&& preference_in(after, conversation) == tier
            &&& forall|other: ConversationId|
                other != conversation ==> preference_in(after, other) == preference_in(
                    settings,
                    other,
                )
        }),
{
    QualityPreference::lemma_payload_round_trip(tier, tier.payload_text());
}

/// A shorthand message becomes a download with the preference that the
/// conversation has stored at that moment, and leaves the settings alone;
/// any other message is answered with the help text.
pub proof fn lemma_messages_follow_the_settings(
    settings: Map<ConversationId, QualityPreference>,
    conversation: ConversationId,
    text: Option<Seq<char>>,
)
    ensures
        ({
            let message = InboundEventView::Message { conversation, text };
            &&& settings_after(settings, message) == settings
            &&& text is Some && shorthand(text.unwrap()) is Some ==> directive_of(settings, message)
                == (DirectiveView::Download {
                request: DownloadRequestView {
                    conversation,
                    url: shorthand(text.unwrap()).unwrap().0,
                    audio_only: shorthand(text.unwrap()).unwrap().1,
                    quality: preference_in(settings, conversation),
                },
            })
            &&& text is None || shorthand(text.unwrap()) is None ==> directive_of(settings, message)
                == (DirectiveView::Welcome { conversation })
        }),
{
}

/// Reads a download shorthand: `download <address>` for video and
/// `audio <address>` for audio. Returns the address and whether only audio
/// is wanted, or `None` for a text that begins with neither prefix.
pub fn parse_shorthand(text: &str) -> (request: Option<(String, bool)>)
    ensures
        request is Some <==> shorthand(text@) is Some,
        request matches Some((url, audio_only)) ==> (url@, audio_only) == shorthand(
            text@,
        ).unwrap(),
{
    if starts_with(text, "download ") {
        Some((strip_leading(text, "download "), false))
    } else if starts_with(text, "audio ") {
        Some((strip_leading(text, "audio "), true))
    } else {
        None
    }
}

/// Sorts an event to its handler. Every event has exactly one.
pub fn classify(event: &InboundEvent) -> (route: Route)
    ensures
        route == route_of(event@),
{
    match event {
        InboundEvent::Command { .. } => Route::Command,
        InboundEvent::Message { text, .. } => match text {
            Some(text) => {
                if starts_with(text.as_str(), "download ") || starts_with(
                    text.as_str(),
                    "audio ",
                ) {
                    Route::Download
                } else {
                    Route::Welcome
                }
            },
            None => Route::Welcome,
        },
        InboundEvent::Callback { .. } => Route::Callback,
    }
}

/// The command handler: `start` is answered with the help text, `quality`
/// with the quality selector.
pub fn handle_commands(conversation: ConversationId, command: Command) -> (directive: Directive)
    ensures
        directive@ == command_directive(conversation, command),
{
    match command {
        Command::Start => Directive::Welcome { conversation },
        Command::Quality => Directive::OfferQualities { conversation, rows: quality_keyboard() },
    }
}

/// The download handler: turns a shorthand message into a download request
/// that carries the conversation's stored preference. A text that is no
/// shorthand, or a message without text, is answered with nothing.
pub fn handle_download_command(
    settings: &SettingsStore,
    conversation: ConversationId,
    text: Option<&str>,
) -> (directive: Directive)
    ensures
        directive@ == download_directive(
            settings@,
            conversation,
            match text {
                Some(text) => Some(text@),
                None => None,
            },
        ),
{
    match text {
        Some(text) => match parse_shorthand(text) {
            Some((url, audio_only)) => {
                let quality = settings.get(conversation);
                Directive::Download {
                    request: DownloadRequest { conversation, url, audio_only, quality },
                }
            },
            None => Directive::Nothing,
        },
        None => Directive::Nothing,
    }
}

/// The button handler: stores the tier that the pressed button selects and
/// answers with its confirmation. A press without payload or conversation,
/// or with a payload that no selector button carries, changes nothing and
/// is answered with nothing.
pub fn handle_callback(
    settings: &mut SettingsStore,
    conversation: Option<ConversationId>,
    payload: Option<&str>,
) -> (directive: Directive)
    ensures
        directive@ == callback_directive(
            conversation,
            match payload {
                Some(payload) => Some(payload@),
                None => None,
            },
        ),
        final(settings)@ == callback_settings(
            old(settings)@,
            conversation,
            match payload {
                Some(payload) => Some(payload@),
                None => None,
            },
        ),
        conversation is None || payload is None || QualityPreference::of_payload(
            payload.unwrap()@,
        ) is None ==> directive@ == DirectiveView::Nothing && final(settings)@ == old(settings)@,
{
    match (conversation, payload) {
        (Some(conversation), Some(payload)) => match QualityPreference::from_payload(payload) {
            Some(preference) => {
                settings.set(conversation, preference);
                Directive::ConfirmQuality { conversation, preference }
            },
            None => Directive::Nothing,
        },
        _ => Directive::Nothing,
    }
}

/// The text of an optional string, borrowed.
fn borrowed(text: &Option<String>) -> (slice: Option<&str>)
    ensures
        slice is Some <==> text is Some,
        slice matches Some(slice) ==> slice@ == text.unwrap()@,
{
    match text {
        Some(text) => Some(text.as_str()),
        None => None,
    }
}

/// Handles one event: sorts it to its handler and returns what the handler
/// answers. Only a button press that selects a tier changes the settings.
pub fn dispatch(settings: &mut SettingsStore, event: &InboundEvent) -> (directive: Directive)
    ensures
        directive@ == directive_of(old(settings)@, event@),
        final(settings)@ == settings_after(old(settings)@, event@),
{
    match event {
        InboundEvent::Command { conversation, command } => handle_commands(
            *conversation,
            *command,
        ),
        InboundEvent::Message { conversation, text } => match classify(event) {
            Route::Download => handle_download_command(settings, *conversation, borrowed(text)),
            _ => Directive::Welcome { conversation: *conversation },
        },
        InboundEvent::Callback { origin, payload } => handle_callback(
            settings,
            *origin,
            borrowed(payload),
        ),
    }
}

} // verus!
