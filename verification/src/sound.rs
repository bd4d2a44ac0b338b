//! Sounds: the names of the system's sound events, and the playing of a
//! sound file.

use crate::error::{outcome_view, ErrorView, NotifierError, Operation, OutcomeView};
use crate::paths::{extension, path_extension};
use crate::platform::{
    bare, with_text, Action, Effect, EffectView, Platform, Reply, ReplyView, Stream,
};
use crate::script::{
    effect_option_view, effects_view, missing_text, outcome_option_view, text_missing, Script,
    ScriptView,
};
use crate::text::{concat, lowercase_of, replace, replace_char, same_text, to_lowercase};
use vstd::prelude::*;

verus! {

/// The sound event that a lowercase name stands for, if it is one of the
/// names the notifier knows.
pub open spec fn known_sound(lowercase: Seq<char>) -> Option<Seq<char>> {
    if lowercase == "default"@ || lowercase == "notification.default"@ {
        Some("Notification.Default"@)
    } else if lowercase == "mail"@ || lowercase == "notification.mail"@ {
        Some("Notification.Mail"@)
    } else if lowercase == "reminder"@ || lowercase == "notification.reminder"@ {
        Some("Notification.Reminder"@)
    } else if lowercase == "im"@ || lowercase == "notification.im"@ {
        Some("Notification.IM"@)
    } else if lowercase == "alarm"@ || lowercase == "alarm.default"@ {
        Some("Alarm.Default"@)
    } else {
        None
    }
}

/// The sound event of a name whose lowercase form is `lowercase`: the event
/// that the lowercase form stands for, or the name itself where it stands
/// for none.
pub open spec fn sound_event_given(name: Seq<char>, lowercase: Seq<char>) -> Seq<char> {
    match known_sound(lowercase) {
        Some(event) => event,
        None => name,
    }
}

/// The sound event of a name, whatever its case.
pub open spec fn sound_event(name: Seq<char>) -> Seq<char> {
    sound_event_given(name, lowercase_of(name))
}

/// Names with the same lowercase form have the same sound event, where that
/// form is one the notifier knows.
pub proof fn lemma_sound_event_ignores_case(a: Seq<char>, b: Seq<char>)
    requires
        lowercase_of(a) == lowercase_of(b),
        known_sound(lowercase_of(a)) is Some,
    ensures
        sound_event(a) == sound_event(b),
        Some(sound_event(a)) == known_sound(lowercase_of(a)),
{
}

/// A name that the notifier does not know is its own sound event.
pub proof fn lemma_unknown_sound_is_kept(name: Seq<char>)
    requires
        known_sound(lowercase_of(name)) is None,
    ensures
        sound_event(name) == name,
{
}

/// The sound event of `name`, given the lowercase form of the name.
pub fn sound_event_for(name: &str, lowercase: &str) -> (event: String)
    ensures
        event@ == sound_event_given(name@, lowercase@),
{
    if same_text(lowercase, "default") || same_text(lowercase, "notification.default") {
        "Notification.Default".to_owned()
    } else if same_text(lowercase, "mail") || same_text(lowercase, "notification.mail") {
        "Notification.Mail".to_owned()
    } else if same_text(lowercase, "reminder") || same_text(lowercase, "notification.reminder") {
        "Notification.Reminder".to_owned()
    } else if same_text(lowercase, "im") || same_text(lowercase, "notification.im") {
        "Notification.IM".to_owned()
    } else if same_text(lowercase, "alarm") || same_text(lowercase, "alarm.default") {
        "Alarm.Default".to_owned()
    } else {
        name.to_owned()
    }
}

/// The sound event of a name. The case of the name does not matter; a name
/// that is not known is given back as it is.
pub fn resolve_system_sound(name: &str) -> (event: String)
    ensures
        event@ == sound_event(name@),
{
    let lowercase = to_lowercase(name);
    sound_event_for(name, lowercase.as_str())
}

/// The line that reports the sound event of a name.
pub open spec fn system_sound_line(name: Seq<char>) -> Seq<char> {
    "[INFO] System sound: "@ + sound_event(name)
}

/// What `play_system_sound` starts: on Windows a script that reports the
/// sound event on the error stream, elsewhere a script that has failed.
pub open spec fn system_sound_script(platform: Platform, name: Seq<char>) -> ScriptView {
    match platform {
        Platform::Windows => ScriptView::fresh(
            seq![with_text(Action::Print(Stream::Error), system_sound_line(name))],
        ),
        Platform::Other => ScriptView::failed(
            ErrorView::UnsupportedPlatform { operation: Operation::Sound },
        ),
    }
}

/// Starts reporting the sound event of a name. Nothing is played: the sound
/// of a toast is part of its markup.
pub fn play_system_sound(platform: Platform, name: &str) -> (script: Script)
    ensures
        script@ == system_sound_script(platform, name@),
{
    match platform {
        Platform::Windows => {
            let event = resolve_system_sound(name);
            let line = concat("[INFO] System sound: ", event.as_str());
            let mut effects: Vec<Effect> = Vec::new();
            effects.push(Effect::with_text(Action::Print(Stream::Error), line.as_str()));
            assert(effects_view(effects@) =~= seq![
                with_text(Action::Print(Stream::Error), system_sound_line(name@)),
            ]);
            Script::new(effects)
        },
        Platform::Other => Script::failed(
            NotifierError::UnsupportedPlatform { operation: Operation::Sound },
        ),
    }
}

/// The lowercase extension of a path, empty where the path has none.
pub open spec fn format_of(path: Seq<char>) -> Seq<char> {
    lowercase_of(
        match path_extension(path) {
            Some(found) => found,
            None => Seq::empty(),
        },
    )
}

/// Whether a lowercase extension is that of the one format that can be
/// played.
pub open spec fn is_playable(format: Seq<char>) -> bool {
    format == "wav"@
}

/// Accepts the lowercase extension `wav` and refuses every other with
/// `UnsupportedFormat`.
pub fn check_format(format: &str) -> (checked: Result<(), NotifierError>)
    ensures
        is_playable(format@) ==> checked is Ok,
        !is_playable(format@) ==> outcome_view(checked) == Err::<(), ErrorView>(
            ErrorView::UnsupportedFormat { extension: format@ },
        ),
{
    if same_text(format, "wav") {
        Ok(())
    } else {
        Err(NotifierError::UnsupportedFormat { extension: format.to_owned() })
    }
}

/// The lowercase extension of a path.
pub fn sound_format(path: &str) -> (format: String)
    ensures
        format@ == format_of(path@),
{
    match extension(path) {
        Some(found) => to_lowercase(found.as_str()),
        None => {
            proof {
                reveal_strlit("");
            }
            assert(""@ =~= Seq::<char>::empty());
            to_lowercase("")
        },
    }
}

/// The URI of an absolute path: the path with every backslash turned into a
/// slash, behind `file:///`.
pub open spec fn file_uri_of(absolute: Seq<char>) -> Seq<char> {
    "file:///"@ + replace_char(absolute, '\\', "/"@)
}

/// The URI of an absolute path.
pub fn file_uri(absolute: &str) -> (uri: String)
    ensures
        uri@ == file_uri_of(absolute@),
{
    let slashed = replace(absolute, '\\', "/");
    concat("file:///", slashed.as_str())
}

/// How long the notifier waits for playback to begin, in milliseconds.
pub const START_MILLIS: u64 = 100;

/// How long the notifier then waits for the sound to end, in milliseconds.
pub const PLAY_MILLIS: u64 = 3000;

/// The steps that play the file behind a URI: a media source is opened from
/// it and given to a new player, the player starts, and the notifier waits
/// for the sound to begin and then for it to end.
pub open spec fn playback_effects(uri: Seq<char>) -> Seq<EffectView> {
    seq![
        with_text(Action::CreateUri, uri),
        bare(Action::CreateMediaSource),
        bare(Action::CreateMediaPlayer),
        bare(Action::SetMediaSource),
        bare(Action::Play),
        bare(Action::Sleep(START_MILLIS)),
        bare(Action::Sleep(PLAY_MILLIS)),
    ]
}

/// Starts the steps that play the file at an absolute path.
pub fn playback_script(absolute: &str) -> (script: Script)
    ensures
        script@ == ScriptView::fresh(playback_effects(file_uri_of(absolute@))),
{
    let uri = file_uri(absolute);
    let mut effects: Vec<Effect> = Vec::new();
    effects.push(Effect::with_text(Action::CreateUri, uri.as_str()));
    effects.push(Effect::bare(Action::CreateMediaSource));
    effects.push(Effect::bare(Action::CreateMediaPlayer));
    effects.push(Effect::bare(Action::SetMediaSource));
    effects.push(Effect::bare(Action::Play));
    effects.push(Effect::bare(Action::Sleep(START_MILLIS)));
    effects.push(Effect::bare(Action::Sleep(PLAY_MILLIS)));
    assert(effects_view(effects@) =~= playback_effects(file_uri_of(absolute@)));
    Script::new(effects)
}

/// Where the playing of a sound file stands.
#[derive(Debug)]
pub enum Playback {
    /// The host is asked whether the file is there.
    Probing { path: String },
    /// The host is asked for the file's absolute path.
    Resolving { path: String },
    /// The platform is playing the file.
    Playing { script: Script },
    /// Nothing is left to do.
    Finished { result: Result<(), NotifierError> },
}

/// A `Playback` as plain values.
pub enum PlaybackView {
    Probing { path: Seq<char> },
    Resolving { path: Seq<char> },
    Playing { script: ScriptView },
    Finished { result: OutcomeView },
}

/// The state in which a script of platform steps is run: running, or
/// finished where the script asks for nothing.
pub open spec fn playing(script: ScriptView) -> PlaybackView {
    match script.outcome() {
        Some(result) => PlaybackView::Finished { result },
        None => PlaybackView::Playing { script },
    }
}

impl PlaybackView {
    /// The playing of a file as it starts. On a platform other than Windows
    /// it has failed already.
    pub open spec fn start(platform: Platform, path: Seq<char>) -> PlaybackView {
        match platform {
            Platform::Windows => PlaybackView::Probing { path },
            Platform::Other => PlaybackView::Finished {
                result: Err(ErrorView::UnsupportedPlatform { operation: Operation::Sound }),
            },
        }
    }

    /// What the host is asked next.
    pub open spec fn effect(self) -> Option<EffectView> {
        match self {
            PlaybackView::Probing { path } => Some(with_text(Action::PathExists, path)),
            PlaybackView::Resolving { path } => Some(with_text(Action::Canonicalize, path)),
            PlaybackView::Playing { script } => script.effect(),
            PlaybackView::Finished { .. } => None,
        }
    }

    /// How the playing ended, once it asks for nothing more.
    pub open spec fn outcome(self) -> Option<OutcomeView> {
        match self {
            PlaybackView::Finished { result } => Some(result),
            _ => None,
        }
    }

    /// The playing after the host's reply.
    ///
    /// A file that is not there ends it with `NotFound`; one that is there
    /// and whose extension is not `wav`, whatever its case, ends it with
    /// `UnsupportedFormat`. Only then is the absolute path asked for, and
    /// with it the platform steps begin.
    pub open spec fn resumed(self, reply: ReplyView) -> PlaybackView {
        match self {
            PlaybackView::Probing { path } => if reply == ReplyView::Flag(true) {
                if is_playable(format_of(path)) {
                    PlaybackView::Resolving { path }
                } else {
                    PlaybackView::Finished {
                        result: Err(ErrorView::UnsupportedFormat { extension: format_of(path) }),
                    }
                }
            } else {
                PlaybackView::Finished { result: Err(ErrorView::NotFound { path }) }
            },
            PlaybackView::Resolving { .. } => match reply {
                ReplyView::Text(absolute) => playing(
                    ScriptView::fresh(playback_effects(file_uri_of(absolute))),
                ),
                _ => PlaybackView::Finished {
                    result: Err(missing_text(Action::Canonicalize, reply)),
                },
            },
            PlaybackView::Playing { script } => playing(script.resumed(reply)),
            PlaybackView::Finished { .. } => self,
        }
    }

    /// Whether no step of the platform's media playback has been asked for
    /// yet.
    pub open spec fn before_platform(self) -> bool {
        self is Probing || self is Resolving
    }
}

/// A sound file that is not there, or that is not a `wav` file, is refused
/// before any step of the platform is asked for: the one thing the host was
/// asked is whether the file exists.
pub proof fn lemma_refused_before_playing(platform: Platform, path: Seq<char>, reply: ReplyView)
    requires
        platform == Platform::Windows,
    ensures
        PlaybackView::start(platform, path).effect() == Some(with_text(Action::PathExists, path)),
        reply != ReplyView::Flag(true) ==> PlaybackView::start(platform, path).resumed(reply) == (
        PlaybackView::Finished { result: Err(ErrorView::NotFound { path }) }),
        reply == ReplyView::Flag(true) && !is_playable(format_of(path)) ==> PlaybackView::start(
            platform,
            path,
        ).resumed(reply) == (PlaybackView::Finished {
            result: Err(ErrorView::UnsupportedFormat { extension: format_of(path) }),
        }),
        reply == ReplyView::Flag(true) && is_playable(format_of(path)) ==> PlaybackView::start(
            platform,
            path,
        ).resumed(reply) == (PlaybackView::Resolving { path }),
{
}

/// The platform's media steps follow the validation: before them the host is
/// asked for nothing but whether the file exists and what its absolute path
/// is, and they begin only with the reply that carries that path.
pub proof fn lemma_platform_steps_follow_validation(playback: PlaybackView, reply: ReplyView)
    requires
        playback.before_platform(),
    ensures
        playback.effect() matches Some(effect) && (effect.action == Action::PathExists
            || effect.action == Action::Canonicalize),
        playback is Probing ==> playback.resumed(reply).before_platform() || playback.resumed(
            reply,
        ) is Finished,
        !playback.resumed(reply).before_platform() && !(playback.resumed(reply) is Finished)
            ==> playback is Resolving && reply is Text,
{
}

impl View for Playback {
    type V = PlaybackView;

    open spec fn view(&self) -> PlaybackView {
        match self {
            Playback::Probing { path } => PlaybackView::Probing { path: path@ },
            Playback::Resolving { path } => PlaybackView::Resolving { path: path@ },
            Playback::Playing { script } => PlaybackView::Playing { script: script@ },
            Playback::Finished { result } => PlaybackView::Finished {
                result: outcome_view(*result),
            },
        }
    }
}

/// Runs a script of platform steps, or finishes where it asks for nothing.
fn enter_playing(script: Script) -> (next: Playback)
    ensures
        next@ == playing(script@),
{
    match script.outcome() {
        Some(result) => Playback::Finished { result },
        None => Playback::Playing { script },
    }
}

impl Playback {
    /// What the host is asked next.
    pub fn effect(&self) -> (effect: Option<Effect>)
        ensures
            effect_option_view(effect) == self@.effect(),
    {
        match self {
            Playback::Probing { path } => Some(
                Effect::with_text(Action::PathExists, path.as_str()),
            ),
            Playback::Resolving { path } => Some(
                Effect::with_text(Action::Canonicalize, path.as_str()),
            ),
            Playback::Playing { script } => script.effect(),
            Playback::Finished { .. } => None,
        }
    }

    /// How the playing ended, once it asks for nothing more.
    pub fn outcome(&self) -> (outcome: Option<Result<(), NotifierError>>)
        ensures
            outcome_option_view(outcome) == self@.outcome(),
    {
        match self {
            Playback::Finished { result } => match result {
                Ok(_) => Some(Ok(())),
                Err(error) => Some(Err(error.duplicate())),
            },
            _ => None,
        }
    }

    /// Takes the host's reply to the effect that was asked for.
    pub fn resume(self, reply: Reply) -> (next: Playback)
        ensures
            next@ == self@.resumed(reply@),
    {
        match self {
            Playback::Probing { path } => match reply {
                Reply::Flag(true) => {
                    let format = sound_format(path.as_str());
                    match check_format(format.as_str()) {
                        Ok(_) => Playback::Resolving { path },
                        Err(error) => Playback::Finished { result: Err(error) },
                    }
                },
                _ => Playback::Finished { result: Err(NotifierError::NotFound { path }) },
            },
            Playback::Resolving { .. } => match reply {
                Reply::Text(absolute) => enter_playing(playback_script(absolute.as_str())),
                other => Playback::Finished {
                    result: Err(text_missing(Action::Canonicalize, other)),
                },
            },
            Playback::Playing { script } => enter_playing(script.resume(reply)),
            Playback::Finished { result } => Playback::Finished { result },
        }
    }
}

/// Starts playing a sound file. On a platform other than Windows the
/// playing has failed with `UnsupportedPlatform` before anything is asked.
pub fn play_sound_file(platform: Platform, path: &str) -> (playback: Playback)
    ensures
        playback@ == PlaybackView::start(platform, path@),
{
    match platform {
        Platform::Windows => Playback::Probing { path: path.to_owned() },
        Platform::Other => Playback::Finished {
            result: Err(NotifierError::UnsupportedPlatform { operation: Operation::Sound }),
        },
    }
}

} // verus!
