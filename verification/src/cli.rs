//! The command line's arguments, and what one run of the notifier does with
//! them.

use crate::error::{ErrorView, NotifierError};
use crate::identity::{Identity, IdentityView};
use crate::platform::{with_text, Action, Effect, EffectView, Platform, Reply, ReplyView, Stream};
use crate::registration::{
    get_shortcut_path, is_registered_at, is_shortcut_lookup, lookup_view, register_at,
    unregister_at, QueryView, Registration, RegistrationQuery, RegistrationView, Unregistration,
    UnregistrationView,
};
use crate::script::{effect_option_view, Script, ScriptView};
use crate::sound::{play_sound_file, Playback, PlaybackView};
use crate::text::text_option_view;
use crate::toast::{notification_script, send_notification};
use vstd::prelude::*;

verus! {

/// What the command line asks for.
#[derive(Debug)]
pub struct Args {
    /// Notification title
    pub title: String,
    /// Notification message
    pub message: String,
    /// Name of a system sound
    pub sound: Option<String>,
    /// Path of a sound file to play after the toast
    pub sound_file: Option<String>,
    /// Whether the toast's own sound is switched off
    pub no_sound: bool,
    /// Whether to register the notifier and exit
    pub init: bool,
    /// Whether to remove the registration and exit
    pub uninstall: bool,
}

/// `Args` as plain values.
pub struct ArgsView {
    pub title: Seq<char>,
    pub message: Seq<char>,
    pub sound: Option<Seq<char>>,
    pub sound_file: Option<Seq<char>>,
    pub no_sound: bool,
    pub init: bool,
    pub uninstall: bool,
}

impl View for Args {
    type V = ArgsView;

    open spec fn view(&self) -> ArgsView {
        ArgsView {
            title: self.title@,
            message: self.message@,
            sound: text_option_view(self.sound),
            sound_file: text_option_view(self.sound_file),
            no_sound: self.no_sound,
            init: self.init,
            uninstall: self.uninstall,
        }
    }
}

impl ArgsView {
    /// Whether the toast is shown without its own sound: where that was asked
    /// for, and whenever a sound file is to be played after it.
    pub open spec fn silent(self) -> bool {
        self.no_sound || self.sound_file is Some
    }
}

impl Args {
    /// Whether the toast is shown without its own sound.
    pub fn silent(&self) -> (silent: bool)
        ensures
            silent == self@.silent(),
            !self.no_sound && self.sound_file is Some ==> silent,
    {
        self.no_sound || self.sound_file.is_some()
    }
}

/// A notification that is still to be shown.
#[derive(Debug)]
pub struct Notice {
    pub platform: Platform,
    pub app_id: String,
    pub title: String,
    pub message: String,
    pub silent: bool,
    pub sound_file: Option<String>,
}

/// A `Notice` as plain values.
pub struct NoticeView {
    pub platform: Platform,
    pub app_id: Seq<char>,
    pub title: Seq<char>,
    pub message: Seq<char>,
    pub silent: bool,
    pub sound_file: Option<Seq<char>>,
}

impl View for Notice {
    type V = NoticeView;

    open spec fn view(&self) -> NoticeView {
        NoticeView {
            platform: self.platform,
            app_id: self.app_id@,
            title: self.title@,
            message: self.message@,
            silent: self.silent,
            sound_file: text_option_view(self.sound_file),
        }
    }
}

/// The notification that the arguments ask for, to be shown under the
/// application identity `app_id`.
pub open spec fn notice_of(platform: Platform, app_id: Seq<char>, args: ArgsView) -> NoticeView {
    NoticeView {
        platform,
        app_id,
        title: args.title,
        message: args.message,
        silent: args.silent(),
        sound_file: args.sound_file,
    }
}

/// The line that announces a registration.
pub open spec fn registering_line() -> Seq<char> {
    "\x1b[1;32m[INFO]\x1b[0m Registering AUMID and creating Start Menu shortcut..."@
}

/// The line that confirms a registration.
pub open spec fn registered_line() -> Seq<char> {
    "\x1b[1;32m[INFO]\x1b[0m Registration complete!"@
}

/// The line that announces the removal of the registration.
pub open spec fn removing_line() -> Seq<char> {
    "\x1b[1;32m[INFO]\x1b[0m Removing registration..."@
}

/// The line that confirms the removal.
pub open spec fn removed_line() -> Seq<char> {
    "\x1b[1;32m[INFO]\x1b[0m Unregistration complete!"@
}

/// The line that warns of a notifier that is not registered.
pub open spec fn warning_line() -> Seq<char> {
    "\x1b[1;33m[WARN]\x1b[0m Not registered. Run with --init first for proper notifications."@
}

/// Where one run of the notifier stands.
#[derive(Debug)]
pub enum Session {
    /// The registration is announced.
    AnnouncingRegistration { registration: Registration },
    /// The notifier is being registered.
    Registering { registration: Registration },
    /// The removal is announced.
    AnnouncingRemoval { unregistration: Unregistration },
    /// The registration is being removed.
    Removing { unregistration: Unregistration },
    /// A line that confirms success is printed.
    Confirming { line: String },
    /// The host is asked whether the notifier is registered.
    Checking { query: RegistrationQuery, notice: Notice },
    /// The warning of a notifier that is not registered is printed.
    Warning { notice: Notice },
    /// The toast is being shown.
    Sending { script: Script, platform: Platform, sound_file: Option<String> },
    /// The sound file is being played.
    Playing { playback: Playback },
    /// The line of the error that ended the run is printed.
    Reporting { line: String },
    /// The run is over; `code` is the exit code of the process.
    Exited { code: i32 },
}

/// A `Session` as plain values.
pub enum SessionView {
    AnnouncingRegistration { registration: RegistrationView },
    Registering { registration: RegistrationView },
    AnnouncingRemoval { unregistration: UnregistrationView },
    Removing { unregistration: UnregistrationView },
    Confirming { line: Seq<char> },
    Checking { query: QueryView, notice: NoticeView },
    Warning { notice: NoticeView },
    Sending { script: ScriptView, platform: Platform, sound_file: Option<Seq<char>> },
    Playing { playback: PlaybackView },
    Reporting { line: Seq<char> },
    Exited { code: i32 },
}

impl View for Session {
    type V = SessionView;

    open spec fn view(&self) -> SessionView {
        match self {
            Session::AnnouncingRegistration { registration } =>
                SessionView::AnnouncingRegistration { registration: registration@ },
            Session::Registering { registration } => SessionView::Registering {
                registration: registration@,
            },
            Session::AnnouncingRemoval { unregistration } => SessionView::AnnouncingRemoval {
                unregistration: unregistration@,
            },
            Session::Removing { unregistration } => SessionView::Removing {
                unregistration: unregistration@,
            },
            Session::Confirming { line } => SessionView::Confirming { line: line@ },
            Session::Checking { query, notice } => SessionView::Checking {
                query: query@,
                notice: notice@,
            },
            Session::Warning { notice } => SessionView::Warning { notice: notice@ },
            Session::Sending { script, platform, sound_file } => SessionView::Sending {
                script: script@,
                platform: *platform,
                sound_file: text_option_view(*sound_file),
            },
            Session::Playing { playback } => SessionView::Playing { playback: playback@ },
            Session::Reporting { line } => SessionView::Reporting { line: line@ },
            Session::Exited { code } => SessionView::Exited { code: *code },
        }
    }
}

/// The run after a step of the registration: confirmed where the
/// registration succeeded, reported where it failed.
pub open spec fn after_registration(registration: RegistrationView) -> SessionView {
    match registration.outcome() {
        Some(Ok(_)) => SessionView::Confirming { line: registered_line() },
        Some(Err(error)) => SessionView::Reporting { line: error.line() },
        None => SessionView::Registering { registration },
    }
}

/// The run after a step of the removal.
pub open spec fn after_removal(unregistration: UnregistrationView) -> SessionView {
    match unregistration.outcome() {
        Some(Ok(_)) => SessionView::Confirming { line: removed_line() },
        Some(Err(error)) => SessionView::Reporting { line: error.line() },
        None => SessionView::Removing { unregistration },
    }
}

/// The run after a step of playing the sound file.
pub open spec fn after_playback(playback: PlaybackView) -> SessionView {
    match playback.outcome() {
        Some(Ok(_)) => SessionView::Exited { code: 0 },
        Some(Err(error)) => SessionView::Reporting { line: error.line() },
        None => SessionView::Playing { playback },
    }
}

/// The run after a step of showing the toast: once the toast is shown, the
/// sound file is played, where one was given.
pub open spec fn after_sending(
    script: ScriptView,
    platform: Platform,
    sound_file: Option<Seq<char>>,
) -> SessionView {
    match script.outcome() {
        Some(Ok(_)) => match sound_file {
            Some(path) => after_playback(PlaybackView::start(platform, path)),
            None => SessionView::Exited { code: 0 },
        },
        Some(Err(error)) => SessionView::Reporting { line: error.line() },
        None => SessionView::Sending { script, platform, sound_file },
    }
}

/// The run as it begins to show the toast.
pub open spec fn sending(notice: NoticeView) -> SessionView {
    after_sending(
        notification_script(
            notice.platform,
            notice.app_id,
            notice.title,
            notice.message,
            notice.silent,
        ),
        notice.platform,
        notice.sound_file,
    )
}

/// The run after a step of asking for the registration: a notifier that is
/// not registered is warned of, and the toast is shown all the same.
pub open spec fn after_check(query: QueryView, notice: NoticeView) -> SessionView {
    match query.answer() {
        Some(true) => sending(notice),
        Some(false) => SessionView::Warning { notice },
        None => SessionView::Checking { query, notice },
    }
}

impl SessionView {
    /// The run as it starts, given what looking for the shortcut's path gave.
    /// `init` comes before `uninstall`, and both before everything else.
    pub open spec fn start(
        platform: Platform,
        identity: IdentityView,
        args: ArgsView,
        found: Result<Seq<char>, ErrorView>,
    ) -> SessionView {
        if args.init {
            SessionView::AnnouncingRegistration {
                registration: RegistrationView::start(platform, found, identity),
            }
        } else if args.uninstall {
            SessionView::AnnouncingRemoval {
                unregistration: UnregistrationView::start(platform, found),
            }
        } else {
            after_check(
                QueryView::start(platform, found),
                notice_of(platform, identity.app_id, args),
            )
        }
    }

    /// What the host is asked next.
    pub open spec fn effect(self) -> Option<EffectView> {
        match self {
            SessionView::AnnouncingRegistration { .. } => Some(
                with_text(Action::Print(Stream::Output), registering_line()),
            ),
            SessionView::Registering { registration } => registration.effect(),
            SessionView::AnnouncingRemoval { .. } => Some(
                with_text(Action::Print(Stream::Output), removing_line()),
            ),
            SessionView::Removing { unregistration } => unregistration.effect(),
            SessionView::Confirming { line } => Some(
                with_text(Action::Print(Stream::Output), line),
            ),
            SessionView::Checking { query, .. } => query.effect(),
            SessionView::Warning { .. } => Some(
                with_text(Action::Print(Stream::Error), warning_line()),
            ),
            SessionView::Sending { script, .. } => script.effect(),
            SessionView::Playing { playback } => playback.effect(),
            SessionView::Reporting { line } => Some(with_text(Action::Print(Stream::Error), line)),
            SessionView::Exited { .. } => None,
        }
    }

    /// The exit code of the process, once the run is over.
    pub open spec fn exit_code(self) -> Option<i32> {
        match self {
            SessionView::Exited { code } => Some(code),
            _ => None,
        }
    }

    /// The run after the host's reply. A run ends with code 0, or with code 1
    /// after the line of the error that ended it.
    pub open spec fn resumed(self, reply: ReplyView) -> SessionView {
        match self {
            SessionView::AnnouncingRegistration { registration } => after_registration(
                registration,
            ),
            SessionView::Registering { registration } => after_registration(
                registration.resumed(reply),
            ),
            SessionView::AnnouncingRemoval { unregistration } => after_removal(unregistration),
            SessionView::Removing { unregistration } => after_removal(
                unregistration.resumed(reply),
            ),
            SessionView::Confirming { .. } => SessionView::Exited { code: 0 },
            SessionView::Checking { query, notice } => after_check(query.resumed(reply), notice),
            SessionView::Warning { notice } => sending(notice),
            SessionView::Sending { script, platform, sound_file } => after_sending(
                script.resumed(reply),
                platform,
                sound_file,
            ),
            SessionView::Playing { playback } => after_playback(playback.resumed(reply)),
            SessionView::Reporting { .. } => SessionView::Exited { code: 1 },
            SessionView::Exited { .. } => self,
        }
    }
}

impl SessionView {
    /// Whether the run is about a notification: asking for the registration,
    /// warning, showing the toast or playing the sound file.
    pub open spec fn notifying(self) -> bool {
        self is Checking || self is Warning || self is Sending || self is Playing
    }
}

/// `init` and `uninstall` leave everything else aside: a run that starts
/// with either never comes to a notification, whatever the host replies,
/// and `init` goes before `uninstall`.
pub proof fn lemma_init_and_uninstall_short_circuit(
    platform: Platform,
    identity: IdentityView,
    args: ArgsView,
    found: Result<Seq<char>, ErrorView>,
    session: SessionView,
    reply: ReplyView,
)
    requires
        !session.notifying(),
    ensures
        args.init ==> SessionView::start(platform, identity, args, found)
            is AnnouncingRegistration,
        !args.init && args.uninstall ==> SessionView::start(platform, identity, args, found)
            is AnnouncingRemoval,
        args.init || args.uninstall ==> !SessionView::start(
            platform,
            identity,
            args,
            found,
        ).notifying(),
        !session.resumed(reply).notifying(),
{
}

/// The name of a system sound changes nothing in a run: the sound of a
/// toast is the default one or none.
pub proof fn lemma_sound_name_changes_nothing(
    platform: Platform,
    identity: IdentityView,
    args: ArgsView,
    name: Option<Seq<char>>,
    found: Result<Seq<char>, ErrorView>,
)
    ensures
        SessionView::start(platform, identity, ArgsView { sound: name, ..args }, found)
            == SessionView::start(platform, identity, args, found),
{
}

/// A sound file silences the toast: where one is given and nothing else is
/// asked for, the markup that is sent is the silent one, whether or not the
/// notifier is registered.
pub proof fn lemma_sound_file_silences_toast(
    platform: Platform,
    app_id: Seq<char>,
    args: ArgsView,
    path: Seq<char>,
)
    requires
        !args.no_sound,
        args.sound_file == Some(path),
    ensures
        args.silent(),
        notice_of(platform, app_id, args).silent,
        sending(notice_of(platform, app_id, args)) == after_sending(
            notification_script(platform, app_id, args.title, args.message, true),
            platform,
            Some(path),
        ),
{
}

/// A run ends with code 1 only behind the line of an error, and with code 0
/// only where no error was reported: from a state that reports an error the
/// next state is the exit with code 1, and no other state leads there.
pub proof fn lemma_exit_code_follows_report(session: SessionView, reply: ReplyView)
    requires
        !(session is Exited),
    ensures
        session.resumed(reply) == (SessionView::Exited { code: 1 }) <==> session is Reporting,
        session.resumed(reply) is Exited ==> session.resumed(reply).exit_code() == Some(
            if session is Reporting {
                1i32
            } else {
                0i32
            },
        ),
{
}

fn settle_registration(registration: Registration) -> (next: Session)
    ensures
        next@ == after_registration(registration@),
{
    match registration.outcome() {
        Some(Ok(_)) => Session::Confirming {
            line: "\x1b[1;32m[INFO]\x1b[0m Registration complete!".to_owned(),
        },
        Some(Err(error)) => Session::Reporting { line: error.error_line() },
        None => Session::Registering { registration },
    }
}

fn settle_removal(unregistration: Unregistration) -> (next: Session)
    ensures
        next@ == after_removal(unregistration@),
{
    match unregistration.outcome() {
        Some(Ok(_)) => Session::Confirming {
            line: "\x1b[1;32m[INFO]\x1b[0m Unregistration complete!".to_owned(),
        },
        Some(Err(error)) => Session::Reporting { line: error.error_line() },
        None => Session::Removing { unregistration },
    }
}

fn settle_playback(playback: Playback) -> (next: Session)
    ensures
        next@ == after_playback(playback@),
{
    match playback.outcome() {
        Some(Ok(_)) => Session::Exited { code: 0 },
        Some(Err(error)) => Session::Reporting { line: error.error_line() },
        None => Session::Playing { playback },
    }
}

fn settle_sending(script: Script, platform: Platform, sound_file: Option<String>) -> (next:
    Session)
    ensures
        next@ == after_sending(script@, platform, text_option_view(sound_file)),
{
    match script.outcome() {
        Some(Ok(_)) => match sound_file {
            Some(path) => settle_playback(play_sound_file(platform, path.as_str())),
            None => Session::Exited { code: 0 },
        },
        Some(Err(error)) => Session::Reporting { line: error.error_line() },
        None => Session::Sending { script, platform, sound_file },
    }
}

fn begin_sending(notice: Notice) -> (next: Session)
    ensures
        next@ == sending(notice@),
{
    let script = send_notification(
        notice.platform,
        notice.app_id.as_str(),
        notice.title.as_str(),
        notice.message.as_str(),
        notice.silent,
    );
    settle_sending(script, notice.platform, notice.sound_file)
}

fn settle_check(query: RegistrationQuery, notice: Notice) -> (next: Session)
    ensures
        next@ == after_check(query@, notice@),
{
    match query.answer() {
        Some(true) => begin_sending(notice),
        Some(false) => Session::Warning { notice },
        None => Session::Checking { query, notice },
    }
}

impl Session {
    /// What the host is asked next.
    pub fn effect(&self) -> (effect: Option<Effect>)
        ensures
            effect_option_view(effect) == self@.effect(),
    {
        match self {
            Session::AnnouncingRegistration { .. } => Some(
                Effect::with_text(
                    Action::Print(Stream::Output),
                    "\x1b[1;32m[INFO]\x1b[0m Registering AUMID and creating Start Menu shortcut...",
                ),
            ),
            Session::Registering { registration } => registration.effect(),
            Session::AnnouncingRemoval { .. } => Some(
                Effect::with_text(
                    Action::Print(Stream::Output),
                    "\x1b[1;32m[INFO]\x1b[0m Removing registration...",
                ),
            ),
            Session::Removing { unregistration } => unregistration.effect(),
            Session::Confirming { line } => Some(
                Effect::with_text(Action::Print(Stream::Output), line.as_str()),
            ),
            Session::Checking { query, .. } => query.effect(),
            Session::Warning { .. } => Some(
                Effect::with_text(
                    Action::Print(Stream::Error),
                    "\x1b[1;33m[WARN]\x1b[0m Not registered. Run with --init first for proper notifications.",
                ),
            ),
            Session::Sending { script, .. } => script.effect(),
            Session::Playing { playback } => playback.effect(),
            Session::Reporting { line } => Some(
                Effect::with_text(Action::Print(Stream::Error), line.as_str()),
            ),
            Session::Exited { .. } => None,
        }
    }

    /// The exit code of the process, once the run is over.
    pub fn exit_code(&self) -> (code: Option<i32>)
        ensures
            code == self@.exit_code(),
    {
        match self {
            Session::Exited { code } => Some(*code),
            _ => None,
        }
    }

    /// Takes the host's reply to the effect that was asked for.
    pub fn resume(self, reply: Reply) -> (next: Session)
        ensures
            next@ == self@.resumed(reply@),
    {
        match self {
            Session::AnnouncingRegistration { registration } => settle_registration(registration),
            Session::Registering { registration } => settle_registration(
                registration.resume(reply),
            ),
            Session::AnnouncingRemoval { unregistration } => settle_removal(unregistration),
            Session::Removing { unregistration } => settle_removal(unregistration.resume(reply)),
            Session::Confirming { .. } => Session::Exited { code: 0 },
            Session::Checking { query, notice } => settle_check(query.resume(reply), notice),
            Session::Warning { notice } => begin_sending(notice),
            Session::Sending { script, platform, sound_file } => settle_sending(
                script.resume(reply),
                platform,
                sound_file,
            ),
            Session::Playing { playback } => settle_playback(playback.resume(reply)),
            Session::Reporting { .. } => Session::Exited { code: 1 },
            Session::Exited { code } => Session::Exited { code },
        }
    }
}

/// Starts a run of the notifier under the given identity, given what
/// looking for the shortcut's path gave.
pub fn run_at(
    platform: Platform,
    identity: &Identity,
    args: Args,
    found: Result<String, NotifierError>,
) -> (session: Session)
    ensures
        session@ == SessionView::start(platform, identity@, args@, lookup_view(found)),
{
    if args.init {
        Session::AnnouncingRegistration { registration: register_at(platform, found, identity) }
    } else if args.uninstall {
        Session::AnnouncingRemoval { unregistration: unregister_at(platform, found) }
    } else {
        let silent = args.silent();
        let notice = Notice {
            platform,
            app_id: identity.app_id.clone(),
            title: args.title,
            message: args.message,
            silent,
            sound_file: args.sound_file,
        };
        settle_check(is_registered_at(platform, found), notice)
    }
}

/// Starts a run of the notifier for the current user under the given
/// identity. The shortcut's path is looked for on Windows only.
pub fn run(platform: Platform, identity: &Identity, args: Args) -> (session: Session)
    ensures
        exists|found: Result<Seq<char>, ErrorView>|
            is_shortcut_lookup(found, identity@.shortcut_name) && session@
                == #[trigger] SessionView::start(platform, identity@, args@, found),
{
    let found = match platform {
        Platform::Windows => get_shortcut_path(identity),
        Platform::Other => Err(NotifierError::platform("Failed to get base directories", None)),
    };
    let ghost seen = lookup_view(found);
    let session = run_at(platform, identity, args, found);
    assert(session@ == SessionView::start(platform, identity@, args@, seen));
    session
}

} // verus!
