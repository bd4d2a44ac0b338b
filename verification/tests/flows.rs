use std::path::Path;
use toast_notifier::cli::{run, run_at, Args, Session};
use toast_notifier::error::NotifierError;
use toast_notifier::identity::Identity;
use toast_notifier::platform::{Action, Effect, Platform, Reply, Stream};
use toast_notifier::registration::{
    create_shortcut_with_aumid, get_shortcut_path, get_start_menu_path, is_registered,
    is_registered_at, link_script, register, register_at, shortcut_path_in,
    start_menu_path_under, unregister, unregister_at, Registration, RegistrationQuery,
    Unregistration, APP_ID_PROPERTY_FORMAT, APP_ID_PROPERTY_NUMBER,
};
use toast_notifier::toast::create_toast_xml;

/// A host that keeps its files in memory and writes down what it was asked.
struct Host {
    files: Vec<String>,
    executable: Option<String>,
    failing: Option<Action>,
    log: Vec<(Action, String)>,
    in_scope: bool,
    scopes_entered: u32,
    scopes_left: u32,
}

impl Host {
    fn new() -> Host {
        Host {
            files: Vec::new(),
            executable: Some(join("tools", "notifier.exe")),
            failing: None,
            log: Vec::new(),
            in_scope: false,
            scopes_entered: 0,
            scopes_left: 0,
        }
    }

    fn perform(&mut self, effect: Effect) -> Reply {
        let Effect { action, text } = effect;
        self.log.push((action, text.clone()));
        let inside = matches!(
            action,
            Action::CreateShellLink
                | Action::SetLinkTarget
                | Action::SetLinkWorkingDirectory
                | Action::SetLinkDescription
                | Action::OpenPropertyStore
                | Action::SetAppUserModelId
                | Action::CommitProperties
                | Action::OpenPersistFile
                | Action::SaveLink
        );
        assert!(!inside || self.in_scope, "{:?} was asked for outside the scope", action);
        if action == Action::ComUninitialize {
            assert!(self.in_scope, "the scope was left without having been entered");
            self.in_scope = false;
            self.scopes_left += 1;
        }
        if self.failing == Some(action) {
            return Reply::Failed("refused".to_string());
        }
        match action {
            Action::CurrentExecutable => match &self.executable {
                Some(path) => Reply::Text(path.clone()),
                None => Reply::Failed("no executable".to_string()),
            },
            Action::PathExists => Reply::Flag(self.files.contains(&text)),
            Action::Canonicalize => Reply::Text(join("absolute", &text)),
            Action::ComInitialize => {
                assert!(!self.in_scope, "the scope was entered twice");
                self.in_scope = true;
                self.scopes_entered += 1;
                Reply::Done
            }
            Action::SaveLink => {
                if !self.files.contains(&text) {
                    self.files.push(text);
                }
                Reply::Done
            }
            Action::RemoveFile => {
                self.files.retain(|file| *file != text);
                Reply::Done
            }
            _ => Reply::Done,
        }
    }

    fn actions(&self) -> Vec<Action> {
        self.log.iter().map(|(action, _)| *action).collect()
    }

    fn printed(&self, stream: Stream) -> Vec<String> {
        self.log
            .iter()
            .filter(|(action, _)| *action == Action::Print(stream))
            .map(|(_, text)| text.clone())
            .collect()
    }

    fn registers(&mut self, mut registration: Registration) -> Result<(), NotifierError> {
        while let Some(effect) = registration.effect() {
            assert!(registration.outcome().is_none());
            let reply = self.perform(effect);
            registration = registration.resume(reply);
        }
        assert!(!self.in_scope, "the scope was never left");
        registration.outcome().expect("a finished registration has an outcome")
    }

    fn unregisters(&mut self, mut unregistration: Unregistration) -> Result<(), NotifierError> {
        while let Some(effect) = unregistration.effect() {
            let reply = self.perform(effect);
            unregistration = unregistration.resume(reply);
        }
        unregistration.outcome().expect("a finished removal has an outcome")
    }

    fn answers(&mut self, mut query: RegistrationQuery) -> bool {
        while let Some(effect) = query.effect() {
            let reply = self.perform(effect);
            query = query.resume(reply);
        }
        query.answer().expect("a finished question has an answer")
    }

    fn runs(&mut self, mut session: Session) -> i32 {
        while let Some(effect) = session.effect() {
            assert!(session.exit_code().is_none());
            let reply = self.perform(effect);
            session = session.resume(reply);
        }
        assert!(!self.in_scope, "the scope was never left");
        session.exit_code().expect("a finished run has an exit code")
    }
}

fn join(base: &str, name: &str) -> String {
    Path::new(base).join(name).to_string_lossy().into_owned()
}

fn menu() -> String {
    join(&join("home", "menu"), "Programs")
}

const APP_ID: &str = "Acme.AcmeNotifier";
const SHORTCUT_NAME: &str = "Acme Notifier.lnk";
const SHORTCUT_DESCRIPTION: &str = "Acme Notification Tool";

fn identity() -> Identity {
    Identity::new(APP_ID, SHORTCUT_NAME, SHORTCUT_DESCRIPTION)
}

fn shortcut() -> String {
    join(&menu(), SHORTCUT_NAME)
}

fn plain_args() -> Args {
    Args {
        title: "Build".to_string(),
        message: "Task completed".to_string(),
        sound: None,
        sound_file: None,
        no_sound: false,
        init: false,
        uninstall: false,
    }
}

#[test]
fn identity_holds_the_three_texts() {
    let identity = identity();
    assert_eq!(identity.app_id, APP_ID);
    assert_eq!(identity.shortcut_name, SHORTCUT_NAME);
    assert_eq!(identity.description, SHORTCUT_DESCRIPTION);
    let copy = identity.duplicate();
    assert_eq!(copy.app_id, APP_ID);
    assert_eq!(copy.shortcut_name, SHORTCUT_NAME);
    assert_eq!(copy.description, SHORTCUT_DESCRIPTION);
}

#[test]
fn key_of_the_identity_property() {
    assert_eq!(APP_ID_PROPERTY_FORMAT, 0x9F4C2855_9F79_4B39_A8D0_E1D42DE1D5F3);
    assert_eq!(APP_ID_PROPERTY_NUMBER, 5);
}

#[test]
fn link_steps_for_a_given_directory() {
    let other = Identity::new("Other.Id", "Other.lnk", "Other tool");
    let mut script = link_script("C:\\bin\\n.exe", Some("D:\\work"), "S:\\menu\\Other.lnk", &other);
    let mut seen = Vec::new();
    while let Some(effect) = script.effect() {
        seen.push((effect.action, effect.text));
        script = script.resume(Reply::Done);
    }
    assert_eq!(
        seen,
        vec![
            (Action::CreateShellLink, String::new()),
            (Action::SetLinkTarget, "C:\\bin\\n.exe".to_string()),
            (Action::SetLinkWorkingDirectory, "D:\\work".to_string()),
            (Action::SetLinkDescription, "Other tool".to_string()),
            (Action::OpenPropertyStore, String::new()),
            (Action::SetAppUserModelId, "Other.Id".to_string()),
            (Action::CommitProperties, String::new()),
            (Action::OpenPersistFile, String::new()),
            (Action::SaveLink, "S:\\menu\\Other.lnk".to_string()),
        ]
    );
    let script = link_script("n.exe", None, "Other.lnk", &other);
    let mut count = 0;
    let mut script = script;
    while let Some(effect) = script.effect() {
        assert_ne!(effect.action, Action::SetLinkWorkingDirectory);
        count += 1;
        script = script.resume(Reply::Done);
    }
    assert_eq!(count, 8);
}

#[test]
fn registration_for_given_directories() {
    let mut host = Host::new();
    let registration = Registration::located(
        "C:\\bin\\n.exe",
        Some("C:\\bin"),
        "S:\\menu\\Acme Notifier.lnk",
        Some("S:\\menu".to_string()),
        &identity(),
    );
    assert!(host.registers(registration).is_ok());
    assert_eq!(host.log[0], (Action::CreateDirectories, "S:\\menu".to_string()));
    assert_eq!(host.log[1].0, Action::ComInitialize);
    assert_eq!(host.log[4], (Action::SetLinkWorkingDirectory, "C:\\bin".to_string()));
    assert_eq!(host.log.len(), 12);

    let mut host = Host::new();
    let registration =
        Registration::located("n.exe", None, "Acme Notifier.lnk", None, &identity());
    assert!(host.registers(registration).is_ok());
    assert_eq!(host.log[0].0, Action::ComInitialize);
    assert!(!host.actions().contains(&Action::CreateDirectories));
    assert!(!host.actions().contains(&Action::SetLinkWorkingDirectory));
    assert_eq!(host.log.len(), 10);
    assert_eq!(host.files, vec!["Acme Notifier.lnk".to_string()]);
}

#[test]
fn start_menu_lies_below_the_local_data() {
    let base = join("home", "local");
    let expected = Path::new(&base)
        .join("Microsoft")
        .join("Windows")
        .join("Start Menu")
        .join("Programs");
    assert_eq!(start_menu_path_under(&base), expected.to_string_lossy());
    assert_ne!(start_menu_path_under(&base), base);
}

#[test]
fn shortcut_lies_in_the_start_menu() {
    let path = shortcut_path_in(&menu(), SHORTCUT_NAME);
    assert_eq!(Path::new(&path).file_name().unwrap(), SHORTCUT_NAME);
    assert_eq!(Path::new(&path).parent().unwrap(), Path::new(&menu()));
}

#[test]
fn paths_of_the_current_user() {
    match get_start_menu_path() {
        Ok(path) => {
            let tail = Path::new("Microsoft").join("Windows").join("Start Menu").join("Programs");
            assert!(Path::new(&path).ends_with(&tail));
            assert_ne!(Path::new(&path), tail.as_path());
            assert_eq!(
                get_shortcut_path(&identity()).unwrap(),
                shortcut_path_in(&path, SHORTCUT_NAME)
            );
        }
        Err(error) => {
            assert_eq!(error.message(), "Failed to get base directories");
            assert!(get_shortcut_path(&identity()).is_err());
        }
    }
}

#[test]
fn link_steps_with_a_working_directory() {
    let exe = join("tools", "notifier.exe");
    let mut script = create_shortcut_with_aumid(&exe, &shortcut(), &identity());
    let mut seen = Vec::new();
    while let Some(effect) = script.effect() {
        seen.push((effect.action, effect.text));
        script = script.resume(Reply::Done);
    }
    assert!(matches!(script.outcome(), Some(Ok(()))));
    assert_eq!(
        seen,
        vec![
            (Action::CreateShellLink, String::new()),
            (Action::SetLinkTarget, exe),
            (Action::SetLinkWorkingDirectory, "tools".to_string()),
            (Action::SetLinkDescription, SHORTCUT_DESCRIPTION.to_string()),
            (Action::OpenPropertyStore, String::new()),
            (Action::SetAppUserModelId, APP_ID.to_string()),
            (Action::CommitProperties, String::new()),
            (Action::OpenPersistFile, String::new()),
            (Action::SaveLink, shortcut()),
        ]
    );
}

#[test]
fn link_steps_without_a_working_directory() {
    let mut script = create_shortcut_with_aumid("", &shortcut(), &identity());
    let mut actions = Vec::new();
    while let Some(effect) = script.effect() {
        actions.push(effect.action);
        script = script.resume(Reply::Done);
    }
    assert_eq!(actions.len(), 8);
    assert!(!actions.contains(&Action::SetLinkWorkingDirectory));
}

#[test]
fn registration_asks_for_its_steps_in_order() {
    let mut host = Host::new();
    let result = host.registers(register_at(Platform::Windows, Ok(shortcut()), &identity()));
    assert!(result.is_ok());
    assert_eq!(
        host.actions(),
        vec![
            Action::CurrentExecutable,
            Action::CreateDirectories,
            Action::ComInitialize,
            Action::CreateShellLink,
            Action::SetLinkTarget,
            Action::SetLinkWorkingDirectory,
            Action::SetLinkDescription,
            Action::OpenPropertyStore,
            Action::SetAppUserModelId,
            Action::CommitProperties,
            Action::OpenPersistFile,
            Action::SaveLink,
            Action::ComUninitialize,
        ]
    );
    assert_eq!(host.log[1].1, menu());
    assert_eq!(host.log[4].1, join("tools", "notifier.exe"));
    assert_eq!(host.log[11].1, shortcut());
    assert_eq!((host.scopes_entered, host.scopes_left), (1, 1));
    assert_eq!(host.files, vec![shortcut()]);
}

#[test]
fn scope_is_left_after_every_failure_inside_it() {
    let inside = [
        (Action::CreateShellLink, "Failed to create ShellLink"),
        (Action::SetLinkTarget, "Failed to set shortcut path"),
        (Action::SetLinkWorkingDirectory, "Failed to set working directory"),
        (Action::SetLinkDescription, "Failed to set description"),
        (Action::OpenPropertyStore, "Failed to get IPropertyStore"),
        (Action::SetAppUserModelId, "Failed to set AUMID property"),
        (Action::CommitProperties, "Failed to commit property store"),
        (Action::OpenPersistFile, "Failed to get IPersistFile"),
        (Action::SaveLink, "Failed to save shortcut"),
    ];
    for (failing, context) in inside {
        let mut host = Host::new();
        host.failing = Some(failing);
        let error = host.registers(register_at(Platform::Windows, Ok(shortcut()), &identity())).unwrap_err();
        assert!(matches!(error, NotifierError::PlatformError { .. }));
        assert_eq!(error.message(), format!("{}: refused", context));
        let actions = host.actions();
        assert_eq!(actions[actions.len() - 2], failing);
        assert_eq!(actions[actions.len() - 1], Action::ComUninitialize);
        assert_eq!((host.scopes_entered, host.scopes_left), (1, 1));
        assert!(host.files.is_empty());
    }
}

#[test]
fn scope_that_was_not_entered_is_not_left() {
    let mut host = Host::new();
    host.failing = Some(Action::ComInitialize);
    let error = host.registers(register_at(Platform::Windows, Ok(shortcut()), &identity())).unwrap_err();
    assert_eq!(error.message(), "Failed to initialize COM: refused");
    assert_eq!(
        host.actions(),
        vec![Action::CurrentExecutable, Action::CreateDirectories, Action::ComInitialize]
    );
    assert_eq!((host.scopes_entered, host.scopes_left), (0, 0));
}

#[test]
fn registration_ends_where_the_directory_cannot_be_created() {
    let mut host = Host::new();
    host.failing = Some(Action::CreateDirectories);
    let error = host.registers(register_at(Platform::Windows, Ok(shortcut()), &identity())).unwrap_err();
    assert_eq!(error.message(), "Failed to create Start Menu directory: refused");
    assert_eq!(host.actions(), vec![Action::CurrentExecutable, Action::CreateDirectories]);
}

#[test]
fn registration_ends_without_the_executable() {
    let mut host = Host::new();
    host.executable = None;
    let error = host.registers(register_at(Platform::Windows, Ok(shortcut()), &identity())).unwrap_err();
    assert_eq!(error.message(), "Failed to get executable path: no executable");
    assert_eq!(host.actions(), vec![Action::CurrentExecutable]);

    let registration = register_at(Platform::Windows, Ok(shortcut()), &identity()).resume(Reply::Done);
    assert!(registration.effect().is_none());
    let error = registration.outcome().unwrap().unwrap_err();
    assert_eq!(error.message(), "Failed to get executable path");
}

#[test]
fn registration_ends_without_the_shortcut_path() {
    let lost = NotifierError::platform("Failed to get base directories", None);
    let mut host = Host::new();
    let error = host.registers(register_at(Platform::Windows, Err(lost), &identity())).unwrap_err();
    assert_eq!(error.message(), "Failed to get base directories");
    assert_eq!(host.actions(), vec![Action::CurrentExecutable]);

    let lost = NotifierError::platform("Failed to get base directories", None);
    let mut host = Host::new();
    host.executable = None;
    let error = host.registers(register_at(Platform::Windows, Err(lost), &identity())).unwrap_err();
    assert_eq!(error.message(), "Failed to get executable path: no executable");
}

#[test]
fn finished_registration_stays_finished() {
    let mut host = Host::new();
    host.failing = Some(Action::CreateDirectories);
    let mut registration = register_at(Platform::Windows, Ok(shortcut()), &identity());
    while let Some(effect) = registration.effect() {
        let reply = host.perform(effect);
        registration = registration.resume(reply);
    }
    let registration = registration.resume(Reply::Done).resume(Reply::Flag(true));
    assert!(registration.effect().is_none());
    assert!(matches!(registration.outcome(), Some(Err(_))));
}

#[test]
fn registration_is_refused_off_windows() {
    for registration in [register(Platform::Other, &identity()), register_at(Platform::Other, Ok(shortcut()), &identity())] {
        assert!(registration.effect().is_none());
        let error = registration.outcome().unwrap().unwrap_err();
        assert!(matches!(error, NotifierError::UnsupportedPlatform { .. }));
        assert_eq!(error.message(), "Registration is only supported on Windows");
    }
}

#[test]
fn registration_of_the_current_user_starts_with_the_executable() {
    let registration = register(Platform::Windows, &identity());
    assert_eq!(registration.effect().map(|e| e.action), Some(Action::CurrentExecutable));
}

#[test]
fn removal_is_refused_off_windows() {
    for unregistration in
        [unregister(Platform::Other, &identity()), unregister_at(Platform::Other, Ok(shortcut()))]
    {
        assert!(unregistration.effect().is_none());
        let error = unregistration.outcome().unwrap().unwrap_err();
        assert!(matches!(error, NotifierError::UnsupportedPlatform { .. }));
        assert_eq!(error.message(), "Unregistration is only supported on Windows");
    }
}

#[test]
fn removal_of_what_is_not_there_does_nothing() {
    let mut host = Host::new();
    let result = host.unregisters(unregister_at(Platform::Windows, Ok(shortcut())));
    assert!(result.is_ok());
    assert_eq!(host.log, vec![(Action::PathExists, shortcut())]);
}

#[test]
fn removal_deletes_the_shortcut() {
    let mut host = Host::new();
    host.files.push(shortcut());
    host.files.push("other.lnk".to_string());
    let result = host.unregisters(unregister_at(Platform::Windows, Ok(shortcut())));
    assert!(result.is_ok());
    assert_eq!(
        host.log,
        vec![(Action::PathExists, shortcut()), (Action::RemoveFile, shortcut())]
    );
    assert_eq!(host.files, vec!["other.lnk".to_string()]);
}

#[test]
fn removal_reports_a_failed_delete() {
    let mut host = Host::new();
    host.files.push(shortcut());
    host.failing = Some(Action::RemoveFile);
    let error = host.unregisters(unregister_at(Platform::Windows, Ok(shortcut()))).unwrap_err();
    assert_eq!(error.message(), "Failed to remove shortcut: refused");
}

#[test]
fn removal_ends_without_the_shortcut_path() {
    let lost = NotifierError::platform("Failed to get base directories", None);
    let mut host = Host::new();
    let error = host.unregisters(unregister_at(Platform::Windows, Err(lost))).unwrap_err();
    assert_eq!(error.message(), "Failed to get base directories");
    assert!(host.log.is_empty());
}

#[test]
fn nothing_is_registered_off_windows() {
    let mut host = Host::new();
    host.files.push(shortcut());
    assert!(!host.answers(is_registered(Platform::Other, &identity())));
    assert!(!host.answers(is_registered_at(Platform::Other, Ok(shortcut()))));
    assert!(host.log.is_empty());
}

#[test]
fn nothing_is_registered_without_the_shortcut_path() {
    let lost = NotifierError::platform("Failed to get base directories", None);
    let mut host = Host::new();
    assert!(!host.answers(is_registered_at(Platform::Windows, Err(lost))));
    assert!(host.log.is_empty());
}

#[test]
fn a_reply_that_is_no_flag_means_not_registered() {
    let query = is_registered_at(Platform::Windows, Ok(shortcut()));
    assert_eq!(query.answer(), None);
    assert_eq!(query.resume(Reply::Done).answer(), Some(false));
    let query = is_registered_at(Platform::Windows, Ok(shortcut()));
    assert_eq!(query.resume(Reply::Failed("denied".to_string())).answer(), Some(false));
    let query = is_registered_at(Platform::Windows, Ok(shortcut()));
    assert_eq!(query.resume(Reply::Flag(true)).answer(), Some(true));
}

#[test]
fn registered_between_register_and_unregister() {
    let mut host = Host::new();
    assert!(!host.answers(is_registered_at(Platform::Windows, Ok(shortcut()))));
    assert!(host.registers(register_at(Platform::Windows, Ok(shortcut()), &identity())).is_ok());
    assert!(host.answers(is_registered_at(Platform::Windows, Ok(shortcut()))));
    assert!(host.unregisters(unregister_at(Platform::Windows, Ok(shortcut()))).is_ok());
    assert!(!host.answers(is_registered_at(Platform::Windows, Ok(shortcut()))));
    assert!(host.unregisters(unregister_at(Platform::Windows, Ok(shortcut()))).is_ok());
    assert!(!host.answers(is_registered_at(Platform::Windows, Ok(shortcut()))));
}

#[test]
fn silent_where_asked_for_or_where_a_file_is_played() {
    let mut args = plain_args();
    args.sound_file = Some("chime.wav".to_string());
    assert!(args.silent());
    let mut args = plain_args();
    args.no_sound = true;
    assert!(args.silent());
    args.sound_file = Some("chime.wav".to_string());
    assert!(args.silent());
    let mut args = plain_args();
    args.sound = Some("mail".to_string());
    assert!(!args.silent());
}

#[test]
fn init_registers_and_the_next_run_does_not_warn() {
    let mut host = Host::new();
    let mut args = plain_args();
    args.init = true;
    let code = host.runs(run_at(Platform::Windows, &identity(), args, Ok(shortcut())));
    assert_eq!(code, 0);
    assert_eq!(host.files, vec![shortcut()]);
    assert_eq!(
        host.printed(Stream::Output),
        vec![
            "\u{1b}[1;32m[INFO]\u{1b}[0m Registering AUMID and creating Start Menu shortcut..."
                .to_string(),
            "\u{1b}[1;32m[INFO]\u{1b}[0m Registration complete!".to_string(),
        ]
    );
    assert!(host.printed(Stream::Error).is_empty());
    assert_eq!(host.log.first().unwrap().0, Action::Print(Stream::Output));
    assert_eq!(host.log.last().unwrap().0, Action::Print(Stream::Output));
    assert!(!host.actions().contains(&Action::ShowToast));

    host.log.clear();
    let code = host.runs(run_at(Platform::Windows, &identity(), plain_args(), Ok(shortcut())));
    assert_eq!(code, 0);
    assert!(host.printed(Stream::Error).is_empty());
    assert!(host.printed(Stream::Output).is_empty());
    assert_eq!(
        host.actions(),
        vec![
            Action::PathExists,
            Action::CreateXmlDocument,
            Action::LoadXml,
            Action::CreateToast,
            Action::CreateNotifier,
            Action::ShowToast,
            Action::Sleep(100),
        ]
    );
    assert_eq!(host.log[0].1, shortcut());
    assert_eq!(host.log[2].1, create_toast_xml("Build", "Task completed", false));
}

#[test]
fn run_warns_where_not_registered_and_goes_on() {
    let mut host = Host::new();
    let code = host.runs(run_at(Platform::Windows, &identity(), plain_args(), Ok(shortcut())));
    assert_eq!(code, 0);
    assert_eq!(
        host.printed(Stream::Error),
        vec![
            "\u{1b}[1;33m[WARN]\u{1b}[0m Not registered. Run with --init first for proper notifications."
                .to_string()
        ]
    );
    assert_eq!(host.actions()[0], Action::PathExists);
    assert_eq!(host.actions()[1], Action::Print(Stream::Error));
    assert!(host.actions().contains(&Action::ShowToast));
}

#[test]
fn run_sends_the_escaped_message() {
    let mut host = Host::new();
    host.files.push(shortcut());
    let mut args = plain_args();
    args.title = "Build".to_string();
    args.message = "Done & done".to_string();
    assert_eq!(host.runs(run_at(Platform::Windows, &identity(), args, Ok(shortcut()))), 0);
    let markup = &host.log.iter().find(|(action, _)| *action == Action::LoadXml).unwrap().1;
    assert!(markup.contains("<text>Build</text>"));
    assert!(markup.contains("Done &amp; done"));
    assert!(!markup.replace("&amp;", "").contains('&'));
    assert!(markup.contains("ms-winsoundevent:Notification.Default"));
}

#[test]
fn run_with_a_sound_file_sends_a_silent_toast_and_plays_afterwards() {
    let mut host = Host::new();
    host.files.push(shortcut());
    host.files.push("chime.wav".to_string());
    let mut args = plain_args();
    args.sound_file = Some("chime.wav".to_string());
    assert_eq!(host.runs(run_at(Platform::Windows, &identity(), args, Ok(shortcut()))), 0);
    let markup = &host.log.iter().find(|(action, _)| *action == Action::LoadXml).unwrap().1;
    assert!(markup.contains("<audio silent=\"true\"/>"));
    assert!(!markup.contains("ms-winsoundevent"));
    let actions = host.actions();
    let shown = actions.iter().position(|a| *a == Action::ShowToast).unwrap();
    let probed = actions.iter().rposition(|a| *a == Action::PathExists).unwrap();
    let played = actions.iter().position(|a| *a == Action::Play).unwrap();
    assert!(shown < probed && probed < played);
    assert_eq!(actions[actions.len() - 1], Action::Sleep(3000));
}

#[test]
fn run_with_no_sound_sends_a_silent_toast_and_plays_nothing() {
    let mut host = Host::new();
    host.files.push(shortcut());
    let mut args = plain_args();
    args.no_sound = true;
    args.sound = Some("mail".to_string());
    assert_eq!(host.runs(run_at(Platform::Windows, &identity(), args, Ok(shortcut()))), 0);
    let markup = &host.log.iter().find(|(action, _)| *action == Action::LoadXml).unwrap().1;
    assert!(markup.contains("<audio silent=\"true\"/>"));
    assert!(!host.actions().contains(&Action::Play));
    assert!(host.printed(Stream::Error).is_empty());
}

#[test]
fn the_name_of_a_system_sound_changes_nothing() {
    let mut with_name = Host::new();
    let mut args = plain_args();
    args.sound = Some("alarm".to_string());
    assert_eq!(with_name.runs(run_at(Platform::Windows, &identity(), args, Ok(shortcut()))), 0);
    let mut without = Host::new();
    assert_eq!(without.runs(run_at(Platform::Windows, &identity(), plain_args(), Ok(shortcut()))), 0);
    assert_eq!(with_name.log, without.log);
}

#[test]
fn run_reports_a_sound_file_of_another_format() {
    let mut host = Host::new();
    host.files.push(shortcut());
    host.files.push("song.mp3".to_string());
    let mut args = plain_args();
    args.sound_file = Some("song.mp3".to_string());
    assert_eq!(host.runs(run_at(Platform::Windows, &identity(), args, Ok(shortcut()))), 1);
    assert_eq!(
        host.printed(Stream::Error),
        vec![
            "\u{1b}[1;31m[ERROR]\u{1b}[0m Only .wav files are supported on Windows (got .mp3)"
                .to_string()
        ]
    );
    assert!(host.actions().contains(&Action::ShowToast));
    assert!(!host.actions().contains(&Action::CreateUri));
    assert_eq!(host.log.last().unwrap().0, Action::Print(Stream::Error));
}

#[test]
fn run_reports_a_missing_sound_file() {
    let mut host = Host::new();
    host.files.push(shortcut());
    let mut args = plain_args();
    args.sound_file = Some("gone.wav".to_string());
    assert_eq!(host.runs(run_at(Platform::Windows, &identity(), args, Ok(shortcut()))), 1);
    assert_eq!(
        host.printed(Stream::Error),
        vec!["\u{1b}[1;31m[ERROR]\u{1b}[0m Sound file not found: gone.wav".to_string()]
    );
}

#[test]
fn run_reports_a_toast_that_cannot_be_shown() {
    let mut host = Host::new();
    host.files.push(shortcut());
    host.files.push("chime.wav".to_string());
    host.failing = Some(Action::ShowToast);
    let mut args = plain_args();
    args.sound_file = Some("chime.wav".to_string());
    assert_eq!(host.runs(run_at(Platform::Windows, &identity(), args, Ok(shortcut()))), 1);
    assert_eq!(
        host.printed(Stream::Error),
        vec!["\u{1b}[1;31m[ERROR]\u{1b}[0m Failed to show notification: refused".to_string()]
    );
    assert!(!host.actions().contains(&Action::Play));
    assert!(!host.actions().contains(&Action::Sleep(100)));
}

#[test]
fn init_comes_before_everything_else() {
    let mut host = Host::new();
    let mut args = plain_args();
    args.init = true;
    args.uninstall = true;
    args.sound_file = Some("chime.wav".to_string());
    assert_eq!(host.runs(run_at(Platform::Windows, &identity(), args, Ok(shortcut()))), 0);
    assert_eq!(host.files, vec![shortcut()]);
    assert!(!host.actions().contains(&Action::RemoveFile));
    assert!(!host.actions().contains(&Action::ShowToast));
}

#[test]
fn uninstall_removes_the_shortcut_and_exits() {
    let mut host = Host::new();
    host.files.push(shortcut());
    let mut args = plain_args();
    args.uninstall = true;
    args.title = "ignored".to_string();
    assert_eq!(host.runs(run_at(Platform::Windows, &identity(), args, Ok(shortcut()))), 0);
    assert!(host.files.is_empty());
    assert_eq!(
        host.printed(Stream::Output),
        vec![
            "\u{1b}[1;32m[INFO]\u{1b}[0m Removing registration...".to_string(),
            "\u{1b}[1;32m[INFO]\u{1b}[0m Unregistration complete!".to_string(),
        ]
    );
    assert!(!host.actions().contains(&Action::ShowToast));
}

#[test]
fn failed_init_is_reported_with_code_one() {
    let mut host = Host::new();
    host.failing = Some(Action::SaveLink);
    let mut args = plain_args();
    args.init = true;
    assert_eq!(host.runs(run_at(Platform::Windows, &identity(), args, Ok(shortcut()))), 1);
    assert_eq!(host.printed(Stream::Output).len(), 1);
    assert_eq!(
        host.printed(Stream::Error),
        vec!["\u{1b}[1;31m[ERROR]\u{1b}[0m Failed to save shortcut: refused".to_string()]
    );
    assert_eq!((host.scopes_entered, host.scopes_left), (1, 1));
}

#[test]
fn runs_off_windows_fail() {
    let mut host = Host::new();
    let code = host.runs(run_at(Platform::Other, &identity(), plain_args(), Ok(shortcut())));
    assert_eq!(code, 1);
    assert_eq!(
        host.printed(Stream::Error),
        vec![
            "\u{1b}[1;33m[WARN]\u{1b}[0m Not registered. Run with --init first for proper notifications."
                .to_string(),
            "\u{1b}[1;31m[ERROR]\u{1b}[0m Toast notifications are only supported on Windows"
                .to_string(),
        ]
    );

    let mut host = Host::new();
    let mut args = plain_args();
    args.init = true;
    assert_eq!(host.runs(run(Platform::Other, &identity(), args)), 1);
    assert_eq!(
        host.printed(Stream::Error),
        vec!["\u{1b}[1;31m[ERROR]\u{1b}[0m Registration is only supported on Windows".to_string()]
    );

    let mut host = Host::new();
    let mut args = plain_args();
    args.uninstall = true;
    assert_eq!(host.runs(run(Platform::Other, &identity(), args)), 1);
    assert_eq!(
        host.printed(Stream::Error),
        vec![
            "\u{1b}[1;31m[ERROR]\u{1b}[0m Unregistration is only supported on Windows".to_string()
        ]
    );
}

#[test]
fn finished_run_stays_finished() {
    let mut host = Host::new();
    let mut session = run_at(Platform::Other, &identity(), plain_args(), Ok(shortcut()));
    while let Some(effect) = session.effect() {
        let reply = host.perform(effect);
        session = session.resume(reply);
    }
    let session = session.resume(Reply::Done);
    assert!(session.effect().is_none());
    assert_eq!(session.exit_code(), Some(1));
}
