//! The menu shortcut that makes the notifier known to the platform: where
//! it lies, how it is made and removed, and how its presence is asked for.

use crate::error::{ErrorView, NotifierError, Operation, OutcomeView};
use crate::identity::{Identity, IdentityView};
use crate::paths::{data_local_dir, join, parent, path_join, path_parent};
use crate::platform::{
    bare, needs_com, with_text, Action, Effect, EffectView, Platform, Reply, ReplyView,
};
use crate::script::{
    effect_option_view, effects_view, failure_of, missing_text, outcome_option_view,
    reply_failure, text_missing, Script, ScriptView,
};
use crate::text::{str_option_view, text_option_view};
use vstd::prelude::*;

verus! {

/// The format id of the property under which a shortcut carries its
/// application identity.
pub const APP_ID_PROPERTY_FORMAT: u128 = 0x9F4C2855_9F79_4B39_A8D0_E1D42DE1D5F3;

/// The number of that property within its format.
pub const APP_ID_PROPERTY_NUMBER: u32 = 5;

/// The error of a user whose directories cannot be found.
pub open spec fn no_base_directories() -> ErrorView {
    ErrorView::PlatformError { context: "Failed to get base directories"@, cause: None }
}

/// The menu's programs directory below the directory for local data.
pub open spec fn start_menu_under(base: Seq<char>) -> Seq<char> {
    path_join(
        path_join(path_join(path_join(base, "Microsoft"@), "Windows"@), "Start Menu"@),
        "Programs"@,
    )
}

/// The shortcut's path, given the menu's programs directory and the
/// shortcut's file name.
pub open spec fn shortcut_in(start_menu: Seq<char>, name: Seq<char>) -> Seq<char> {
    path_join(start_menu, name)
}

/// What looking for the menu directory can give: the directory below some
/// directory for local data, or the error that none was found.
pub open spec fn is_start_menu_lookup(found: Result<Seq<char>, ErrorView>) -> bool {
    match found {
        Ok(path) => exists|base: Seq<char>| path == #[trigger] start_menu_under(base),
        Err(error) => error == no_base_directories(),
    }
}

/// What looking for the shortcut of a given file name can give: the
/// shortcut's path in the menu directory below some directory for local
/// data, or the error that none was found.
pub open spec fn is_shortcut_lookup(found: Result<Seq<char>, ErrorView>, name: Seq<char>) -> bool {
    match found {
        Ok(path) => exists|base: Seq<char>|
            path == shortcut_in(#[trigger] start_menu_under(base), name),
        Err(error) => error == no_base_directories(),
    }
}

/// The view of a path that was looked for.
pub open spec fn lookup_view(found: Result<String, NotifierError>) -> Result<Seq<char>, ErrorView> {
    match found {
        Ok(path) => Ok(path@),
        Err(error) => Err(error@),
    }
}

/// The menu's programs directory below a given directory for local data.
pub fn start_menu_path_under(base: &str) -> (path: String)
    ensures
        path@ == start_menu_under(base@),
{
    let vendor = join(base, "Microsoft");
    let system = join(vendor.as_str(), "Windows");
    let menu = join(system.as_str(), "Start Menu");
    join(menu.as_str(), "Programs")
}

/// The path of the shortcut of a given file name in a given programs
/// directory.
pub fn shortcut_path_in(start_menu: &str, name: &str) -> (path: String)
    ensures
        path@ == shortcut_in(start_menu@, name@),
{
    join(start_menu, name)
}

/// The menu's programs directory of the current user. It fails where the
/// user's directories cannot be found.
pub fn get_start_menu_path() -> (found: Result<String, NotifierError>)
    ensures
        is_start_menu_lookup(lookup_view(found)),
{
    match directories::BaseDirs::new() {
        Some(directories) => {
            let base = data_local_dir(&directories);
            let path = start_menu_path_under(base.as_str());
            assert(path@ == start_menu_under(base@));
            Ok(path)
        },
        None => Err(NotifierError::platform("Failed to get base directories", None)),
    }
}

/// The path of the notifier's shortcut for the current user. It fails
/// where the user's directories cannot be found.
pub fn get_shortcut_path(identity: &Identity) -> (found: Result<String, NotifierError>)
    ensures
        is_shortcut_lookup(lookup_view(found), identity@.shortcut_name),
{
    match get_start_menu_path() {
        Ok(start_menu) => {
            let path = shortcut_path_in(start_menu.as_str(), identity.shortcut_name.as_str());
            let ghost base = choose|base: Seq<char>| start_menu@ == start_menu_under(base);
            assert(path@ == shortcut_in(start_menu_under(base), identity@.shortcut_name));
            Ok(path)
        },
        Err(error) => Err(error),
    }
}

/// The question whether the shortcut is there: still to be put to the host,
/// or answered.
#[derive(Debug)]
pub enum RegistrationQuery {
    Probing { shortcut: String },
    Known { registered: bool },
}

/// A `RegistrationQuery` as plain values.
pub enum QueryView {
    Probing { shortcut: Seq<char> },
    Known { registered: bool },
}

impl QueryView {
    /// The question as it starts. On a platform other than Windows, and
    /// where the shortcut's path cannot be found, the answer is no.
    pub open spec fn start(platform: Platform, found: Result<Seq<char>, ErrorView>) -> QueryView {
        match (platform, found) {
            (Platform::Windows, Ok(shortcut)) => QueryView::Probing { shortcut },
            _ => QueryView::Known { registered: false },
        }
    }

    /// What the host is asked: whether the shortcut's path exists.
    pub open spec fn effect(self) -> Option<EffectView> {
        match self {
            QueryView::Probing { shortcut } => Some(with_text(Action::PathExists, shortcut)),
            QueryView::Known { .. } => None,
        }
    }

    /// The answer, once there is one.
    pub open spec fn answer(self) -> Option<bool> {
        match self {
            QueryView::Probing { .. } => None,
            QueryView::Known { registered } => Some(registered),
        }
    }

    /// The question after the host's reply: the shortcut is there where the
    /// host says so, and not there on any other reply.
    pub open spec fn resumed(self, reply: ReplyView) -> QueryView {
        match self {
            QueryView::Probing { .. } => QueryView::Known {
                registered: reply == ReplyView::Flag(true),
            },
            QueryView::Known { .. } => self,
        }
    }
}

impl View for RegistrationQuery {
    type V = QueryView;

    open spec fn view(&self) -> QueryView {
        match self {
            RegistrationQuery::Probing { shortcut } => QueryView::Probing { shortcut: shortcut@ },
            RegistrationQuery::Known { registered } => QueryView::Known {
                registered: *registered,
            },
        }
    }
}

impl RegistrationQuery {
    /// What the host is asked next.
    pub fn effect(&self) -> (effect: Option<Effect>)
        ensures
            effect_option_view(effect) == self@.effect(),
    {
        match self {
            RegistrationQuery::Probing { shortcut } => Some(
                Effect::with_text(Action::PathExists, shortcut.as_str()),
            ),
            RegistrationQuery::Known { .. } => None,
        }
    }

    /// The answer, once there is one.
    pub fn answer(&self) -> (answer: Option<bool>)
        ensures
            answer == self@.answer(),
    {
        match self {
            RegistrationQuery::Probing { .. } => None,
            RegistrationQuery::Known { registered } => Some(*registered),
        }
    }

    /// Takes the host's reply.
    pub fn resume(self, reply: Reply) -> (next: RegistrationQuery)
        ensures
            next@ == self@.resumed(reply@),
    {
        match self {
            RegistrationQuery::Probing { .. } => {
                let registered = match reply {
                    Reply::Flag(flag) => flag,
                    _ => false,
                };
                RegistrationQuery::Known { registered }
            },
            RegistrationQuery::Known { registered } => RegistrationQuery::Known { registered },
        }
    }
}

/// Starts asking whether the shortcut is registered, given what looking for
/// its path gave.
pub fn is_registered_at(platform: Platform, found: Result<String, NotifierError>) -> (query:
    RegistrationQuery)
    ensures
        query@ == QueryView::start(platform, lookup_view(found)),
{
    match platform {
        Platform::Windows => match found {
            Ok(shortcut) => RegistrationQuery::Probing { shortcut },
            Err(_) => RegistrationQuery::Known { registered: false },
        },
        Platform::Other => RegistrationQuery::Known { registered: false },
    }
}

/// Starts asking whether the shortcut of the current user is registered. On
/// a platform other than Windows the answer is no, and nothing is looked for.
pub fn is_registered(platform: Platform, identity: &Identity) -> (query: RegistrationQuery)
    ensures
        platform == Platform::Other ==> query@ == (QueryView::Known { registered: false }),
        exists|found: Result<Seq<char>, ErrorView>|
            is_shortcut_lookup(found, identity@.shortcut_name) && query@
                == #[trigger] QueryView::start(platform, found),
{
    match platform {
        Platform::Windows => {
            let found = get_shortcut_path(identity);
            let ghost seen = lookup_view(found);
            let query = is_registered_at(platform, found);
            assert(query@ == QueryView::start(platform, seen));
            query
        },
        Platform::Other => {
            assert(is_shortcut_lookup(Err(no_base_directories()), identity@.shortcut_name));
            assert(QueryView::start(platform, Err(no_base_directories())) == (QueryView::Known {
                registered: false,
            }));
            RegistrationQuery::Known { registered: false }
        },
    }
}

/// The steps that make a shortcut to `exe_path` and save it at
/// `shortcut_path`, given the directory of the target: the link gets its
/// target, its working directory (where the target has a directory) and its
/// description; its property store gets the application identity and is
/// committed; then the link is saved.
pub open spec fn link_effects_given(
    exe_path: Seq<char>,
    directory: Option<Seq<char>>,
    shortcut_path: Seq<char>,
    identity: IdentityView,
) -> Seq<EffectView> {
    seq![bare(Action::CreateShellLink), with_text(Action::SetLinkTarget, exe_path)] + (
    match directory {
        Some(directory) => seq![with_text(Action::SetLinkWorkingDirectory, directory)],
        None => Seq::empty(),
    }) + seq![
        with_text(Action::SetLinkDescription, identity.description),
        bare(Action::OpenPropertyStore),
        with_text(Action::SetAppUserModelId, identity.app_id),
        bare(Action::CommitProperties),
        bare(Action::OpenPersistFile),
        with_text(Action::SaveLink, shortcut_path),
    ]
}

/// The steps that make a shortcut to `exe_path` and save it at
/// `shortcut_path`; the working directory is the parent of the target.
pub open spec fn link_effects(
    exe_path: Seq<char>,
    shortcut_path: Seq<char>,
    identity: IdentityView,
) -> Seq<EffectView> {
    link_effects_given(exe_path, path_parent(exe_path), shortcut_path, identity)
}

/// Starts making the shortcut, given the directory of the target. The
/// script stops at the first step that fails and reports it.
pub fn link_script(
    exe_path: &str,
    directory: Option<&str>,
    shortcut_path: &str,
    identity: &Identity,
) -> (script: Script)
    ensures
        script@ == ScriptView::fresh(
            link_effects_given(
                exe_path@,
                str_option_view(directory),
                shortcut_path@,
                identity@,
            ),
        ),
{
    let mut effects: Vec<Effect> = Vec::new();
    effects.push(Effect::bare(Action::CreateShellLink));
    effects.push(Effect::with_text(Action::SetLinkTarget, exe_path));
    match directory {
        Some(working_directory) => {
            effects.push(Effect::with_text(Action::SetLinkWorkingDirectory, working_directory));
        },
        None => {},
    }
    effects.push(Effect::with_text(Action::SetLinkDescription, identity.description.as_str()));
    effects.push(Effect::bare(Action::OpenPropertyStore));
    effects.push(Effect::with_text(Action::SetAppUserModelId, identity.app_id.as_str()));
    effects.push(Effect::bare(Action::CommitProperties));
    effects.push(Effect::bare(Action::OpenPersistFile));
    effects.push(Effect::with_text(Action::SaveLink, shortcut_path));
    assert(effects_view(effects@) =~= link_effects_given(
        exe_path@,
        str_option_view(directory),
        shortcut_path@,
        identity@,
    ));
    Script::new(effects)
}

/// Starts making the shortcut. The working directory of the link is the
/// directory of the target, where it has one.
pub fn create_shortcut_with_aumid(exe_path: &str, shortcut_path: &str, identity: &Identity) -> (script:
    Script)
    ensures
        script@ == ScriptView::fresh(link_effects(exe_path@, shortcut_path@, identity@)),
{
    match parent(exe_path) {
        Some(directory) => link_script(exe_path, Some(directory.as_str()), shortcut_path, identity),
        None => link_script(exe_path, None, shortcut_path, identity),
    }
}

/// Where a registration stands.
#[derive(Debug)]
pub enum Registration {
    /// The executable's path is asked for. `shortcut` is what looking for
    /// the shortcut's path gave.
    Locating { shortcut: Result<String, NotifierError>, identity: Identity },
    /// The directory of the shortcut is being created.
    CreatingDirectory { directory: String, link: Script },
    /// The scope of the object model is being entered.
    Initializing { link: Script },
    /// Inside the scope: the link is being made.
    Linking { link: Script },
    /// The scope is being left; `result` is how making the link ended.
    Uninitializing { result: Result<(), NotifierError> },
    /// Nothing is left to do.
    Finished { result: Result<(), NotifierError> },
}

/// A `Registration` as plain values.
pub enum RegistrationView {
    Locating { shortcut: Result<Seq<char>, ErrorView>, identity: IdentityView },
    CreatingDirectory { directory: Seq<char>, link: ScriptView },
    Initializing { link: ScriptView },
    Linking { link: ScriptView },
    Uninitializing { result: OutcomeView },
    Finished { result: OutcomeView },
}

/// The state in which the scope of the object model is entered once the
/// link's script is at hand: making the link, or, for a script that asks
/// for nothing, leaving the scope at once.
pub open spec fn linking(link: ScriptView) -> RegistrationView {
    match link.outcome() {
        Some(result) => RegistrationView::Uninitializing { result },
        None => RegistrationView::Linking { link },
    }
}

/// The registration once the executable and the shortcut are located, given
/// the directory of each: the link's script is at hand, and the shortcut's
/// directory is created first, where it has one.
pub open spec fn located(
    exe_path: Seq<char>,
    exe_directory: Option<Seq<char>>,
    shortcut_path: Seq<char>,
    shortcut_directory: Option<Seq<char>>,
    identity: IdentityView,
) -> RegistrationView {
    let link = ScriptView::fresh(
        link_effects_given(exe_path, exe_directory, shortcut_path, identity),
    );
    match shortcut_directory {
        Some(directory) => RegistrationView::CreatingDirectory { directory, link },
        None => RegistrationView::Initializing { link },
    }
}

impl RegistrationView {
    /// The registration as it starts. On a platform other than Windows it
    /// has failed already.
    pub open spec fn start(
        platform: Platform,
        found: Result<Seq<char>, ErrorView>,
        identity: IdentityView,
    ) -> RegistrationView {
        match platform {
            Platform::Windows => RegistrationView::Locating { shortcut: found, identity },
            Platform::Other => RegistrationView::Finished {
                result: Err(ErrorView::UnsupportedPlatform { operation: Operation::Registration }),
            },
        }
    }

    /// What the host is asked next.
    pub open spec fn effect(self) -> Option<EffectView> {
        match self {
            RegistrationView::Locating { .. } => Some(bare(Action::CurrentExecutable)),
            RegistrationView::CreatingDirectory { directory, .. } => Some(
                with_text(Action::CreateDirectories, directory),
            ),
            RegistrationView::Initializing { .. } => Some(bare(Action::ComInitialize)),
            RegistrationView::Linking { link } => link.effect(),
            RegistrationView::Uninitializing { .. } => Some(bare(Action::ComUninitialize)),
            RegistrationView::Finished { .. } => None,
        }
    }

    /// How the registration ended, once it asks for nothing more.
    pub open spec fn outcome(self) -> Option<OutcomeView> {
        match self {
            RegistrationView::Finished { result } => Some(result),
            _ => None,
        }
    }

    /// The registration after the host's reply.
    ///
    /// With the executable's path at hand, the shortcut's directory is
    /// created, where it has one; then the scope of the object model is
    /// entered, the link is made inside it, and the scope is left whether or
    /// not the link was made. A failure before the scope was entered ends
    /// the registration at once.
    pub open spec fn resumed(self, reply: ReplyView) -> RegistrationView {
        match self {
            RegistrationView::Locating { shortcut, identity } => match reply {
                ReplyView::Text(exe_path) => match shortcut {
                    Ok(shortcut_path) => located(
                        exe_path,
                        path_parent(exe_path),
                        shortcut_path,
                        path_parent(shortcut_path),
                        identity,
                    ),
                    Err(error) => RegistrationView::Finished { result: Err(error) },
                },
                _ => RegistrationView::Finished {
                    result: Err(missing_text(Action::CurrentExecutable, reply)),
                },
            },
            RegistrationView::CreatingDirectory { directory, link } => match failure_of(
                Action::CreateDirectories,
                reply,
            ) {
                Some(error) => RegistrationView::Finished { result: Err(error) },
                None => RegistrationView::Initializing { link },
            },
            RegistrationView::Initializing { link } => match failure_of(
                Action::ComInitialize,
                reply,
            ) {
                Some(error) => RegistrationView::Finished { result: Err(error) },
                None => linking(link),
            },
            RegistrationView::Linking { link } => linking(link.resumed(reply)),
            RegistrationView::Uninitializing { result } => RegistrationView::Finished { result },
            RegistrationView::Finished { .. } => self,
        }
    }

    /// Whether the registration is inside the scope of the object model.
    pub open spec fn in_scope(self) -> bool {
        self is Linking || self is Uninitializing
    }

    /// How many replies the registration can still take at most.
    pub open spec fn remaining(self) -> nat {
        match self {
            RegistrationView::Locating { .. } => 14,
            RegistrationView::CreatingDirectory { .. } => 13,
            RegistrationView::Initializing { .. } => 12,
            RegistrationView::Linking { link } => (2 + link.effects.len() - link.position) as nat,
            RegistrationView::Uninitializing { .. } => 1,
            RegistrationView::Finished { .. } => 0,
        }
    }

    /// What holds of every registration that `register` has started, at any
    /// time: its link is one that `create_shortcut_with_aumid` describes,
    /// and while the link is being made some step of it is still open.
    pub open spec fn valid(self) -> bool {
        match self {
            RegistrationView::Locating { .. } => true,
            RegistrationView::CreatingDirectory { link, .. } => is_fresh_link(link),
            RegistrationView::Initializing { link } => is_fresh_link(link),
            RegistrationView::Linking { link } => is_link(link) && link.outcome() is None,
            RegistrationView::Uninitializing { .. } => true,
            RegistrationView::Finished { .. } => true,
        }
    }
}

/// Whether the script is one of making a shortcut, at some point of its run.
pub open spec fn is_link(link: ScriptView) -> bool {
    exists|exe_path: Seq<char>, shortcut_path: Seq<char>, identity: IdentityView|
        link.effects == #[trigger] link_effects(exe_path, shortcut_path, identity)
}

/// Whether the script is one of making a shortcut, before its first step.
pub open spec fn is_fresh_link(link: ScriptView) -> bool {
    is_link(link) && link.position == 0 && link.failure is None
}

/// The steps that make a shortcut are eight or nine, each of them needs the
/// scope of the object model, and the last of them saves the link at the
/// shortcut's path.
pub proof fn lemma_link_effects(
    exe_path: Seq<char>,
    shortcut_path: Seq<char>,
    identity: IdentityView,
)
    ensures
        8 <= link_effects(exe_path, shortcut_path, identity).len() <= 9,
        forall|i: int|
            0 <= i < link_effects(exe_path, shortcut_path, identity).len() ==> needs_com(
                (#[trigger] link_effects(exe_path, shortcut_path, identity)[i]).action,
            ),
        forall|i: int|
            0 <= i < link_effects(exe_path, shortcut_path, identity).len() - 1 ==> (
            #[trigger] link_effects(exe_path, shortcut_path, identity)[i]).action
                != Action::SaveLink,
        link_effects(exe_path, shortcut_path, identity).last() == with_text(
            Action::SaveLink,
            shortcut_path,
        ),
{
    let effects = link_effects(exe_path, shortcut_path, identity);
    match path_parent(exe_path) {
        Some(directory) => {
            assert(effects =~= seq![
                bare(Action::CreateShellLink),
                with_text(Action::SetLinkTarget, exe_path),
                with_text(Action::SetLinkWorkingDirectory, directory),
                with_text(Action::SetLinkDescription, identity.description),
                bare(Action::OpenPropertyStore),
                with_text(Action::SetAppUserModelId, identity.app_id),
                bare(Action::CommitProperties),
                bare(Action::OpenPersistFile),
                with_text(Action::SaveLink, shortcut_path),
            ]);
        },
        None => {
            assert(effects =~= seq![
                bare(Action::CreateShellLink),
                with_text(Action::SetLinkTarget, exe_path),
                with_text(Action::SetLinkDescription, identity.description),
                bare(Action::OpenPropertyStore),
                with_text(Action::SetAppUserModelId, identity.app_id),
                bare(Action::CommitProperties),
                bare(Action::OpenPersistFile),
                with_text(Action::SaveLink, shortcut_path),
            ]);
        },
    }
}

/// What `lemma_link_effects` says, of the effects of any script that makes
/// a shortcut.
proof fn lemma_link_of(link: ScriptView)
    requires
        is_link(link),
    ensures
        8 <= link.effects.len() <= 9,
        forall|i: int| 0 <= i < link.effects.len() ==> needs_com((#[trigger] link.effects[i]).action),
{
    let (exe_path, shortcut_path, identity) = choose|
        exe_path: Seq<char>,
        shortcut_path: Seq<char>,
        identity: IdentityView,
    |
        link.effects == #[trigger] link_effects(exe_path, shortcut_path, identity);
    lemma_link_effects(exe_path, shortcut_path, identity);
}

/// Every registration that `register` starts is valid, and stays valid
/// whatever the host replies.
pub proof fn lemma_registration_stays_valid(
    platform: Platform,
    found: Result<Seq<char>, ErrorView>,
    identity: IdentityView,
    registration: RegistrationView,
    reply: ReplyView,
)
    requires
        registration.valid(),
    ensures
        RegistrationView::start(platform, found, identity).valid(),
        registration.resumed(reply).valid(),
{
    match registration {
        RegistrationView::Locating { shortcut, identity } => {
            if let ReplyView::Text(exe_path) = reply {
                if let Ok(shortcut_path) = shortcut {
                    let link = ScriptView::fresh(link_effects(exe_path, shortcut_path, identity));
                    assert(link.effects == link_effects(exe_path, shortcut_path, identity));
                    assert(is_fresh_link(link));
                }
            }
        },
        RegistrationView::Initializing { link } => {
            lemma_link_of(link);
        },
        _ => {},
    }
}

/// The scope of the object model is entered and left exactly once around
/// the making of the link, whatever fails.
///
/// A step that needs the scope is asked for only inside it. The scope is
/// entered only by a successful `ComInitialize` and left only by
/// `ComUninitialize`, and the registration does not end inside it. Each
/// reply brings the registration nearer to its end, so a scope that was
/// entered is left after at most ten more replies.
pub proof fn lemma_scope_is_entered_and_left_once(registration: RegistrationView, reply: ReplyView)
    requires
        registration.valid(),
    ensures
        registration.effect() is Some <==> registration.outcome() is None,
        registration.effect() matches Some(effect) && needs_com(effect.action)
            ==> registration is Linking,
        registration.effect() == Some(bare(Action::ComUninitialize))
            <==> registration is Uninitializing,
        !registration.in_scope() && registration.resumed(reply).in_scope()
            ==> registration.effect() == Some(bare(Action::ComInitialize)) && failure_of(
            Action::ComInitialize,
            reply,
        ) is None,
        registration.effect() == Some(bare(Action::ComInitialize)) && failure_of(
            Action::ComInitialize,
            reply,
        ) is Some ==> registration.resumed(reply) is Finished,
        registration.in_scope() && !registration.resumed(reply).in_scope()
            ==> registration.effect() == Some(bare(Action::ComUninitialize))
            && registration.resumed(reply) is Finished,
        registration.in_scope() ==> registration.remaining() <= 11,
        registration.effect() is Some ==> registration.resumed(reply).remaining()
            < registration.remaining(),
{
    match registration {
        RegistrationView::Initializing { link } => {
            lemma_link_of(link);
        },
        RegistrationView::Linking { link } => {
            lemma_link_of(link);
            assert(needs_com(link.effects[link.position as int].action));
        },
        _ => {},
    }
}

impl View for Registration {
    type V = RegistrationView;

    open spec fn view(&self) -> RegistrationView {
        match self {
            Registration::Locating { shortcut, identity } => RegistrationView::Locating {
                shortcut: lookup_view(*shortcut),
                identity: identity@,
            },
            Registration::CreatingDirectory { directory, link } =>
                RegistrationView::CreatingDirectory { directory: directory@, link: link@ },
            Registration::Initializing { link } => RegistrationView::Initializing { link: link@ },
            Registration::Linking { link } => RegistrationView::Linking { link: link@ },
            Registration::Uninitializing { result } => RegistrationView::Uninitializing {
                result: crate::error::outcome_view(*result),
            },
            Registration::Finished { result } => RegistrationView::Finished {
                result: crate::error::outcome_view(*result),
            },
        }
    }
}

/// Enters the scope's first state for a link script.
fn enter_linking(link: Script) -> (next: Registration)
    ensures
        next@ == linking(link@),
{
    match link.outcome() {
        Some(result) => Registration::Uninitializing { result },
        None => Registration::Linking { link },
    }
}

impl Registration {
    /// The registration once the executable and the shortcut are located,
    /// given the directory of each.
    pub fn located(
        exe_path: &str,
        exe_directory: Option<&str>,
        shortcut_path: &str,
        shortcut_directory: Option<String>,
        identity: &Identity,
    ) -> (registration: Registration)
        ensures
            registration@ == located(
                exe_path@,
                str_option_view(exe_directory),
                shortcut_path@,
                text_option_view(shortcut_directory),
                identity@,
            ),
    {
        let link = link_script(exe_path, exe_directory, shortcut_path, identity);
        match shortcut_directory {
            Some(directory) => Registration::CreatingDirectory { directory, link },
            None => Registration::Initializing { link },
        }
    }

    /// What the host is asked next.
    pub fn effect(&self) -> (effect: Option<Effect>)
        ensures
            effect_option_view(effect) == self@.effect(),
    {
        match self {
            Registration::Locating { .. } => Some(Effect::bare(Action::CurrentExecutable)),
            Registration::CreatingDirectory { directory, .. } => Some(
                Effect::with_text(Action::CreateDirectories, directory.as_str()),
            ),
            Registration::Initializing { .. } => Some(Effect::bare(Action::ComInitialize)),
            Registration::Linking { link } => link.effect(),
            Registration::Uninitializing { .. } => Some(Effect::bare(Action::ComUninitialize)),
            Registration::Finished { .. } => None,
        }
    }

    /// How the registration ended, once it asks for nothing more.
    pub fn outcome(&self) -> (outcome: Option<Result<(), NotifierError>>)
        ensures
            outcome_option_view(outcome) == self@.outcome(),
    {
        match self {
            Registration::Finished { result } => match result {
                Ok(_) => Some(Ok(())),
                Err(error) => Some(Err(error.duplicate())),
            },
            _ => None,
        }
    }

    /// Takes the host's reply to the effect that was asked for.
    pub fn resume(self, reply: Reply) -> (next: Registration)
        ensures
            next@ == self@.resumed(reply@),
    {
        match self {
            Registration::Locating { shortcut, identity } => match reply {
                Reply::Text(exe_path) => match shortcut {
                    Ok(shortcut_path) => {
                        let shortcut_directory = parent(shortcut_path.as_str());
                        match parent(exe_path.as_str()) {
                            Some(exe_directory) => Registration::located(
                                exe_path.as_str(),
                                Some(exe_directory.as_str()),
                                shortcut_path.as_str(),
                                shortcut_directory,
                                &identity,
                            ),
                            None => Registration::located(
                                exe_path.as_str(),
                                None,
                                shortcut_path.as_str(),
                                shortcut_directory,
                                &identity,
                            ),
                        }
                    },
                    Err(error) => Registration::Finished { result: Err(error) },
                },
                other => Registration::Finished {
                    result: Err(text_missing(Action::CurrentExecutable, other)),
                },
            },
            Registration::CreatingDirectory { directory, link } => match reply_failure(
                Action::CreateDirectories,
                reply,
            ) {
                Some(error) => Registration::Finished { result: Err(error) },
                None => Registration::Initializing { link },
            },
            Registration::Initializing { link } => match reply_failure(
                Action::ComInitialize,
                reply,
            ) {
                Some(error) => Registration::Finished { result: Err(error) },
                None => enter_linking(link),
            },
            Registration::Linking { link } => enter_linking(link.resume(reply)),
            Registration::Uninitializing { result } => Registration::Finished { result },
            Registration::Finished { result } => Registration::Finished { result },
        }
    }
}

/// Starts a registration, given what looking for the shortcut's path gave.
pub fn register_at(
    platform: Platform,
    found: Result<String, NotifierError>,
    identity: &Identity,
) -> (registration: Registration)
    ensures
        registration@ == RegistrationView::start(platform, lookup_view(found), identity@),
{
    match platform {
        Platform::Windows => Registration::Locating {
            shortcut: found,
            identity: identity.duplicate(),
        },
        Platform::Other => Registration::Finished {
            result: Err(NotifierError::UnsupportedPlatform { operation: Operation::Registration }),
        },
    }
}

/// Starts registering the notifier for the current user. On a platform
/// other than Windows the registration has failed with
/// `UnsupportedPlatform` before anything is looked for or asked.
pub fn register(platform: Platform, identity: &Identity) -> (registration: Registration)
    ensures
        platform == Platform::Other ==> registration@ == (RegistrationView::Finished {
            result: Err(ErrorView::UnsupportedPlatform { operation: Operation::Registration }),
        }),
        exists|found: Result<Seq<char>, ErrorView>|
            is_shortcut_lookup(found, identity@.shortcut_name) && registration@
                == #[trigger] RegistrationView::start(platform, found, identity@),
{
    match platform {
        Platform::Windows => {
            let found = get_shortcut_path(identity);
            let ghost seen = lookup_view(found);
            let registration = register_at(platform, found, identity);
            assert(registration@ == RegistrationView::start(platform, seen, identity@));
            registration
        },
        Platform::Other => {
            assert(is_shortcut_lookup(Err(no_base_directories()), identity@.shortcut_name));
            let registration = Registration::Finished {
                result: Err(
                    NotifierError::UnsupportedPlatform { operation: Operation::Registration },
                ),
            };
            assert(registration@ == RegistrationView::start(
                platform,
                Err(no_base_directories()),
                identity@,
            ));
            registration
        },
    }
}

/// Where the removal of the shortcut stands.
#[derive(Debug)]
pub enum Unregistration {
    /// The host is asked whether the shortcut is there.
    Probing { shortcut: String },
    /// The shortcut is being deleted.
    Removing { shortcut: String },
    /// Nothing is left to do.
    Finished { result: Result<(), NotifierError> },
}

/// An `Unregistration` as plain values.
pub enum UnregistrationView {
    Probing { shortcut: Seq<char> },
    Removing { shortcut: Seq<char> },
    Finished { result: OutcomeView },
}

impl UnregistrationView {
    /// The removal as it starts. It has failed already on a platform other
    /// than Windows, and where the shortcut's path cannot be found.
    pub open spec fn start(platform: Platform, found: Result<Seq<char>, ErrorView>)
        -> UnregistrationView {
        match platform {
            Platform::Windows => match found {
                Ok(shortcut) => UnregistrationView::Probing { shortcut },
                Err(error) => UnregistrationView::Finished { result: Err(error) },
            },
            Platform::Other => UnregistrationView::Finished {
                result: Err(
                    ErrorView::UnsupportedPlatform { operation: Operation::Unregistration },
                ),
            },
        }
    }

    /// What the host is asked next.
    pub open spec fn effect(self) -> Option<EffectView> {
        match self {
            UnregistrationView::Probing { shortcut } => Some(
                with_text(Action::PathExists, shortcut),
            ),
            UnregistrationView::Removing { shortcut } => Some(
                with_text(Action::RemoveFile, shortcut),
            ),
            UnregistrationView::Finished { .. } => None,
        }
    }

    /// How the removal ended, once it asks for nothing more.
    pub open spec fn outcome(self) -> Option<OutcomeView> {
        match self {
            UnregistrationView::Finished { result } => Some(result),
            _ => None,
        }
    }

    /// The removal after the host's reply: a shortcut that is there is
    /// deleted; one that is not there leaves nothing to do.
    pub open spec fn resumed(self, reply: ReplyView) -> UnregistrationView {
        match self {
            UnregistrationView::Probing { shortcut } => if reply == ReplyView::Flag(true) {
                UnregistrationView::Removing { shortcut }
            } else {
                UnregistrationView::Finished { result: Ok(()) }
            },
            UnregistrationView::Removing { .. } => match failure_of(Action::RemoveFile, reply) {
                Some(error) => UnregistrationView::Finished { result: Err(error) },
                None => UnregistrationView::Finished { result: Ok(()) },
            },
            UnregistrationView::Finished { .. } => self,
        }
    }
}

impl View for Unregistration {
    type V = UnregistrationView;

    open spec fn view(&self) -> UnregistrationView {
        match self {
            Unregistration::Probing { shortcut } => UnregistrationView::Probing {
                shortcut: shortcut@,
            },
            Unregistration::Removing { shortcut } => UnregistrationView::Removing {
                shortcut: shortcut@,
            },
            Unregistration::Finished { result } => UnregistrationView::Finished {
                result: crate::error::outcome_view(*result),
            },
        }
    }
}

impl Unregistration {
    /// What the host is asked next.
    pub fn effect(&self) -> (effect: Option<Effect>)
        ensures
            effect_option_view(effect) == self@.effect(),
    {
        match self {
            Unregistration::Probing { shortcut } => Some(
                Effect::with_text(Action::PathExists, shortcut.as_str()),
            ),
            Unregistration::Removing { shortcut } => Some(
                Effect::with_text(Action::RemoveFile, shortcut.as_str()),
            ),
            Unregistration::Finished { .. } => None,
        }
    }

    /// How the removal ended, once it asks for nothing more.
    pub fn outcome(&self) -> (outcome: Option<Result<(), NotifierError>>)
        ensures
            outcome_option_view(outcome) == self@.outcome(),
    {
        match self {
            Unregistration::Finished { result } => match result {
                Ok(_) => Some(Ok(())),
                Err(error) => Some(Err(error.duplicate())),
            },
            _ => None,
        }
    }

    /// Takes the host's reply to the effect that was asked for.
    pub fn resume(self, reply: Reply) -> (next: Unregistration)
        ensures
            next@ == self@.resumed(reply@),
    {
        match self {
            Unregistration::Probing { shortcut } => match reply {
                Reply::Flag(true) => Unregistration::Removing { shortcut },
                _ => Unregistration::Finished { result: Ok(()) },
            },
            Unregistration::Removing { .. } => match reply_failure(Action::RemoveFile, reply) {
                Some(error) => Unregistration::Finished { result: Err(error) },
                None => Unregistration::Finished { result: Ok(()) },
            },
            Unregistration::Finished { result } => Unregistration::Finished { result },
        }
    }
}

/// Starts removing the shortcut, given what looking for its path gave.
pub fn unregister_at(platform: Platform, found: Result<String, NotifierError>) -> (unregistration:
    Unregistration)
    ensures
        unregistration@ == UnregistrationView::start(platform, lookup_view(found)),
{
    match platform {
        Platform::Windows => match found {
            Ok(shortcut) => Unregistration::Probing { shortcut },
            Err(error) => Unregistration::Finished { result: Err(error) },
        },
        Platform::Other => Unregistration::Finished {
            result: Err(
                NotifierError::UnsupportedPlatform { operation: Operation::Unregistration },
            ),
        },
    }
}

/// Starts removing the shortcut of the current user. On a platform other
/// than Windows the removal has failed with `UnsupportedPlatform` before
/// anything is looked for or asked.
pub fn unregister(platform: Platform, identity: &Identity) -> (unregistration: Unregistration)
    ensures
        platform == Platform::Other ==> unregistration@ == (UnregistrationView::Finished {
            result: Err(ErrorView::UnsupportedPlatform { operation: Operation::Unregistration }),
        }),
        exists|found: Result<Seq<char>, ErrorView>|
            is_shortcut_lookup(found, identity@.shortcut_name) && unregistration@
                == #[trigger] UnregistrationView::start(platform, found),
{
    match platform {
        Platform::Windows => {
            let found = get_shortcut_path(identity);
            let ghost seen = lookup_view(found);
            let unregistration = unregister_at(platform, found);
            assert(unregistration@ == UnregistrationView::start(platform, seen));
            unregistration
        },
        Platform::Other => {
            assert(is_shortcut_lookup(Err(no_base_directories()), identity@.shortcut_name));
            let unregistration = Unregistration::Finished {
                result: Err(
                    NotifierError::UnsupportedPlatform { operation: Operation::Unregistration },
                ),
            };
            assert(unregistration@ == UnregistrationView::start(
                platform,
                Err(no_base_directories()),
            ));
            unregistration
        },
    }
}

} // verus!
