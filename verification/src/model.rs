//! A model of an obliging host, and what the notifier's registration
//! achieves when it runs against one.
//!
//! The host of the model never fails. It keeps a set of files: saving a link
//! puts the link's path into the set, removing a file takes its path out,
//! and the host says truthfully whether a path is in it.

use crate::error::ErrorView;
use crate::identity::IdentityView;
use crate::platform::{needs_com, Action, EffectView, Platform, ReplyView};
use crate::registration::{
    lemma_link_effects, link_effects, linking, QueryView, RegistrationView, UnregistrationView,
};
use crate::script::ScriptView;
use vstd::prelude::*;

verus! {

/// The files of a host and the path of the executable that runs on it.
pub struct HostModel {
    pub files: Set<Seq<char>>,
    pub executable: Seq<char>,
}

impl HostModel {
    /// What the host replies to an effect.
    pub open spec fn reply(self, effect: EffectView) -> ReplyView {
        match effect.action {
            Action::CurrentExecutable => ReplyView::Text(self.executable),
            Action::PathExists => ReplyView::Flag(self.files.contains(effect.text)),
            Action::Canonicalize => ReplyView::Text(effect.text),
            _ => ReplyView::Done,
        }
    }

    /// The host after it has carried out an effect.
    pub open spec fn after(self, effect: EffectView) -> HostModel {
        match effect.action {
            Action::SaveLink => HostModel { files: self.files.insert(effect.text), ..self },
            Action::RemoveFile => HostModel { files: self.files.remove(effect.text), ..self },
            _ => self,
        }
    }
}

/// The answer that the host gives to the question whether the notifier is
/// registered.
pub open spec fn registered_on(host: HostModel, query: QueryView) -> bool {
    match query.effect() {
        Some(effect) => query.resumed(host.reply(effect)).answer() == Some(true),
        None => query.answer() == Some(true),
    }
}

/// A registration and its host after at most `fuel` effects.
pub open spec fn register_on(host: HostModel, registration: RegistrationView, fuel: nat) -> (
    RegistrationView,
    HostModel,
)
    decreases fuel,
{
    if fuel == 0 {
        (registration, host)
    } else {
        match registration.effect() {
            Some(effect) => register_on(
                host.after(effect),
                registration.resumed(host.reply(effect)),
                (fuel - 1) as nat,
            ),
            None => (registration, host),
        }
    }
}

/// A removal and its host after at most `fuel` effects.
pub open spec fn unregister_on(host: HostModel, unregistration: UnregistrationView, fuel: nat) -> (
    UnregistrationView,
    HostModel,
)
    decreases fuel,
{
    if fuel == 0 {
        (unregistration, host)
    } else {
        match unregistration.effect() {
            Some(effect) => unregister_on(
                host.after(effect),
                unregistration.resumed(host.reply(effect)),
                (fuel - 1) as nat,
            ),
            None => (unregistration, host),
        }
    }
}

/// On an obliging host the making of a link runs to its end: the link is
/// saved, the scope is left, and the registration has succeeded.
proof fn lemma_link_is_saved(
    host: HostModel,
    link: ScriptView,
    exe_path: Seq<char>,
    shortcut_path: Seq<char>,
    identity: IdentityView,
    fuel: nat,
)
    requires
        link.effects == link_effects(exe_path, shortcut_path, identity),
        link.failure is None,
        link.position < link.effects.len(),
        fuel >= link.effects.len() - link.position + 1,
    ensures
        register_on(host, RegistrationView::Linking { link }, fuel) == (
            RegistrationView::Finished { result: Ok(()) },
            HostModel { files: host.files.insert(shortcut_path), ..host },
        ),
    decreases link.effects.len() - link.position,
{
    lemma_link_effects(exe_path, shortcut_path, identity);
    let effect = link.effects[link.position as int];
    assert(needs_com(effect.action));
    assert(host.reply(effect) == ReplyView::Done);
    let next = link.resumed(ReplyView::Done);
    assert(next == ScriptView { position: link.position + 1, ..link });
    let state = RegistrationView::Linking { link };
    assert(state.effect() == Some(effect));
    assert(state.resumed(ReplyView::Done) == linking(next));
    assert(register_on(host, state, fuel) == register_on(
        host.after(effect),
        linking(next),
        (fuel - 1) as nat,
    ));
    if link.position + 1 == link.effects.len() {
        assert(effect == link.effects.last());
        let saved = HostModel { files: host.files.insert(shortcut_path), ..host };
        assert(host.after(effect) == saved);
        let leaving = RegistrationView::Uninitializing { result: Ok(()) };
        assert(linking(next) == leaving);
        let done = RegistrationView::Finished { result: Ok(()) };
        assert(leaving.resumed(ReplyView::Done) == done);
        assert(register_on(saved, leaving, (fuel - 1) as nat) == register_on(
            saved,
            done,
            (fuel - 2) as nat,
        ));
        assert(register_on(saved, done, (fuel - 2) as nat) == (done, saved));
    } else {
        assert(effect.action != Action::SaveLink);
        assert(host.after(effect) == host);
        assert(linking(next) == RegistrationView::Linking { link: next });
        lemma_link_is_saved(host, next, exe_path, shortcut_path, identity, (fuel - 1) as nat);
    }
}

/// On an obliging host a registration on Windows succeeds and leaves the
/// shortcut among the files.
pub proof fn lemma_registration_saves_the_shortcut(
    host: HostModel,
    shortcut: Seq<char>,
    identity: IdentityView,
)
    ensures
        register_on(
            host,
            RegistrationView::start(Platform::Windows, Ok(shortcut), identity),
            14,
        ) == (
            RegistrationView::Finished { result: Ok(()) },
            HostModel { files: host.files.insert(shortcut), ..host },
        ),
{
    let start = RegistrationView::start(Platform::Windows, Ok(shortcut), identity);
    let link = ScriptView::fresh(link_effects(host.executable, shortcut, identity));
    lemma_link_effects(host.executable, shortcut, identity);
    let located = start.resumed(ReplyView::Text(host.executable));
    assert(register_on(host, start, 14) == register_on(host, located, 13));
    let entering = RegistrationView::Initializing { link };
    let inside = RegistrationView::Linking { link };
    assert(entering.resumed(ReplyView::Done) == inside);
    assert(register_on(host, entering, 12) == register_on(host, inside, 11));
    assert(register_on(host, entering, 13) == register_on(host, inside, 12));
    lemma_link_is_saved(host, link, host.executable, shortcut, identity, 11);
    lemma_link_is_saved(host, link, host.executable, shortcut, identity, 12);
    match located {
        RegistrationView::CreatingDirectory { directory, .. } => {
            assert(located.resumed(ReplyView::Done) == entering);
            assert(register_on(host, located, 13) == register_on(host, entering, 12));
        },
        _ => {
            assert(located == entering);
        },
    }
}

/// The notifier is registered exactly between `register` and `unregister`.
///
/// On an obliging host on which the shortcut is not there: the notifier is
/// not registered; a registration succeeds, and the notifier is registered
/// after it; a removal then succeeds, the files are what they were, and the
/// notifier is not registered any more; and a removal on the host as it was
/// at first succeeds and changes nothing.
pub proof fn lemma_registered_between_register_and_unregister(
    host: HostModel,
    shortcut: Seq<char>,
    identity: IdentityView,
)
    requires
        !host.files.contains(shortcut),
    ensures
        ({
            let found = Ok::<Seq<char>, ErrorView>(shortcut);
            let query = QueryView::start(Platform::Windows, found);
            let (registered, with_shortcut) = register_on(
                host,
                RegistrationView::start(Platform::Windows, found, identity),
                14,
            );
            let (removed, without) = unregister_on(
                with_shortcut,
                UnregistrationView::start(Platform::Windows, found),
                2,
            );
            let (removed_again, untouched) = unregister_on(
                host,
                UnregistrationView::start(Platform::Windows, found),
                2,
            );
            &&& !registered_on(host, query)
            &&& registered.outcome() == Some(Ok::<(), ErrorView>(()))
            &&& with_shortcut.files == host.files.insert(shortcut)
            &&& registered_on(with_shortcut, query)
            &&& removed.outcome() == Some(Ok::<(), ErrorView>(()))
            &&& without == host
            &&& !registered_on(without, query)
            &&& removed_again.outcome() == Some(Ok::<(), ErrorView>(()))
            &&& untouched == host
        }),
{
    let found = Ok::<Seq<char>, ErrorView>(shortcut);
    lemma_registration_saves_the_shortcut(host, shortcut, identity);
    let with_shortcut = HostModel { files: host.files.insert(shortcut), ..host };
    let start = UnregistrationView::start(Platform::Windows, found);
    reveal_with_fuel(unregister_on, 3);
    let removing = UnregistrationView::Removing { shortcut };
    assert(start.resumed(ReplyView::Flag(true)) == removing);
    let without = HostModel { files: with_shortcut.files.remove(shortcut), ..with_shortcut };
    assert(without.files =~= host.files);
    assert(without == host);
    assert(unregister_on(with_shortcut, start, 2) == unregister_on(with_shortcut, removing, 1));
    assert(unregister_on(with_shortcut, removing, 1) == unregister_on(
        without,
        removing.resumed(ReplyView::Done),
        0,
    ));
}

} // verus!
