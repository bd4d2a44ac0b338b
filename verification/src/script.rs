//! A script is a fixed list of effects that are asked for one after the
//! other. It stops at the first that fails and reports that failure.

use crate::error::{ErrorView, NotifierError, OutcomeView};
use crate::platform::{failure_context, Action, Effect, EffectView, Reply, ReplyView};
use vstd::prelude::*;

verus! {

/// The error that a reply to an action amounts to: a platform error with the
/// action's context and the reply's cause where the reply is a failure and
/// the action can fail, none otherwise.
pub open spec fn failure_of(action: Action, reply: ReplyView) -> Option<ErrorView> {
    match (reply, failure_context(action)) {
        (ReplyView::Failed(cause), Some(context)) => Some(
            ErrorView::PlatformError { context, cause: Some(cause) },
        ),
        _ => None,
    }
}

/// The view of an optional error.
pub open spec fn error_option_view(error: Option<NotifierError>) -> Option<ErrorView> {
    match error {
        Some(e) => Some(e@),
        None => None,
    }
}

/// The view of an optional effect.
pub open spec fn effect_option_view(effect: Option<Effect>) -> Option<EffectView> {
    match effect {
        Some(e) => Some(e@),
        None => None,
    }
}

/// The view of an optional outcome.
pub open spec fn outcome_option_view(outcome: Option<Result<(), NotifierError>>) -> Option<
    OutcomeView,
> {
    match outcome {
        Some(Ok(_)) => Some(Ok(())),
        Some(Err(e)) => Some(Err(e@)),
        None => None,
    }
}

/// The error that a reply to an action amounts to.
pub fn reply_failure(action: Action, reply: Reply) -> (failure: Option<NotifierError>)
    ensures
        error_option_view(failure) == failure_of(action, reply@),
{
    match reply {
        Reply::Failed(cause) => match action.context() {
            Some(context) => Some(NotifierError::platform(context, Some(cause))),
            None => None,
        },
        _ => None,
    }
}

/// The effects of a list, each by its view.
pub open spec fn effects_view(effects: Seq<Effect>) -> Seq<EffectView> {
    effects.map_values(|e: Effect| e@)
}

/// A list of effects, how many of them were carried out, and the failure
/// that ended it, if one did.
#[derive(Debug)]
pub struct Script {
    effects: Vec<Effect>,
    position: usize,
    failure: Option<NotifierError>,
}

/// A `Script` as plain values.
pub struct ScriptView {
    pub effects: Seq<EffectView>,
    pub position: nat,
    pub failure: Option<ErrorView>,
}

impl ScriptView {
    /// The script of these effects, none of them carried out yet.
    pub open spec fn fresh(effects: Seq<EffectView>) -> ScriptView {
        ScriptView { effects, position: 0, failure: None }
    }

    /// The script that has failed before it asked for anything.
    pub open spec fn failed(error: ErrorView) -> ScriptView {
        ScriptView { effects: Seq::empty(), position: 0, failure: Some(error) }
    }

    /// The effect that is asked for next: the first that was not carried out,
    /// unless the script has failed.
    pub open spec fn effect(self) -> Option<EffectView> {
        if self.failure is None && self.position < self.effects.len() {
            Some(self.effects[self.position as int])
        } else {
            None
        }
    }

    /// How the script ended, once it asks for nothing more.
    pub open spec fn outcome(self) -> Option<OutcomeView> {
        match self.failure {
            Some(error) => Some(Err(error)),
            None => if self.position < self.effects.len() {
                None
            } else {
                Some(Ok(()))
            },
        }
    }

    /// The script after the host has replied to the effect that was asked
    /// for. A failure of that effect ends the script; any other reply moves
    /// it on by one. A script that asks for nothing stays as it is.
    pub open spec fn resumed(self, reply: ReplyView) -> ScriptView {
        match self.effect() {
            None => self,
            Some(effect) => match failure_of(effect.action, reply) {
                Some(error) => ScriptView { failure: Some(error), ..self },
                None => ScriptView { position: self.position + 1, ..self },
            },
        }
    }

    /// The script after a run of replies, taken in order.
    pub open spec fn resumed_all(self, replies: Seq<ReplyView>) -> ScriptView
        decreases replies.len(),
    {
        if replies.len() == 0 {
            self
        } else {
            self.resumed_all(replies.drop_last()).resumed(replies.last())
        }
    }
}

/// A script that asks for nothing has ended, and stays as it is whatever
/// replies it is given.
pub proof fn lemma_ended_script_stays(script: ScriptView, replies: Seq<ReplyView>)
    requires
        script.effect() is None,
    ensures
        script.outcome() is Some,
        script.resumed_all(replies) == script,
    decreases replies.len(),
{
    if replies.len() > 0 {
        lemma_ended_script_stays(script, replies.drop_last());
    }
}

/// A script stops at the first effect that fails: it asks for nothing more,
/// its outcome is the failure of that effect, no later reply changes it, and
/// the effects behind the failed one are never asked for.
pub proof fn lemma_script_stops_at_first_failure(
    script: ScriptView,
    reply: ReplyView,
    later: Seq<ReplyView>,
)
    requires
        script.effect() is Some,
        failure_of(script.effect()->0.action, reply) is Some,
    ensures
        script.resumed(reply).effect() is None,
        script.resumed(reply).outcome() == Some(
            Err::<(), ErrorView>(failure_of(script.effect()->0.action, reply)->0),
        ),
        script.resumed(reply).position == script.position,
        script.resumed(reply).resumed_all(later) == script.resumed(reply),
{
    lemma_ended_script_stays(script.resumed(reply), later);
}

/// A script whose effects all succeed asks for each of them in order and
/// ends well: after as many replies as it has effects, none of them a
/// failure, every effect was carried out and the outcome is success.
pub proof fn lemma_script_runs_to_its_end(effects: Seq<EffectView>, replies: Seq<ReplyView>)
    requires
        replies.len() <= effects.len(),
        forall|i: int| 0 <= i < replies.len() ==> !(#[trigger] replies[i] is Failed),
    ensures
        ScriptView::fresh(effects).resumed_all(replies) == (ScriptView {
            position: replies.len(),
            ..ScriptView::fresh(effects)
        }),
        replies.len() < effects.len() ==> ScriptView::fresh(effects).resumed_all(replies).effect()
            == Some(effects[replies.len() as int]),
        replies.len() == effects.len() ==> ScriptView::fresh(effects).resumed_all(
            replies,
        ).outcome() == Some(Ok::<(), ErrorView>(())),
    decreases replies.len(),
{
    if replies.len() > 0 {
        let before = replies.drop_last();
        assert forall|i: int| 0 <= i < before.len() implies !(#[trigger] before[i] is Failed) by {
            assert(before[i] == replies[i]);
        }
        lemma_script_runs_to_its_end(effects, before);
        assert(!(replies[replies.len() - 1] is Failed));
    }
}

/// The error of a reply that should have carried a path: the failure that
/// the host reported, or a failure without a cause where the reply was of
/// another kind.
pub open spec fn missing_text(action: Action, reply: ReplyView) -> ErrorView {
    ErrorView::PlatformError {
        context: match failure_context(action) {
            Some(context) => context,
            None => Seq::empty(),
        },
        cause: match reply {
            ReplyView::Failed(cause) => Some(cause),
            _ => None,
        },
    }
}

/// The error of a reply that should have carried a path.
pub fn text_missing(action: Action, reply: Reply) -> (error: NotifierError)
    ensures
        error@ == missing_text(action, reply@),
{
    let cause = match reply {
        Reply::Failed(cause) => Some(cause),
        _ => None,
    };
    match action.context() {
        Some(context) => NotifierError::platform(context, cause),
        None => {
            proof {
                reveal_strlit("");
            }
            assert(""@ =~= Seq::<char>::empty());
            NotifierError::platform("", cause)
        },
    }
}

impl View for Script {
    type V = ScriptView;

    closed spec fn view(&self) -> ScriptView {
        ScriptView {
            effects: effects_view(self.effects@),
            position: self.position as nat,
            failure: error_option_view(self.failure),
        }
    }
}

impl Script {
    /// The script of these effects, none of them carried out yet.
    pub fn new(effects: Vec<Effect>) -> (script: Script)
        ensures
            script@ == ScriptView::fresh(effects_view(effects@)),
    {
        Script { effects, position: 0, failure: None }
    }

    /// The script that has failed before it asked for anything.
    pub fn failed(error: NotifierError) -> (script: Script)
        ensures
            script@ == ScriptView::failed(error@),
    {
        let script = Script { effects: Vec::new(), position: 0, failure: Some(error) };
        assert(effects_view(script.effects@) =~= Seq::empty());
        script
    }

    /// The effect that is asked for next.
    pub fn effect(&self) -> (effect: Option<Effect>)
        ensures
            effect_option_view(effect) == self@.effect(),
    {
        if self.failure.is_none() && self.position < self.effects.len() {
            let next = &self.effects[self.position];
            Some(Effect::with_text(next.action, next.text.as_str()))
        } else {
            None
        }
    }

    /// How the script ended, once it asks for nothing more.
    pub fn outcome(&self) -> (outcome: Option<Result<(), NotifierError>>)
        ensures
            outcome_option_view(outcome) == self@.outcome(),
    {
        match &self.failure {
            Some(error) => Some(Err(error.duplicate())),
            None => if self.position < self.effects.len() {
                None
            } else {
                Some(Ok(()))
            },
        }
    }

    /// Takes the host's reply to the effect that was asked for.
    pub fn resume(self, reply: Reply) -> (next: Script)
        ensures
            next@ == self@.resumed(reply@),
    {
        if self.failure.is_none() && self.position < self.effects.len() {
            let action = self.effects[self.position].action;
            match reply_failure(action, reply) {
                Some(error) => Script {
                    effects: self.effects,
                    position: self.position,
                    failure: Some(error),
                },
                None => Script {
                    effects: self.effects,
                    position: self.position + 1,
                    failure: None,
                },
            }
        } else {
            self
        }
    }
}

} // verus!
