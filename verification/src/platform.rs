//! What passes between the notifier and its host: the effects that the
//! notifier asks for, and the replies that the host gives.

use vstd::prelude::*;

verus! {

/// The platform that the host runs on. Everything but Windows is `Other`.
#[derive(Clone, Copy, Debug, PartialEq, Eq, Structural)]
pub enum Platform {
    Windows,
    Other,
}

/// The two console streams.
#[derive(Clone, Copy, Debug, PartialEq, Eq, Structural)]
pub enum Stream {
    Output,
    Error,
}

/// One thing that the host can be asked to do. Where an action takes an
/// argument, it is the text of the effect that carries the action.
#[derive(Clone, Copy, Debug, PartialEq, Eq, Structural)]
pub enum Action {
    /// Write the text as one line to the stream.
    Print(Stream),
    /// Find the path of the running executable; the reply carries it.
    CurrentExecutable,
    /// Tell whether the path exists; the reply carries a flag.
    PathExists,
    /// Resolve the path to an absolute one; the reply carries it.
    Canonicalize,
    /// Create the directory and the directories above it.
    CreateDirectories,
    /// Delete the file.
    RemoveFile,
    /// Enter the scope of the platform's object model.
    ComInitialize,
    /// Leave that scope.
    ComUninitialize,
    /// Create a shell-link object.
    CreateShellLink,
    /// Set the link's target to the path.
    SetLinkTarget,
    /// Set the link's working directory.
    SetLinkWorkingDirectory,
    /// Set the link's description.
    SetLinkDescription,
    /// View the link as a property store.
    OpenPropertyStore,
    /// Write the text as the application user model id of the link.
    SetAppUserModelId,
    /// Commit the property store.
    CommitProperties,
    /// View the link as a file that can be saved.
    OpenPersistFile,
    /// Save the link at the path.
    SaveLink,
    /// Create an empty markup document.
    CreateXmlDocument,
    /// Load the text into the document.
    LoadXml,
    /// Make a toast from the document.
    CreateToast,
    /// Get the notifier of the application whose identity is the text.
    CreateNotifier,
    /// Show the toast.
    ShowToast,
    /// Make a URI object from the text.
    CreateUri,
    /// Open a media source from the URI.
    CreateMediaSource,
    /// Create a media player.
    CreateMediaPlayer,
    /// Give the player its source.
    SetMediaSource,
    /// Start playing.
    Play,
    /// Block for so many milliseconds.
    Sleep(u64),
}

/// What is reported when an action fails; `None` for an action that cannot
/// fail.
pub open spec fn failure_context(action: Action) -> Option<Seq<char>> {
    match action {
        Action::Print(_) => None,
        Action::CurrentExecutable => Some("Failed to get executable path"@),
        Action::PathExists => None,
        Action::Canonicalize => Some("Failed to get absolute path"@),
        Action::CreateDirectories => Some("Failed to create Start Menu directory"@),
        Action::RemoveFile => Some("Failed to remove shortcut"@),
        Action::ComInitialize => Some("Failed to initialize COM"@),
        Action::ComUninitialize => None,
        Action::CreateShellLink => Some("Failed to create ShellLink"@),
        Action::SetLinkTarget => Some("Failed to set shortcut path"@),
        Action::SetLinkWorkingDirectory => Some("Failed to set working directory"@),
        Action::SetLinkDescription => Some("Failed to set description"@),
        Action::OpenPropertyStore => Some("Failed to get IPropertyStore"@),
        Action::SetAppUserModelId => Some("Failed to set AUMID property"@),
        Action::CommitProperties => Some("Failed to commit property store"@),
        Action::OpenPersistFile => Some("Failed to get IPersistFile"@),
        Action::SaveLink => Some("Failed to save shortcut"@),
        Action::CreateXmlDocument => Some("Failed to create XmlDocument"@),
        Action::LoadXml => Some("Failed to load toast XML"@),
        Action::CreateToast => Some("Failed to create toast notification"@),
        Action::CreateNotifier => Some("Failed to create toast notifier"@),
        Action::ShowToast => Some("Failed to show notification"@),
        Action::CreateUri => Some("Failed to create URI"@),
        Action::CreateMediaSource => Some("Failed to create media source"@),
        Action::CreateMediaPlayer => Some("Failed to create media player"@),
        Action::SetMediaSource => Some("Failed to set media source"@),
        Action::Play => Some("Failed to play sound"@),
        Action::Sleep(_) => None,
    }
}

/// Whether the action may only be asked for inside the scope of the
/// platform's object model.
pub open spec fn needs_com(action: Action) -> bool {
    match action {
        Action::CreateShellLink => true,
        Action::SetLinkTarget => true,
        Action::SetLinkWorkingDirectory => true,
        Action::SetLinkDescription => true,
        Action::OpenPropertyStore => true,
        Action::SetAppUserModelId => true,
        Action::CommitProperties => true,
        Action::OpenPersistFile => true,
        Action::SaveLink => true,
        _ => false,
    }
}

impl Action {
    /// What is reported when this action fails.
    pub fn context(self) -> (context: Option<&'static str>)
        ensures
            match context {
                Some(text) => failure_context(self) == Some(text@),
                None => failure_context(self) is None,
            },
    {
        match self {
            Action::Print(_) => None,
            Action::CurrentExecutable => Some("Failed to get executable path"),
            Action::PathExists => None,
            Action::Canonicalize => Some("Failed to get absolute path"),
            Action::CreateDirectories => Some("Failed to create Start Menu directory"),
            Action::RemoveFile => Some("Failed to remove shortcut"),
            Action::ComInitialize => Some("Failed to initialize COM"),
            Action::ComUninitialize => None,
            Action::CreateShellLink => Some("Failed to create ShellLink"),
            Action::SetLinkTarget => Some("Failed to set shortcut path"),
            Action::SetLinkWorkingDirectory => Some("Failed to set working directory"),
            Action::SetLinkDescription => Some("Failed to set description"),
            Action::OpenPropertyStore => Some("Failed to get IPropertyStore"),
            Action::SetAppUserModelId => Some("Failed to set AUMID property"),
            Action::CommitProperties => Some("Failed to commit property store"),
            Action::OpenPersistFile => Some("Failed to get IPersistFile"),
            Action::SaveLink => Some("Failed to save shortcut"),
            Action::CreateXmlDocument => Some("Failed to create XmlDocument"),
            Action::LoadXml => Some("Failed to load toast XML"),
            Action::CreateToast => Some("Failed to create toast notification"),
            Action::CreateNotifier => Some("Failed to create toast notifier"),
            Action::ShowToast => Some("Failed to show notification"),
            Action::CreateUri => Some("Failed to create URI"),
            Action::CreateMediaSource => Some("Failed to create media source"),
            Action::CreateMediaPlayer => Some("Failed to create media player"),
            Action::SetMediaSource => Some("Failed to set media source"),
            Action::Play => Some("Failed to play sound"),
            Action::Sleep(_) => None,
        }
    }
}

/// An action together with its argument. An action without an argument has
/// the empty text.
#[derive(Debug)]
pub struct Effect {
    pub action: Action,
    pub text: String,
}

/// An `Effect` with its text as a character sequence.
pub struct EffectView {
    pub action: Action,
    pub text: Seq<char>,
}

impl View for Effect {
    type V = EffectView;

    open spec fn view(&self) -> EffectView {
        EffectView { action: self.action, text: self.text@ }
    }
}

/// The effect of an action that takes no argument.
pub open spec fn bare(action: Action) -> EffectView {
    EffectView { action, text: Seq::<char>::empty() }
}

/// The effect of an action on a text.
pub open spec fn with_text(action: Action, text: Seq<char>) -> EffectView {
    EffectView { action, text }
}

impl Effect {
    /// The effect of an action that takes no argument.
    pub fn bare(action: Action) -> (effect: Effect)
        ensures
            effect@ == bare(action),
    {
        Effect { action, text: String::new() }
    }

    /// The effect of an action on a text.
    pub fn with_text(action: Action, text: &str) -> (effect: Effect)
        ensures
            effect@ == with_text(action, text@),
    {
        Effect { action, text: text.to_owned() }
    }
}

/// What the host reports after it has carried out an effect.
#[derive(Debug)]
pub enum Reply {
    /// The effect was carried out.
    Done,
    /// It failed; the text says why.
    Failed(String),
    /// The answer to a question.
    Flag(bool),
    /// The path that was asked for.
    Text(String),
}

/// A `Reply` with its texts as character sequences.
pub enum ReplyView {
    Done,
    Failed(Seq<char>),
    Flag(bool),
    Text(Seq<char>),
}

impl View for Reply {
    type V = ReplyView;

    open spec fn view(&self) -> ReplyView {
        match self {
            Reply::Done => ReplyView::Done,
            Reply::Failed(cause) => ReplyView::Failed(cause@),
            Reply::Flag(flag) => ReplyView::Flag(*flag),
            Reply::Text(text) => ReplyView::Text(text@),
        }
    }
}

} // verus!
