//! The failures that the notifier reports, and the text of each.

use vstd::prelude::*;
use vstd::string::StringExecFns;

verus! {

/// The four things the notifier can be asked to do on the platform.
#[derive(Clone, Copy, Debug, PartialEq, Eq, Structural)]
pub enum Operation {
    Registration,
    Unregistration,
    Notification,
    Sound,
}

/// Why an operation did not complete.
#[derive(Debug)]
pub enum NotifierError {
    /// The sound file does not exist.
    NotFound { path: String },
    /// The sound file is not of the one supported format; `extension` is the
    /// lowercase extension that was found, empty when there was none.
    UnsupportedFormat { extension: String },
    /// The operation exists on Windows only.
    UnsupportedPlatform { operation: Operation },
    /// A platform call failed. `context` names the step, `cause` is what the
    /// platform said, where it said anything.
    PlatformError { context: String, cause: Option<String> },
}

/// A `NotifierError` with its texts as character sequences.
pub enum ErrorView {
    NotFound { path: Seq<char> },
    UnsupportedFormat { extension: Seq<char> },
    UnsupportedPlatform { operation: Operation },
    PlatformError { context: Seq<char>, cause: Option<Seq<char>> },
}

impl View for NotifierError {
    type V = ErrorView;

    open spec fn view(&self) -> ErrorView {
        match self {
            NotifierError::NotFound { path } => ErrorView::NotFound { path: path@ },
            NotifierError::UnsupportedFormat { extension } => ErrorView::UnsupportedFormat {
                extension: extension@,
            },
            NotifierError::UnsupportedPlatform { operation } => ErrorView::UnsupportedPlatform {
                operation: *operation,
            },
            NotifierError::PlatformError { context, cause } => ErrorView::PlatformError {
                context: context@,
                cause: match cause {
                    Some(text) => Some(text@),
                    None => None,
                },
            },
        }
    }
}

/// How an operation ended, as a view: nothing on success, the error otherwise.
pub type OutcomeView = Result<(), ErrorView>;

/// The view of an outcome.
pub open spec fn outcome_view(outcome: Result<(), NotifierError>) -> OutcomeView {
    match outcome {
        Ok(_) => Ok(()),
        Err(error) => Err(error@),
    }
}

/// The sentence that says an operation exists on Windows only.
pub open spec fn unsupported_text(operation: Operation) -> Seq<char> {
    match operation {
        Operation::Registration => "Registration is only supported on Windows"@,
        Operation::Unregistration => "Unregistration is only supported on Windows"@,
        Operation::Notification => "Toast notifications are only supported on Windows"@,
        Operation::Sound => "Sound playback is only supported on Windows"@,
    }
}

/// The text before the error message on the error line: the tag `[ERROR]`
/// in bold red, then a space.
pub open spec fn error_prefix() -> Seq<char> {
    "\x1b[1;31m[ERROR]\x1b[0m "@
}

impl ErrorView {
    /// The message of an error. A platform error shows its context and, after
    /// a colon, its cause.
    pub open spec fn message(self) -> Seq<char> {
        match self {
            ErrorView::NotFound { path } => "Sound file not found: "@ + path,
            ErrorView::UnsupportedFormat { extension } =>
                "Only .wav files are supported on Windows (got ."@ + extension + ")"@,
            ErrorView::UnsupportedPlatform { operation } => unsupported_text(operation),
            ErrorView::PlatformError { context, cause } => match cause {
                Some(text) => context + ": "@ + text,
                None => context,
            },
        }
    }

    /// The line that the top level prints for an error.
    pub open spec fn line(self) -> Seq<char> {
        error_prefix() + self.message()
    }
}

impl NotifierError {
    /// The platform error of a step whose context is `context`.
    pub fn platform(context: &str, cause: Option<String>) -> (error: NotifierError)
        ensures
            error@ == (ErrorView::PlatformError {
                context: context@,
                cause: match cause {
                    Some(text) => Some(text@),
                    None => None,
                },
            }),
    {
        NotifierError::PlatformError { context: context.to_owned(), cause }
    }

    /// A copy of this error, text for text.
    pub fn duplicate(&self) -> (copy: NotifierError)
        ensures
            copy == *self,
    {
        match self {
            NotifierError::NotFound { path } => NotifierError::NotFound { path: path.clone() },
            NotifierError::UnsupportedFormat { extension } => NotifierError::UnsupportedFormat {
                extension: extension.clone(),
            },
            NotifierError::UnsupportedPlatform { operation } =>
                NotifierError::UnsupportedPlatform { operation: *operation },
            NotifierError::PlatformError { context, cause } => NotifierError::PlatformError {
                context: context.clone(),
                cause: cause.clone(),
            },
        }
    }

    /// The message of this error.
    pub fn message(&self) -> (text: String)
        ensures
            text@ == self@.message(),
    {
        match self {
            NotifierError::NotFound { path } => {
                let mut text = "Sound file not found: ".to_owned();
                text.append(path.as_str());
                text
            },
            NotifierError::UnsupportedFormat { extension } => {
                let mut text = "Only .wav files are supported on Windows (got .".to_owned();
                text.append(extension.as_str());
                text.append(")");
                text
            },
            NotifierError::UnsupportedPlatform { operation } => match operation {
                Operation::Registration => "Registration is only supported on Windows".to_owned(),
                Operation::Unregistration => "Unregistration is only supported on Windows"
                    .to_owned(),
                Operation::Notification => "Toast notifications are only supported on Windows"
                    .to_owned(),
                Operation::Sound => "Sound playback is only supported on Windows".to_owned(),
            },
            NotifierError::PlatformError { context, cause } => match cause {
                Some(detail) => {
                    let mut text = context.clone();
                    text.append(": ");
                    text.append(detail.as_str());
                    text
                },
                None => context.clone(),
            },
        }
    }

    /// The line that the top level prints for this error.
    pub fn error_line(&self) -> (line: String)
        ensures
            line@ == self@.line(),
    {
        let mut line = "\x1b[1;31m[ERROR]\x1b[0m ".to_owned();
        let message = self.message();
        line.append(message.as_str());
        line
    }
}

} // verus!
