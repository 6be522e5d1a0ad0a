//! The ways in which a browsing session can fail.

use vstd::prelude::*;
use vstd::string::StringExecFns;

verus! {

/// A failure of one of the services that a session relies on. Each carries
/// the words in which the service reported it.
#[derive(Debug)]
pub enum BrowseError {
    /// A database could not be opened. The session stays where it was.
    OpenFailure(String),
    /// A page or a row count could not be read. The page on screen stays.
    QueryFailure(String),
    /// A text could not be put on the clipboard. Nothing else is affected.
    ClipboardFailure(String),
}

/// What a [`BrowseError`] stands for.
#[verifier::ext_equal]
pub enum BrowseErrorModel {
    OpenFailure(Seq<char>),
    QueryFailure(Seq<char>),
    ClipboardFailure(Seq<char>),
}

impl BrowseErrorModel {
    /// The words in which the failure was reported.
    pub open spec fn message(self) -> Seq<char> {
        match self {
            BrowseErrorModel::OpenFailure(message) => message,
            BrowseErrorModel::QueryFailure(message) => message,
            BrowseErrorModel::ClipboardFailure(message) => message,
        }
    }

    /// The words that say which service failed.
    pub open spec fn heading(self) -> Seq<char> {
        match self {
            BrowseErrorModel::OpenFailure(_) => "could not open the database: "@,
            BrowseErrorModel::QueryFailure(_) => "could not read from the database: "@,
            BrowseErrorModel::ClipboardFailure(_) => "could not reach the clipboard: "@,
        }
    }

    /// The failure as one line of text.
    pub open spec fn text(self) -> Seq<char> {
        self.heading() + self.message()
    }
}

impl View for BrowseError {
    type V = BrowseErrorModel;

    open spec fn view(&self) -> BrowseErrorModel {
        match self {
            BrowseError::OpenFailure(message) => BrowseErrorModel::OpenFailure(message@),
            BrowseError::QueryFailure(message) => BrowseErrorModel::QueryFailure(message@),
            BrowseError::ClipboardFailure(message) => BrowseErrorModel::ClipboardFailure(message@),
        }
    }
}

impl BrowseError {
    /// The words in which the failure was reported.
    pub fn message(&self) -> (res: &String)
        ensures
            res@ == self@.message(),
    {
        match self {
            BrowseError::OpenFailure(message) => message,
            BrowseError::QueryFailure(message) => message,
            BrowseError::ClipboardFailure(message) => message,
        }
    }

    /// Whether the session can go on as if nothing had been asked. Only a
    /// failure to open a database ends what was attempted.
    pub fn is_recoverable(&self) -> (res: bool)
        ensures
            res == !(self@ is OpenFailure),
    {
        match self {
            BrowseError::OpenFailure(_) => false,
            _ => true,
        }
    }

    /// What became of an attempt to put a text on the clipboard: a failed
    /// attempt is a [`BrowseError::ClipboardFailure`] with the words of
    /// the failure.
    pub fn clipboard(outcome: Result<(), String>) -> (res: Result<(), BrowseError>)
        ensures
            match outcome {
                Ok(_) => res is Ok,
                Err(message) => res matches Err(error) && error@
                    == BrowseErrorModel::ClipboardFailure(message@),
            },
    {
        match outcome {
            Ok(_) => Ok(()),
            Err(message) => Err(BrowseError::ClipboardFailure(message)),
        }
    }

    /// The failure as one line of text.
    pub fn to_text(&self) -> (res: String)
        ensures
            res@ == self@.text(),
    {
        let mut text = match self {
            BrowseError::OpenFailure(_) => "could not open the database: ".to_owned(),
            BrowseError::QueryFailure(_) => "could not read from the database: ".to_owned(),
            BrowseError::ClipboardFailure(_) => "could not reach the clipboard: ".to_owned(),
        };
        text.append(self.message().as_str());
        text
    }
}

} // verus!
