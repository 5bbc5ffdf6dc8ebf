//! The failures a run can end in before the downloader is spawned.
use vstd::prelude::*;
use vstd::string::StringExecFns;

verus! {

/// An I/O failure together with the path that was being accessed.
#[derive(Debug)]
pub struct FileContextError {
    /// A description of the underlying I/O failure.
    pub source: String,
    /// The path whose access failed.
    pub context: String,
}

/// Attaches the offending path to a bare I/O failure description.
pub trait FileContextErrorExt: Sized {
    /// The text of the failure being wrapped.
    spec fn source_view(&self) -> Seq<char>;

    /// Wraps the failure with the path at which it happened.
    fn with_path(self, path: &String) -> (r: FileContextError)
        ensures
            r.source@ == self.source_view(),
            r.context@ == path@,
    ;
}

impl FileContextErrorExt for String {
    open spec fn source_view(&self) -> Seq<char> {
        self@
    }

    fn with_path(self, path: &String) -> (r: FileContextError) {
        FileContextError { source: self, context: path.clone() }
    }
}

/// Attaches the offending path to the failure of a fallible operation,
/// leaving a success untouched.
pub trait FileContextResultExt<T>: Sized {
    /// The successful value, if there is one.
    spec fn ok_value(&self) -> Option<T>;

    /// The text of the failure, when there is one.
    spec fn err_view(&self) -> Seq<char>;

    /// Wraps a failure with the path at which it happened.
    fn with_path(self, path: &String) -> (r: Result<T, FileContextError>)
        ensures
            self.ok_value() matches Some(t) ==> (r matches Ok(t2) && t2 == t),
            self.ok_value() is None ==> (r matches Err(f) && f.source@ == self.err_view()
                && f.context@ == path@),
    ;
}

impl<T> FileContextResultExt<T> for Result<T, String> {
    open spec fn ok_value(&self) -> Option<T> {
        match self {
            Ok(t) => Some(*t),
            Err(_) => None,
        }
    }

    open spec fn err_view(&self) -> Seq<char> {
        match self {
            Ok(_) => Seq::empty(),
            Err(e) => e@,
        }
    }

    fn with_path(self, path: &String) -> (r: Result<T, FileContextError>) {
        match self {
            Ok(t) => Ok(t),
            Err(e) => Err(FileContextErrorExt::with_path(e, path)),
        }
    }
}

/// Every failure is terminal for the run: nothing is retried, and no external
/// process is spawned once one of these has been produced.
#[derive(Debug)]
pub enum Error {
    /// An I/O failure, with the offending path attached.
    FilesystemAccess(FileContextError),
    /// The profile directory does not exist or holds no profiles.
    MissingProfiles,
    /// A named profile does not exist at the path where it was expected.
    ValidationFailure { name: String, expected_path: String },
    /// The user cancelled or declined a prompt.
    InteractionCancelled,
    /// The user confirmed an empty or unusable answer.
    InteractionEmpty,
    /// The collation engine could not be constructed.
    LocaleDataUnavailable,
    /// Non-interactive mode was selected with a required input missing.
    RequiredValueMissing,
}

/// The diagnostic text of an error, one exact message per kind.
pub open spec fn error_message(e: Error) -> Seq<char> {
    match e {
        Error::FilesystemAccess(f) => "while accessing '"@ + f.context@ + "': "@ + f.source@,
        Error::MissingProfiles => "no profiles found in the profile directory"@,
        Error::ValidationFailure { name: _, expected_path } => "ensure the profile exists at '"@
            + expected_path@ + "'"@,
        Error::InteractionCancelled => "interaction was cancelled"@,
        Error::InteractionEmpty => "no usable input was given"@,
        Error::LocaleDataUnavailable => "locale collation data is unavailable"@,
        Error::RequiredValueMissing => "a required value is missing and prompts are disabled"@,
    }
}

impl Error {
    /// The human-readable diagnostic for this error.
    pub fn message(&self) -> (r: String)
        ensures
            r@ == error_message(*self),
    {
        match self {
            Error::FilesystemAccess(f) => {
                let mut m = String::from_str("while accessing '");
                m.append(f.context.as_str());
                m.append("': ");
                m.append(f.source.as_str());
                proof {
                    assert(m@ =~= error_message(*self));
                }
                m
            },
            Error::MissingProfiles => String::from_str("no profiles found in the profile directory"),
            Error::ValidationFailure { name: _, expected_path } => {
                let mut m = String::from_str("ensure the profile exists at '");
                m.append(expected_path.as_str());
                m.append("'");
                proof {
                    assert(m@ =~= error_message(*self));
                }
                m
            },
            Error::InteractionCancelled => String::from_str("interaction was cancelled"),
            Error::InteractionEmpty => String::from_str("no usable input was given"),
            Error::LocaleDataUnavailable => String::from_str("locale collation data is unavailable"),
            Error::RequiredValueMissing => String::from_str(
                "a required value is missing and prompts are disabled",
            ),
        }
    }
}

} // verus!
