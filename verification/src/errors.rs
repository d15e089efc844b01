//! The ways in which a directory operation can fail.

use vstd::prelude::*;
use vstd::string::*;
use crate::env::CognitoEnvConfig;

verus! {

/// A failure of a directory operation. Nothing is recovered locally: each of
/// them reaches the caller as it arose.
#[derive(Clone, Debug, PartialEq, Eq)]
pub enum CognitoError {
    /// A required configuration value is absent.
    MissingConfig { key: CognitoEnvConfig },
    /// The remote call failed; `debug` is the description of the failure.
    Callout { debug: String },
    /// The directory answered with a record that breaks what is assumed of it.
    Critical { message: String },
}

/// The mathematical value of a [`CognitoError`].
pub ghost enum CognitoErrorView {
    MissingConfig { key: CognitoEnvConfig },
    Callout { debug: Seq<char> },
    Critical { message: Seq<char> },
}

impl View for CognitoError {
    type V = CognitoErrorView;

    open spec fn view(&self) -> CognitoErrorView {
        match self {
            CognitoError::MissingConfig { key } => CognitoErrorView::MissingConfig { key: *key },
            CognitoError::Callout { debug } => CognitoErrorView::Callout { debug: debug@ },
            CognitoError::Critical { message } => CognitoErrorView::Critical { message: message@ },
        }
    }
}

impl CognitoErrorView {
    /// The text that describes the error to a reader.
    pub open spec fn message(self) -> Seq<char> {
        match self {
            CognitoErrorView::MissingConfig { key } => "Missing configuration value: "@
                + key.spec_name(),
            CognitoErrorView::Callout { debug } => "Cognito error."@,
            CognitoErrorView::Critical { message } => message,
        }
    }
}

impl CognitoError {
    /// Returns the text that describes the error. A missing configuration
    /// value is named by its key; the description of a failed remote call is
    /// kept apart, in the `debug` field.
    pub fn message(&self) -> (res: String)
        ensures
            res@ == self@.message(),
    {
        match self {
            CognitoError::MissingConfig { key } => {
                let mut text = "Missing configuration value: ".to_owned();
                text.append(key.name());
                text
            },
            CognitoError::Callout { debug: _ } => "Cognito error.".to_owned(),
            CognitoError::Critical { message } => message.clone(),
        }
    }
}

} // verus!
