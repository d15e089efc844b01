//! The configuration values that the directory operations read.

use vstd::prelude::*;
use crate::errors::{CognitoError, CognitoErrorView};

verus! {

/// The closed set of configuration keys.
#[derive(Clone, Copy, Debug, PartialEq, Eq, Hash, Structural)]
pub enum CognitoEnvConfig {
    /// The cloud region in which the user pool lives.
    CognitoRegion,
    /// The identifier of the user pool.
    CognitoUserPoolId,
}

impl CognitoEnvConfig {
    /// The name under which the key is looked up in the process environment.
    pub open spec fn spec_name(self) -> Seq<char> {
        match self {
            CognitoEnvConfig::CognitoRegion => "COGNITO_REGION"@,
            CognitoEnvConfig::CognitoUserPoolId => "COGNITO_USER_POOL_ID"@,
        }
    }

    /// Returns the name under which the key is looked up.
    pub fn name(&self) -> (res: &'static str)
        ensures
            res@ == self.spec_name(),
    {
        match self {
            CognitoEnvConfig::CognitoRegion => "COGNITO_REGION",
            CognitoEnvConfig::CognitoUserPoolId => "COGNITO_USER_POOL_ID",
        }
    }
}

/// The text of an optional string.
pub open spec fn text_of(value: Option<String>) -> Option<Seq<char>> {
    match value {
        Some(text) => Some(text@),
        None => None,
    }
}

/// The mapping that two raw settings resolve to: a key is present exactly
/// where its setting is given and not empty.
pub open spec fn resolved(region: Option<Seq<char>>, user_pool_id: Option<Seq<char>>) -> Map<
    CognitoEnvConfig,
    Seq<char>,
> {
    Map::new(
        |key: CognitoEnvConfig|
            match key {
                CognitoEnvConfig::CognitoRegion => region is Some && region->0.len() > 0,
                CognitoEnvConfig::CognitoUserPoolId => user_pool_id is Some
                    && user_pool_id->0.len() > 0,
            },
        |key: CognitoEnvConfig|
            match key {
                CognitoEnvConfig::CognitoRegion => region->0,
                CognitoEnvConfig::CognitoUserPoolId => user_pool_id->0,
            },
    )
}

/// The configuration value set: filled once, read-only afterwards. Its value
/// is a mapping from keys to non-empty strings.
#[derive(Debug)]
pub struct EnvVariables {
    region: Option<String>,
    user_pool_id: Option<String>,
}

impl View for EnvVariables {
    type V = Map<CognitoEnvConfig, Seq<char>>;

    closed spec fn view(&self) -> Map<CognitoEnvConfig, Seq<char>> {
        resolved(text_of(self.region), text_of(self.user_pool_id))
    }
}

impl Clone for EnvVariables {
    fn clone(&self) -> (res: Self)
        ensures
            res@ == self@,
    {
        proof {
            use_type_invariant(self);
        }
        let region = match &self.region {
            Some(text) => Some(text.clone()),
            None => None,
        };
        let user_pool_id = match &self.user_pool_id {
            Some(text) => Some(text.clone()),
            None => None,
        };
        EnvVariables { region, user_pool_id }
    }
}

impl EnvVariables {
    #[verifier::type_invariant]
    closed spec fn holds_no_empty_value(&self) -> bool {
        &&& self.region is Some ==> self.region->0@.len() > 0
        &&& self.user_pool_id is Some ==> self.user_pool_id->0@.len() > 0
    }

    /// Every key that resolves does so to a string that is not empty.
    pub proof fn values_are_not_empty(&self)
        ensures
            forall|key: CognitoEnvConfig| #[trigger]
                self@.contains_key(key) ==> self@[key].len() > 0,
    {
    }

    /// Builds the value set from the two settings as they were found. A
    /// setting that is absent or empty leaves its key unresolved.
    pub fn new(region: Option<String>, user_pool_id: Option<String>) -> (res: Self)
        ensures
            res@ == resolved(text_of(region), text_of(user_pool_id)),
    {
        let kept_region = keep_non_empty(region);
        let kept_pool = keep_non_empty(user_pool_id);
        let res = EnvVariables { region: kept_region, user_pool_id: kept_pool };
        assert(res@ =~= resolved(text_of(region), text_of(user_pool_id)));
        res
    }

    /// Returns the value of `key`, or the configuration error that names the
    /// key where it is unresolved.
    pub fn get(&self, key: &CognitoEnvConfig) -> (res: Result<&String, CognitoError>)
        ensures
            self@.contains_key(*key) ==> res is Ok && res->Ok_0@ == self@[*key],
            !self@.contains_key(*key) ==> res is Err && res->Err_0@ == (
            CognitoErrorView::MissingConfig { key: *key }),
            res is Ok ==> res->Ok_0@.len() > 0,
    {
        proof {
            use_type_invariant(self);
        }
        let held = match key {
            CognitoEnvConfig::CognitoRegion => &self.region,
            CognitoEnvConfig::CognitoUserPoolId => &self.user_pool_id,
        };
        match held {
            Some(value) => Ok(value),
            None => Err(CognitoError::MissingConfig { key: *key }),
        }
    }
}

/// Drops a setting that is empty.
fn keep_non_empty(setting: Option<String>) -> (res: Option<String>)
    ensures
        match setting {
            Some(text) => if text@.len() > 0 {
                res == Some(text)
            } else {
                res is None
            },
            None => res is None,
        },
{
    match setting {
        Some(text) => if text.as_str().is_empty() {
            None
        } else {
            Some(text)
        },
        None => None,
    }
}

} // verus!
