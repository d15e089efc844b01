//! The two directory operations, bound to a client and a configuration.

use vstd::prelude::*;
use crate::env::{CognitoEnvConfig, EnvVariables};
use crate::errors::{CognitoError, CognitoErrorView};
use crate::lookup::{
    lookup_request,
    lookup_result,
    lookup_spec,
    username_result,
    EMAIL_ATTRIBUTE,
    USER_SUB_ATTRIBUTE,
};
use crate::protocol::{
    deleted,
    listed,
    AdminDeleteUserAttributesOutput,
    ListUsersOutput,
    TransportError,
};
use crate::removal::{delete_request, delete_result, removal_spec, unit_result};

verus! {

/// The two remote calls that the operations need. An implementation bound to
/// the provider performs them; one that holds canned answers stands in for
/// it where no network is wanted. Nothing is assumed of what a call gives.
pub trait CognitoClient {
    /// Lists the users of the pool that match `filter`, at most `limit` of them.
    fn list_users(&self, user_pool_id: String, filter: String, limit: i32) -> Result<
        ListUsersOutput,
        TransportError,
    >;

    /// Deletes the named attributes of the named user of the pool.
    fn admin_delete_user_attributes(
        &self,
        user_pool_id: String,
        username: String,
        attributes: Vec<String>,
    ) -> Result<AdminDeleteUserAttributesOutput, TransportError>;
}

/// A client together with the configuration that its calls are made under.
pub struct CognitoUtil<ClientImpl: CognitoClient> {
    client: ClientImpl,
    env: EnvVariables,
}

impl<ClientImpl: CognitoClient> CognitoUtil<ClientImpl> {
    /// The configuration that the operations read.
    pub closed spec fn env(&self) -> Map<CognitoEnvConfig, Seq<char>> {
        self.env@
    }

    #[verifier::type_invariant]
    closed spec fn region_is_resolved(&self) -> bool {
        self.env@.contains_key(CognitoEnvConfig::CognitoRegion)
    }

    /// Binds `client` to `env`. The region must be resolved, or nothing is
    /// built and the configuration error names it.
    pub fn new(client: ClientImpl, env: EnvVariables) -> (res: Result<Self, CognitoError>)
        ensures
            env@.contains_key(CognitoEnvConfig::CognitoRegion) ==> res is Ok && res->Ok_0.env()
                == env@ && res->Ok_0.env().contains_key(CognitoEnvConfig::CognitoRegion),
            !env@.contains_key(CognitoEnvConfig::CognitoRegion) ==> res is Err && res->Err_0@ == (
            CognitoErrorView::MissingConfig { key: CognitoEnvConfig::CognitoRegion }),
    {
        match env.get(&CognitoEnvConfig::CognitoRegion) {
            Ok(_) => {},
            Err(error) => {
                return Err(error);
            },
        }
        Ok(CognitoUtil { client, env })
    }

    /// Looks a username up by one attribute. Without a user pool identifier
    /// the client is not called; else it is asked once, for the first match
    /// of `attribute = "value"`, and its answer decides.
    fn get_username_from_attribute(&self, attribute: &str, value: &str) -> (res: Result<
        Option<String>,
        CognitoError,
    >)
        ensures
            exists|response: Result<Seq<Option<Seq<char>>>, Seq<char>>|
                username_result(res) == #[trigger] lookup_spec(
                    self.env(),
                    attribute@,
                    value@,
                    response,
                ),
            !self.env().contains_key(CognitoEnvConfig::CognitoUserPoolId) ==> username_result(res)
                == Err::<Option<Seq<char>>, CognitoErrorView>(
                CognitoErrorView::MissingConfig { key: CognitoEnvConfig::CognitoUserPoolId },
            ),
    {
        let request = match lookup_request(&self.env, attribute, value) {
            Ok(request) => request,
            Err(error) => {
                assert(username_result(Err(error)) == lookup_spec(
                    self.env(),
                    attribute@,
                    value@,
                    Ok(Seq::empty()),
                ));
                return Err(error);
            },
        };
        let response = self.client.list_users(request.user_pool_id, request.filter, request.limit);
        let res = lookup_result(response, attribute, value);
        assert(username_result(res) == lookup_spec(
            self.env(),
            attribute@,
            value@,
            listed(response),
        ));
        res
    }

    /// Returns the username of the user whose email address is `email`, or
    /// `None` where the directory lists no such user.
    pub fn get_username_from_email(&self, email: &str) -> (res: Result<
        Option<String>,
        CognitoError,
    >)
        ensures
            exists|response: Result<Seq<Option<Seq<char>>>, Seq<char>>|
                username_result(res) == #[trigger] lookup_spec(
                    self.env(),
                    EMAIL_ATTRIBUTE@,
                    email@,
                    response,
                ),
            !self.env().contains_key(CognitoEnvConfig::CognitoUserPoolId) ==> username_result(res)
                == Err::<Option<Seq<char>>, CognitoErrorView>(
                CognitoErrorView::MissingConfig { key: CognitoEnvConfig::CognitoUserPoolId },
            ),
    {
        self.get_username_from_attribute(EMAIL_ATTRIBUTE, email)
    }

    /// Removes the email attribute of the user whose subject identifier is
    /// `user_sub`. Where the directory lists no such user, nothing is deleted
    /// and the removal succeeds.
    pub fn delete_email_for_user(&self, user_sub: &str) -> (res: Result<(), CognitoError>)
        ensures
            exists|
                users: Result<Seq<Option<Seq<char>>>, Seq<char>>,
                deletion: Result<(), Seq<char>>,
            |
                unit_result(res) == #[trigger] removal_spec(
                    self.env(),
                    user_sub@,
                    users,
                    deletion,
                ),
            !self.env().contains_key(CognitoEnvConfig::CognitoUserPoolId) ==> unit_result(res)
                == Err::<(), CognitoErrorView>(
                CognitoErrorView::MissingConfig { key: CognitoEnvConfig::CognitoUserPoolId },
            ),
    {
        let user_pool_id = match self.env.get(&CognitoEnvConfig::CognitoUserPoolId) {
            Ok(id) => id.clone(),
            Err(error) => {
                assert(unit_result(Err(error)) == removal_spec(
                    self.env(),
                    user_sub@,
                    Ok(Seq::empty()),
                    Ok(()),
                ));
                return Err(error);
            },
        };
        let found = self.get_username_from_attribute(USER_SUB_ATTRIBUTE, user_sub);
        let ghost users = choose|users: Result<Seq<Option<Seq<char>>>, Seq<char>>|
            username_result(found) == #[trigger] lookup_spec(
                self.env(),
                USER_SUB_ATTRIBUTE@,
                user_sub@,
                users,
            );
        let username = match found {
            Ok(username) => username,
            Err(error) => {
                assert(unit_result(Err(error)) == removal_spec(
                    self.env(),
                    user_sub@,
                    users,
                    Ok(()),
                ));
                return Err(error);
            },
        };
        match delete_request(user_pool_id, username) {
            None => {
                assert(unit_result(Ok(())) == removal_spec(self.env(), user_sub@, users, Ok(())));
                Ok(())
            },
            Some(request) => {
                let response = self.client.admin_delete_user_attributes(
                    request.user_pool_id,
                    request.username,
                    request.attributes,
                );
                let res = delete_result(response);
                assert(unit_result(res) == removal_spec(
                    self.env(),
                    user_sub@,
                    users,
                    deleted(response),
                ));
                res
            },
        }
    }
}

} // verus!
