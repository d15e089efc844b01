//! Removing the email attribute of a user that a lookup has found: what is
//! asked of the directory, and what its answer means.

use vstd::prelude::*;
use crate::env::{text_of, CognitoEnvConfig};
use crate::errors::{CognitoError, CognitoErrorView};
use crate::lookup::{lookup_spec, EMAIL_ATTRIBUTE, USER_SUB_ATTRIBUTE};
use crate::protocol::{
    deleted,
    AdminDeleteUserAttributesOutput,
    AdminDeleteUserAttributesRequest,
    AdminDeleteUserAttributesRequestView,
    TransportError,
};

verus! {

/// What a removal asks of the directory once the lookup is read: nothing
/// where no user was found, else the deletion of the one attribute "email"
/// of the user found.
pub open spec fn delete_request_spec(
    user_pool_id: Seq<char>,
    found: Option<Seq<char>>,
) -> Option<AdminDeleteUserAttributesRequestView> {
    match found {
        None => None,
        Some(username) => Some(
            AdminDeleteUserAttributesRequestView {
                user_pool_id,
                username,
                attributes: seq![EMAIL_ATTRIBUTE@],
            },
        ),
    }
}

/// What the answer to a deletion means: an acknowledgement is success, a
/// failed call a callout error that carries the failure's description.
pub open spec fn delete_result_spec(response: Result<(), Seq<char>>) -> Result<
    (),
    CognitoErrorView,
> {
    match response {
        Ok(_) => Ok(()),
        Err(description) => Err(CognitoErrorView::Callout { debug: description }),
    }
}

/// What a removal returns, given what its remote calls give. The user is
/// looked up by subject identifier; a failed lookup fails the removal, no
/// user found is success with nothing deleted, and else the answer to the
/// deletion decides. `deletion` is read only where a deletion is sent.
pub open spec fn removal_spec(
    env: Map<CognitoEnvConfig, Seq<char>>,
    user_sub: Seq<char>,
    users: Result<Seq<Option<Seq<char>>>, Seq<char>>,
    deletion: Result<(), Seq<char>>,
) -> Result<(), CognitoErrorView> {
    match lookup_spec(env, USER_SUB_ATTRIBUTE@, user_sub, users) {
        Err(error) => Err(error),
        Ok(found) => match delete_request_spec(env[CognitoEnvConfig::CognitoUserPoolId], found) {
            None => Ok(()),
            Some(_) => delete_result_spec(deletion),
        },
    }
}

/// The value of a planned "delete user attributes" call.
pub open spec fn planned_deletion(
    request: Option<AdminDeleteUserAttributesRequest>,
) -> Option<AdminDeleteUserAttributesRequestView> {
    match request {
        Some(request) => Some(request@),
        None => None,
    }
}

/// The value of a removal's result.
pub open spec fn unit_result(result: Result<(), CognitoError>) -> Result<(), CognitoErrorView> {
    match result {
        Ok(_) => Ok(()),
        Err(error) => Err(error@),
    }
}

/// With the user pool configured, a removal whose lookup is answered with
/// no record succeeds and plans no deletion, whatever a deletion would have
/// been answered.
pub proof fn removal_of_no_user_succeeds(
    env: Map<CognitoEnvConfig, Seq<char>>,
    user_sub: Seq<char>,
    usernames: Seq<Option<Seq<char>>>,
    deletion: Result<(), Seq<char>>,
)
    requires
        env.contains_key(CognitoEnvConfig::CognitoUserPoolId),
        usernames.len() == 0,
    ensures
        removal_spec(env, user_sub, Ok(usernames), deletion) == Ok::<(), CognitoErrorView>(()),
        delete_request_spec(env[CognitoEnvConfig::CognitoUserPoolId], None) is None,
{
}

/// With the user pool configured, a removal whose lookup finds a user plans
/// the deletion of the one attribute "email" for that user in that pool, and
/// returns what the answer to the deletion means.
pub proof fn removal_of_found_user_follows_the_deletion(
    env: Map<CognitoEnvConfig, Seq<char>>,
    user_sub: Seq<char>,
    usernames: Seq<Option<Seq<char>>>,
    username: Seq<char>,
    deletion: Result<(), Seq<char>>,
)
    requires
        env.contains_key(CognitoEnvConfig::CognitoUserPoolId),
        usernames.len() > 0,
        usernames.last() == Some(username),
    ensures
        delete_request_spec(env[CognitoEnvConfig::CognitoUserPoolId], Some(username)) == Some(
            AdminDeleteUserAttributesRequestView {
                user_pool_id: env[CognitoEnvConfig::CognitoUserPoolId],
                username,
                attributes: seq![EMAIL_ATTRIBUTE@],
            },
        ),
        removal_spec(env, user_sub, Ok(usernames), deletion) == delete_result_spec(deletion),
{
}

/// A removal fails exactly where its lookup fails, or its lookup finds a
/// user and the deletion fails: a user that is not found is never an error.
pub proof fn removal_fails_only_with_a_call(
    env: Map<CognitoEnvConfig, Seq<char>>,
    user_sub: Seq<char>,
    users: Result<Seq<Option<Seq<char>>>, Seq<char>>,
    deletion: Result<(), Seq<char>>,
)
    ensures
        removal_spec(env, user_sub, users, deletion) is Err <==> (lookup_spec(
            env,
            USER_SUB_ATTRIBUTE@,
            user_sub,
            users,
        ) is Err || (lookup_spec(env, USER_SUB_ATTRIBUTE@, user_sub, users) matches Ok(Some(_))
            && deletion is Err)),
{
}

/// Plans the remote call that follows a lookup, if one follows.
pub fn delete_request(user_pool_id: String, found: Option<String>) -> (res: Option<
    AdminDeleteUserAttributesRequest,
>)
    ensures
        planned_deletion(res) == delete_request_spec(user_pool_id@, text_of(found)),
{
    match found {
        None => None,
        Some(username) => {
            let mut attributes: Vec<String> = Vec::new();
            attributes.push(EMAIL_ATTRIBUTE.to_owned());
            let request = AdminDeleteUserAttributesRequest { user_pool_id, username, attributes };
            assert(request@.attributes =~= seq![EMAIL_ATTRIBUTE@]);
            Some(request)
        },
    }
}

/// Reads the answer to a deletion.
pub fn delete_result(response: Result<AdminDeleteUserAttributesOutput, TransportError>) -> (res:
    Result<(), CognitoError>)
    ensures
        unit_result(res) == delete_result_spec(deleted(response)),
{
    match response {
        Ok(_) => Ok(()),
        Err(error) => Err(CognitoError::Callout { debug: error.description }),
    }
}

} // verus!
