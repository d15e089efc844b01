//! Finding a username by one attribute: what is asked of the directory, and
//! what its answer means.

use vstd::prelude::*;
use vstd::string::*;
use crate::env::{CognitoEnvConfig, EnvVariables};
use crate::errors::{CognitoError, CognitoErrorView};
use crate::protocol::{
    listed,
    ListUsersOutput,
    ListUsersRequest,
    ListUsersRequestView,
    TransportError,
};

verus! {

/// The attribute that holds a user's email address.
pub const EMAIL_ATTRIBUTE: &'static str = "email";

/// The attribute that holds a user's subject identifier.
pub const USER_SUB_ATTRIBUTE: &'static str = "sub";

/// The predicate `attribute = "value"`, character for character: nothing in
/// `attribute` or `value` is escaped or trimmed.
pub open spec fn filter_text(attribute: Seq<char>, value: Seq<char>) -> Seq<char> {
    attribute + " = \""@ + value + "\""@
}

/// The message of the error for a record that was found without a username.
pub open spec fn missing_username_text(attribute: Seq<char>, value: Seq<char>) -> Seq<char> {
    "User found but username is missing (attribute: '"@ + attribute + "', value: '"@ + value
        + "')."@
}

/// What a lookup asks of the directory: the first match of the predicate in
/// the configured user pool, or the configuration error where the pool's
/// identifier is unresolved.
pub open spec fn lookup_request_spec(
    env: Map<CognitoEnvConfig, Seq<char>>,
    attribute: Seq<char>,
    value: Seq<char>,
) -> Result<ListUsersRequestView, CognitoErrorView> {
    if env.contains_key(CognitoEnvConfig::CognitoUserPoolId) {
        Ok(
            ListUsersRequestView {
                user_pool_id: env[CognitoEnvConfig::CognitoUserPoolId],
                filter: filter_text(attribute, value),
                limit: 1,
            },
        )
    } else {
        Err(CognitoErrorView::MissingConfig { key: CognitoEnvConfig::CognitoUserPoolId })
    }
}

/// What the answer to a lookup means. A failed call is a callout error that
/// carries the failure's description. An answer without records is no user.
/// Otherwise the last record decides: its username is the result, and a
/// record without one is a critical error.
pub open spec fn lookup_result_spec(
    response: Result<Seq<Option<Seq<char>>>, Seq<char>>,
    attribute: Seq<char>,
    value: Seq<char>,
) -> Result<Option<Seq<char>>, CognitoErrorView> {
    match response {
        Err(description) => Err(CognitoErrorView::Callout { debug: description }),
        Ok(usernames) => if usernames.len() == 0 {
            Ok(None)
        } else {
            match usernames.last() {
                Some(username) => Ok(Some(username)),
                None => Err(
                    CognitoErrorView::Critical {
                        message: missing_username_text(attribute, value),
                    },
                ),
            }
        },
    }
}

/// What a lookup returns, given what its remote call gives: the configuration
/// error where nothing can be sent, else what the answer means.
pub open spec fn lookup_spec(
    env: Map<CognitoEnvConfig, Seq<char>>,
    attribute: Seq<char>,
    value: Seq<char>,
    response: Result<Seq<Option<Seq<char>>>, Seq<char>>,
) -> Result<Option<Seq<char>>, CognitoErrorView> {
    match lookup_request_spec(env, attribute, value) {
        Err(error) => Err(error),
        Ok(_) => lookup_result_spec(response, attribute, value),
    }
}

/// The value of a lookup's result.
pub open spec fn username_result(result: Result<Option<String>, CognitoError>) -> Result<
    Option<Seq<char>>,
    CognitoErrorView,
> {
    match result {
        Ok(Some(username)) => Ok(Some(username@)),
        Ok(None) => Ok(None),
        Err(error) => Err(error@),
    }
}

/// The value of a planned "list users" call.
pub open spec fn request_result(result: Result<ListUsersRequest, CognitoError>) -> Result<
    ListUsersRequestView,
    CognitoErrorView,
> {
    match result {
        Ok(request) => Ok(request@),
        Err(error) => Err(error@),
    }
}

/// The predicate is the attribute, the four characters ` = "`, the value as
/// it was given, and a closing quote: five characters more than its two
/// parts, whatever they hold.
pub proof fn filter_text_keeps_its_parts(attribute: Seq<char>, value: Seq<char>)
    ensures
        filter_text(attribute, value).len() == attribute.len() + value.len() + 5,
        filter_text(attribute, value).subrange(0, attribute.len() as int) == attribute,
        filter_text(attribute, value).subrange(
            attribute.len() as int,
            attribute.len() as int + 4,
        ) == seq![' ', '=', ' ', '"'],
        filter_text(attribute, value).subrange(
            attribute.len() as int + 4,
            attribute.len() as int + 4 + value.len() as int,
        ) == value,
        filter_text(attribute, value).last() == '"',
{
    reveal_strlit(" = \"");
    reveal_strlit("\"");
    let text = filter_text(attribute, value);
    let n = attribute.len() as int;
    let m = value.len() as int;
    assert(" = \""@ =~= seq![' ', '=', ' ', '"']);
    assert(text.subrange(0, n) =~= attribute);
    assert(text.subrange(n, n + 4) =~= seq![' ', '=', ' ', '"']);
    assert(text.subrange(n + 4, n + 4 + m) =~= value);
}

/// Two predicates are the same text only where they were written from the
/// same value, the attribute being the same.
pub proof fn filter_text_tells_values_apart(
    attribute: Seq<char>,
    first: Seq<char>,
    second: Seq<char>,
)
    requires
        filter_text(attribute, first) == filter_text(attribute, second),
    ensures
        first == second,
{
    filter_text_keeps_its_parts(attribute, first);
    filter_text_keeps_its_parts(attribute, second);
}

/// With the user pool configured, a lookup whose call gives exactly one
/// record, and that record with a username, returns that username.
pub proof fn one_named_record_is_found(
    env: Map<CognitoEnvConfig, Seq<char>>,
    attribute: Seq<char>,
    value: Seq<char>,
    username: Seq<char>,
)
    requires
        env.contains_key(CognitoEnvConfig::CognitoUserPoolId),
    ensures
        lookup_spec(env, attribute, value, Ok(seq![Some(username)])) == Ok::<
            Option<Seq<char>>,
            CognitoErrorView,
        >(Some(username)),
{
    assert(seq![Some(username)].last() == Some(username));
}

/// With the user pool configured, a lookup whose call gives no record
/// returns no user, and that is no error.
pub proof fn no_record_is_no_user(
    env: Map<CognitoEnvConfig, Seq<char>>,
    attribute: Seq<char>,
    value: Seq<char>,
    usernames: Seq<Option<Seq<char>>>,
)
    requires
        env.contains_key(CognitoEnvConfig::CognitoUserPoolId),
        usernames.len() == 0,
    ensures
        lookup_spec(env, attribute, value, Ok(usernames)) == Ok::<
            Option<Seq<char>>,
            CognitoErrorView,
        >(None),
{
}

/// With the user pool configured, a lookup whose call gives records, the
/// last of them without a username, fails with the critical error that names
/// the attribute and the value; it never passes for "no user".
pub proof fn nameless_record_is_critical(
    env: Map<CognitoEnvConfig, Seq<char>>,
    attribute: Seq<char>,
    value: Seq<char>,
    usernames: Seq<Option<Seq<char>>>,
)
    requires
        env.contains_key(CognitoEnvConfig::CognitoUserPoolId),
        usernames.len() > 0,
        usernames.last() is None,
    ensures
        lookup_spec(env, attribute, value, Ok(usernames)) == Err::<
            Option<Seq<char>>,
            CognitoErrorView,
        >(CognitoErrorView::Critical { message: missing_username_text(attribute, value) }),
{
}

/// Without the user pool's identifier a lookup fails with the configuration
/// error that names that key, whatever the directory would have answered.
pub proof fn missing_pool_fails_lookup(
    env: Map<CognitoEnvConfig, Seq<char>>,
    attribute: Seq<char>,
    value: Seq<char>,
    response: Result<Seq<Option<Seq<char>>>, Seq<char>>,
)
    requires
        !env.contains_key(CognitoEnvConfig::CognitoUserPoolId),
    ensures
        lookup_spec(env, attribute, value, response) == Err::<Option<Seq<char>>, CognitoErrorView>(
            CognitoErrorView::MissingConfig { key: CognitoEnvConfig::CognitoUserPoolId },
        ),
        lookup_request_spec(env, attribute, value) is Err,
{
}

/// A failed call is reported as a callout error that carries the failure's
/// description unchanged, with the user pool configured.
pub proof fn failed_call_is_callout_error(
    env: Map<CognitoEnvConfig, Seq<char>>,
    attribute: Seq<char>,
    value: Seq<char>,
    description: Seq<char>,
)
    requires
        env.contains_key(CognitoEnvConfig::CognitoUserPoolId),
    ensures
        lookup_spec(env, attribute, value, Err(description)) == Err::<
            Option<Seq<char>>,
            CognitoErrorView,
        >(CognitoErrorView::Callout { debug: description }),
{
}

/// Writes the predicate `attribute = "value"`.
pub fn build_filter(attribute: &str, value: &str) -> (res: String)
    ensures
        res@ == filter_text(attribute@, value@),
{
    let mut text = attribute.to_owned();
    text.append(" = \"");
    text.append(value);
    text.append("\"");
    text
}

/// Writes the message of the error for a record without a username.
pub fn missing_username_message(attribute: &str, value: &str) -> (res: String)
    ensures
        res@ == missing_username_text(attribute@, value@),
{
    let mut text = "User found but username is missing (attribute: '".to_owned();
    text.append(attribute);
    text.append("', value: '");
    text.append(value);
    text.append("').");
    text
}

/// Plans the one remote call of a lookup. The user pool's identifier is read
/// first, so that a missing one fails the lookup before anything is sent.
pub fn lookup_request(env: &EnvVariables, attribute: &str, value: &str) -> (res: Result<
    ListUsersRequest,
    CognitoError,
>)
    ensures
        request_result(res) == lookup_request_spec(env@, attribute@, value@),
{
    let user_pool_id = match env.get(&CognitoEnvConfig::CognitoUserPoolId) {
        Ok(id) => id.clone(),
        Err(error) => {
            return Err(error);
        },
    };
    Ok(ListUsersRequest { user_pool_id, filter: build_filter(attribute, value), limit: 1 })
}

/// Reads the answer to a lookup's remote call.
pub fn lookup_result(
    response: Result<ListUsersOutput, TransportError>,
    attribute: &str,
    value: &str,
) -> (res: Result<Option<String>, CognitoError>)
    ensures
        username_result(res) == lookup_result_spec(listed(response), attribute@, value@),
{
    let output = match response {
        Ok(output) => output,
        Err(error) => {
            return Err(CognitoError::Callout { debug: error.description });
        },
    };
    let mut users = match output.users {
        Some(users) => users,
        None => Vec::new(),
    };
    match users.pop() {
        None => Ok(None),
        Some(user) => match user.username {
            Some(username) => Ok(Some(username)),
            None => Err(
                CognitoError::Critical { message: missing_username_message(attribute, value) },
            ),
        },
    }
}

} // verus!
