//! The operations as a sequence of steps, for a caller that performs the
//! remote calls itself.
//!
//! [`begin`] gives the first step. A step either names the call to send,
//! together with the state that takes its answer, or is the operation's
//! result. The caller sends what a step names, hands the answer to `resume`,
//! and goes on until a result comes out. All that is decided between two
//! calls is decided here.

use vstd::prelude::*;
use crate::env::{CognitoEnvConfig, EnvVariables};
use crate::errors::{CognitoError, CognitoErrorView};
use crate::lookup::{
    filter_text,
    lookup_request,
    lookup_result,
    lookup_result_spec,
    lookup_spec,
    username_result,
    EMAIL_ATTRIBUTE,
    USER_SUB_ATTRIBUTE,
};
use crate::protocol::{
    deleted,
    listed,
    AdminDeleteUserAttributesOutput,
    AdminDeleteUserAttributesRequest,
    AdminDeleteUserAttributesRequestView,
    ListUsersOutput,
    ListUsersRequest,
    ListUsersRequestView,
    TransportError,
};
use crate::removal::{
    delete_request,
    delete_request_spec,
    delete_result,
    delete_result_spec,
    removal_spec,
    unit_result,
};

verus! {

/// One of the two operations, with its argument.
#[derive(Clone, Debug, PartialEq, Eq)]
pub enum Operation {
    /// Find the username of the user with this email address.
    GetUsernameFromEmail { email: String },
    /// Remove the email attribute of the user with this subject identifier.
    DeleteEmailForUser { user_sub: String },
}

/// The mathematical value of an [`Operation`].
pub ghost enum OperationView {
    GetUsernameFromEmail { email: Seq<char> },
    DeleteEmailForUser { user_sub: Seq<char> },
}

impl View for Operation {
    type V = OperationView;

    open spec fn view(&self) -> OperationView {
        match self {
            Operation::GetUsernameFromEmail { email } => OperationView::GetUsernameFromEmail {
                email: email@,
            },
            Operation::DeleteEmailForUser { user_sub } => OperationView::DeleteEmailForUser {
                user_sub: user_sub@,
            },
        }
    }
}

impl OperationView {
    /// The attribute by which the operation looks its user up.
    pub open spec fn attribute(self) -> Seq<char> {
        match self {
            OperationView::GetUsernameFromEmail { .. } => EMAIL_ATTRIBUTE@,
            OperationView::DeleteEmailForUser { .. } => USER_SUB_ATTRIBUTE@,
        }
    }

    /// The value that the attribute must have.
    pub open spec fn value(self) -> Seq<char> {
        match self {
            OperationView::GetUsernameFromEmail { email } => email,
            OperationView::DeleteEmailForUser { user_sub } => user_sub,
        }
    }

    /// The step that ends the operation with `error`.
    pub open spec fn failed(self, error: CognitoErrorView) -> StepView {
        match self {
            OperationView::GetUsernameFromEmail { .. } => StepView::LookupDone(Err(error)),
            OperationView::DeleteEmailForUser { .. } => StepView::DeleteDone(Err(error)),
        }
    }
}

impl Operation {
    /// Returns the attribute by which the operation looks its user up.
    pub fn attribute(&self) -> (res: &'static str)
        ensures
            res@ == self@.attribute(),
    {
        match self {
            Operation::GetUsernameFromEmail { .. } => EMAIL_ATTRIBUTE,
            Operation::DeleteEmailForUser { .. } => USER_SUB_ATTRIBUTE,
        }
    }

    /// Returns the value that the attribute must have.
    pub fn value(&self) -> (res: &str)
        ensures
            res@ == self@.value(),
    {
        match self {
            Operation::GetUsernameFromEmail { email } => email.as_str(),
            Operation::DeleteEmailForUser { user_sub } => user_sub.as_str(),
        }
    }
}

/// The state of an operation whose "list users" call is out. Only [`begin`]
/// makes one, so the user pool that it holds is a configured one.
#[derive(Debug, PartialEq, Eq)]
pub struct AwaitingUsers {
    operation: Operation,
    user_pool_id: String,
}

/// The mathematical value of an [`AwaitingUsers`].
pub ghost struct AwaitingUsersView {
    pub operation: OperationView,
    pub user_pool_id: Seq<char>,
}

impl View for AwaitingUsers {
    type V = AwaitingUsersView;

    closed spec fn view(&self) -> AwaitingUsersView {
        AwaitingUsersView { operation: self.operation@, user_pool_id: self.user_pool_id@ }
    }
}

/// The state of a removal whose "delete user attributes" call is out. Only
/// the answer to a removal's lookup makes one.
#[derive(Debug, PartialEq, Eq)]
pub struct AwaitingDeletion {
    sent: (),
}

/// What the caller does next.
#[derive(Debug, PartialEq, Eq)]
pub enum Step {
    /// Send this "list users" call and resume `awaiting` with its answer.
    ListUsers { request: ListUsersRequest, awaiting: AwaitingUsers },
    /// Send this "delete user attributes" call and resume `awaiting` with its
    /// answer.
    AdminDeleteUserAttributes {
        request: AdminDeleteUserAttributesRequest,
        awaiting: AwaitingDeletion,
    },
    /// Nothing more to send: the result of a lookup by email.
    LookupDone(Result<Option<String>, CognitoError>),
    /// Nothing more to send: the result of a removal.
    DeleteDone(Result<(), CognitoError>),
}

/// The mathematical value of a [`Step`].
pub ghost enum StepView {
    ListUsers { request: ListUsersRequestView, awaiting: AwaitingUsersView },
    AdminDeleteUserAttributes { request: AdminDeleteUserAttributesRequestView },
    LookupDone(Result<Option<Seq<char>>, CognitoErrorView>),
    DeleteDone(Result<(), CognitoErrorView>),
}

impl View for Step {
    type V = StepView;

    open spec fn view(&self) -> StepView {
        match self {
            Step::ListUsers { request, awaiting } => StepView::ListUsers {
                request: request@,
                awaiting: awaiting@,
            },
            Step::AdminDeleteUserAttributes { request, awaiting } => {
                StepView::AdminDeleteUserAttributes { request: request@ }
            },
            Step::LookupDone(result) => StepView::LookupDone(username_result(*result)),
            Step::DeleteDone(result) => StepView::DeleteDone(unit_result(*result)),
        }
    }
}

impl StepView {
    /// Whether the step is a result, so that nothing more is sent.
    pub open spec fn is_done(self) -> bool {
        self is LookupDone || self is DeleteDone
    }
}

/// The setting that `env` lacks, if it lacks one: the region is asked for
/// first, the user pool's identifier second.
pub open spec fn missing_setting(env: Map<CognitoEnvConfig, Seq<char>>) -> Option<
    CognitoEnvConfig,
> {
    if !env.contains_key(CognitoEnvConfig::CognitoRegion) {
        Some(CognitoEnvConfig::CognitoRegion)
    } else if !env.contains_key(CognitoEnvConfig::CognitoUserPoolId) {
        Some(CognitoEnvConfig::CognitoUserPoolId)
    } else {
        None
    }
}

/// The first step of `operation` under `env`. Where a setting is missing the
/// operation ends at once with the configuration error that names it; else
/// one "list users" call goes out to the configured pool, for the first match
/// of the operation's predicate.
pub open spec fn begin_spec(
    env: Map<CognitoEnvConfig, Seq<char>>,
    operation: OperationView,
) -> StepView {
    match missing_setting(env) {
        Some(key) => operation.failed(CognitoErrorView::MissingConfig { key }),
        None => StepView::ListUsers {
            request: ListUsersRequestView {
                user_pool_id: env[CognitoEnvConfig::CognitoUserPoolId],
                filter: filter_text(operation.attribute(), operation.value()),
                limit: 1,
            },
            awaiting: AwaitingUsersView {
                operation,
                user_pool_id: env[CognitoEnvConfig::CognitoUserPoolId],
            },
        },
    }
}

/// What `operation` comes to under `env`, where `users` answers its "list
/// users" call and `deletion` its "delete user attributes" call, as far as
/// they are sent: the configuration error for a missing region, else what
/// the lookup or the removal is said to return.
pub open spec fn outcome_spec(
    env: Map<CognitoEnvConfig, Seq<char>>,
    operation: OperationView,
    users: Result<Seq<Option<Seq<char>>>, Seq<char>>,
    deletion: Result<(), Seq<char>>,
) -> StepView {
    if !env.contains_key(CognitoEnvConfig::CognitoRegion) {
        operation.failed(CognitoErrorView::MissingConfig { key: CognitoEnvConfig::CognitoRegion })
    } else {
        match operation {
            OperationView::GetUsernameFromEmail { email } => StepView::LookupDone(
                lookup_spec(env, EMAIL_ATTRIBUTE@, email, users),
            ),
            OperationView::DeleteEmailForUser { user_sub } => StepView::DeleteDone(
                removal_spec(env, user_sub, users, deletion),
            ),
        }
    }
}

/// The step that follows the answer to the "list users" call. A lookup by
/// email ends with what the answer means. A removal ends where the lookup
/// failed or found no user, and else sends the deletion for the user found.
pub open spec fn after_users_spec(
    awaiting: AwaitingUsersView,
    response: Result<Seq<Option<Seq<char>>>, Seq<char>>,
) -> StepView {
    let found = lookup_result_spec(
        response,
        awaiting.operation.attribute(),
        awaiting.operation.value(),
    );
    match awaiting.operation {
        OperationView::GetUsernameFromEmail { .. } => StepView::LookupDone(found),
        OperationView::DeleteEmailForUser { .. } => match found {
            Err(error) => StepView::DeleteDone(Err(error)),
            Ok(username) => match delete_request_spec(awaiting.user_pool_id, username) {
                None => StepView::DeleteDone(Ok(())),
                Some(request) => StepView::AdminDeleteUserAttributes { request },
            },
        },
    }
}

/// The step that follows the answer to the deletion: the removal's result.
pub open spec fn after_deletion_spec(response: Result<(), Seq<char>>) -> StepView {
    StepView::DeleteDone(delete_result_spec(response))
}

/// The last step of `operation` under `env`, where `users` answers its "list
/// users" call and `deletion` its "delete user attributes" call, as far as
/// they are sent.
pub open spec fn run_spec(
    env: Map<CognitoEnvConfig, Seq<char>>,
    operation: OperationView,
    users: Result<Seq<Option<Seq<char>>>, Seq<char>>,
    deletion: Result<(), Seq<char>>,
) -> StepView {
    match begin_spec(env, operation) {
        StepView::ListUsers { request, awaiting } => match after_users_spec(awaiting, users) {
            StepView::AdminDeleteUserAttributes { request } => after_deletion_spec(deletion),
            step => step,
        },
        step => step,
    }
}

/// Run to its end, an operation comes to what it is said to return.
pub proof fn run_gives_the_outcome(
    env: Map<CognitoEnvConfig, Seq<char>>,
    operation: OperationView,
    users: Result<Seq<Option<Seq<char>>>, Seq<char>>,
    deletion: Result<(), Seq<char>>,
)
    ensures
        run_spec(env, operation, users, deletion) == outcome_spec(env, operation, users, deletion),
{
}

/// An operation sends at most two calls, one after the other. The answer
/// to a "list users" call never leads to another one; it ends a lookup by
/// email, and ends a removal or leads to its one deletion. The answer to the
/// deletion ends the removal.
pub proof fn run_ends_within_two_calls(
    env: Map<CognitoEnvConfig, Seq<char>>,
    operation: OperationView,
    awaiting: AwaitingUsersView,
    users: Result<Seq<Option<Seq<char>>>, Seq<char>>,
    deletion: Result<(), Seq<char>>,
)
    ensures
        run_spec(env, operation, users, deletion).is_done(),
        !(after_users_spec(awaiting, users) is ListUsers),
        awaiting.operation is GetUsernameFromEmail ==> after_users_spec(awaiting, users).is_done(),
        after_deletion_spec(deletion).is_done(),
{
}

/// Where the region or the user pool's identifier is missing, an operation
/// ends at its first step with the configuration error that names the
/// missing key: no call is sent.
pub proof fn missing_setting_sends_nothing(
    env: Map<CognitoEnvConfig, Seq<char>>,
    operation: OperationView,
    key: CognitoEnvConfig,
)
    requires
        missing_setting(env) == Some(key),
    ensures
        begin_spec(env, operation).is_done(),
        begin_spec(env, operation) == operation.failed(CognitoErrorView::MissingConfig { key }),
        !env.contains_key(key),
        env.contains_key(CognitoEnvConfig::CognitoRegion) ==> key
            == CognitoEnvConfig::CognitoUserPoolId,
{
}

/// With both settings resolved, the first step of an operation sends one
/// "list users" call to the configured pool: its predicate is the
/// operation's attribute and value written as `attribute = "value"`, its
/// limit is 1.
pub proof fn first_call_asks_for_the_predicate(
    env: Map<CognitoEnvConfig, Seq<char>>,
    operation: OperationView,
)
    requires
        env.contains_key(CognitoEnvConfig::CognitoRegion),
        env.contains_key(CognitoEnvConfig::CognitoUserPoolId),
    ensures
        begin_spec(env, operation) matches StepView::ListUsers { request, awaiting }
            && request == (ListUsersRequestView {
            user_pool_id: env[CognitoEnvConfig::CognitoUserPoolId],
            filter: filter_text(operation.attribute(), operation.value()),
            limit: 1,
        }) && awaiting.operation == operation && awaiting.user_pool_id
            == env[CognitoEnvConfig::CognitoUserPoolId],
{
}

/// A removal whose lookup is answered with no record ends there, with
/// success: no deletion is sent.
pub proof fn no_user_ends_the_removal(
    user_pool_id: Seq<char>,
    user_sub: Seq<char>,
    usernames: Seq<Option<Seq<char>>>,
)
    requires
        usernames.len() == 0,
    ensures
        after_users_spec(
            AwaitingUsersView {
                operation: OperationView::DeleteEmailForUser { user_sub },
                user_pool_id,
            },
            Ok(usernames),
        ) == StepView::DeleteDone(Ok(())),
{
}

/// A removal whose lookup finds a user sends exactly one deletion: for that
/// user, in the pool of the lookup, naming the one attribute "email". Its
/// answer ends the removal: with success where the call succeeded, else with
/// the callout error that carries the failure's description.
pub proof fn found_user_gets_one_deletion(
    user_pool_id: Seq<char>,
    user_sub: Seq<char>,
    usernames: Seq<Option<Seq<char>>>,
    username: Seq<char>,
    deletion: Result<(), Seq<char>>,
)
    requires
        usernames.len() > 0,
        usernames.last() == Some(username),
    ensures
        after_users_spec(
            AwaitingUsersView {
                operation: OperationView::DeleteEmailForUser { user_sub },
                user_pool_id,
            },
            Ok(usernames),
        ) == (StepView::AdminDeleteUserAttributes {
            request: AdminDeleteUserAttributesRequestView {
                user_pool_id,
                username,
                attributes: seq![EMAIL_ATTRIBUTE@],
            },
        }),
        after_deletion_spec(deletion).is_done(),
        deletion is Ok ==> after_deletion_spec(deletion) == StepView::DeleteDone(Ok(())),
        deletion matches Err(description) ==> after_deletion_spec(deletion)
            == StepView::DeleteDone(Err(CognitoErrorView::Callout { debug: description })),
{
}

/// Starts `operation` under `env`.
pub fn begin(env: &EnvVariables, operation: Operation) -> (res: Step)
    ensures
        res@ == begin_spec(env@, operation@),
{
    let planned = match env.get(&CognitoEnvConfig::CognitoRegion) {
        Err(error) => Err(error),
        Ok(_) => lookup_request(env, operation.attribute(), operation.value()),
    };
    match planned {
        Ok(request) => {
            proof {
                env.values_are_not_empty();
            }
            let user_pool_id = request.user_pool_id.clone();
            Step::ListUsers { request, awaiting: AwaitingUsers { operation, user_pool_id } }
        },
        Err(error) => match operation {
            Operation::GetUsernameFromEmail { .. } => Step::LookupDone(Err(error)),
            Operation::DeleteEmailForUser { .. } => Step::DeleteDone(Err(error)),
        },
    }
}

impl AwaitingUsers {
    #[verifier::type_invariant]
    closed spec fn pool_is_configured(&self) -> bool {
        self.user_pool_id@.len() > 0
    }

    /// Takes the answer to the "list users" call and gives the next step. A
    /// deletion, where one follows, goes to the pool of the lookup, whose
    /// identifier is not empty.
    pub fn resume(self, response: Result<ListUsersOutput, TransportError>) -> (res: Step)
        ensures
            res@ == after_users_spec(self@, listed(response)),
            res matches Step::AdminDeleteUserAttributes { request, .. }
                ==> request.user_pool_id@.len() > 0,
    {
        proof {
            use_type_invariant(&self);
        }
        let found = lookup_result(response, self.operation.attribute(), self.operation.value());
        match self.operation {
            Operation::GetUsernameFromEmail { .. } => Step::LookupDone(found),
            Operation::DeleteEmailForUser { .. } => match found {
                Err(error) => Step::DeleteDone(Err(error)),
                Ok(username) => match delete_request(self.user_pool_id, username) {
                    None => Step::DeleteDone(Ok(())),
                    Some(request) => Step::AdminDeleteUserAttributes {
                        request,
                        awaiting: AwaitingDeletion { sent: () },
                    },
                },
            },
        }
    }
}

impl AwaitingDeletion {
    /// Takes the answer to the deletion and gives the removal's result.
    pub fn resume(
        self,
        response: Result<AdminDeleteUserAttributesOutput, TransportError>,
    ) -> (res: Step)
        ensures
            res@ == after_deletion_spec(deleted(response)),
    {
        Step::DeleteDone(delete_result(response))
    }
}

} // verus!
