use cognito_util::env::{CognitoEnvConfig, EnvVariables};
use cognito_util::errors::CognitoError;
use cognito_util::flow::{begin, AwaitingDeletion, AwaitingUsers, Operation, Step};
use cognito_util::protocol::{
    AdminDeleteUserAttributesOutput, AdminDeleteUserAttributesRequest, ListUsersOutput,
    ListUsersRequest, TransportError, UserType,
};

fn pool_env() -> EnvVariables {
    EnvVariables::new(
        Some("us-east-1".to_string()),
        Some("us-east-1_123456789".to_string()),
    )
}

fn lookup_by_email() -> Operation {
    Operation::GetUsernameFromEmail {
        email: "abc@example.com".to_string(),
    }
}

fn removal() -> Operation {
    Operation::DeleteEmailForUser {
        user_sub: "sub-123".to_string(),
    }
}

fn answer(names: Vec<Option<&str>>) -> Result<ListUsersOutput, TransportError> {
    Ok(ListUsersOutput {
        users: Some(
            names
                .into_iter()
                .map(|name| UserType {
                    username: name.map(|text| text.to_string()),
                })
                .collect(),
        ),
    })
}

fn list_call(step: Step) -> (ListUsersRequest, AwaitingUsers) {
    match step {
        Step::ListUsers { request, awaiting } => (request, awaiting),
        other => panic!("no list call in {:?}", other),
    }
}

fn deletion(step: Step) -> (AdminDeleteUserAttributesRequest, AwaitingDeletion) {
    match step {
        Step::AdminDeleteUserAttributes { request, awaiting } => (request, awaiting),
        other => panic!("no deletion in {:?}", other),
    }
}

#[test]
fn operation_attributes_and_values() {
    assert_eq!(lookup_by_email().attribute(), "email");
    assert_eq!(lookup_by_email().value(), "abc@example.com");
    assert_eq!(removal().attribute(), "sub");
    assert_eq!(removal().value(), "sub-123");
}

#[test]
fn lookup_begins_with_the_list_call() {
    let (request, _) = list_call(begin(&pool_env(), lookup_by_email()));
    assert_eq!(
        request,
        ListUsersRequest {
            user_pool_id: "us-east-1_123456789".to_string(),
            filter: "email = \"abc@example.com\"".to_string(),
            limit: 1,
        }
    );
}

#[test]
fn removal_begins_with_the_list_call() {
    let (request, _) = list_call(begin(&pool_env(), removal()));
    assert_eq!(
        request,
        ListUsersRequest {
            user_pool_id: "us-east-1_123456789".to_string(),
            filter: "sub = \"sub-123\"".to_string(),
            limit: 1,
        }
    );
}

#[test]
fn missing_pool_ends_both_operations_at_once() {
    let env = EnvVariables::new(Some("us-east-1".to_string()), None);
    let error = CognitoError::MissingConfig {
        key: CognitoEnvConfig::CognitoUserPoolId,
    };
    assert_eq!(
        begin(&env, lookup_by_email()),
        Step::LookupDone(Err(error.clone()))
    );
    assert_eq!(begin(&env, removal()), Step::DeleteDone(Err(error)));
}

#[test]
fn missing_region_ends_both_operations_at_once() {
    let env = EnvVariables::new(None, Some("us-east-1_123456789".to_string()));
    let error = CognitoError::MissingConfig {
        key: CognitoEnvConfig::CognitoRegion,
    };
    assert_eq!(
        begin(&env, lookup_by_email()),
        Step::LookupDone(Err(error.clone()))
    );
    assert_eq!(begin(&env, removal()), Step::DeleteDone(Err(error)));
}

#[test]
fn region_is_named_first_when_both_are_missing() {
    let env = EnvVariables::new(None, Some(String::new()));
    assert_eq!(
        begin(&env, removal()),
        Step::DeleteDone(Err(CognitoError::MissingConfig {
            key: CognitoEnvConfig::CognitoRegion
        }))
    );
}

#[test]
fn lookup_ends_with_the_username() {
    let (_, awaiting) = list_call(begin(&pool_env(), lookup_by_email()));
    assert_eq!(
        awaiting.resume(answer(vec![Some("username")])),
        Step::LookupDone(Ok(Some("username".to_string())))
    );
}

#[test]
fn lookup_ends_with_none() {
    let (_, awaiting) = list_call(begin(&pool_env(), lookup_by_email()));
    assert_eq!(awaiting.resume(answer(vec![])), Step::LookupDone(Ok(None)));
    let (_, awaiting) = list_call(begin(&pool_env(), lookup_by_email()));
    assert_eq!(
        awaiting.resume(Ok(ListUsersOutput { users: None })),
        Step::LookupDone(Ok(None))
    );
}

#[test]
fn lookup_ends_with_critical_error() {
    let (_, awaiting) = list_call(begin(&pool_env(), lookup_by_email()));
    assert_eq!(
        awaiting.resume(answer(vec![None])),
        Step::LookupDone(Err(CognitoError::Critical {
            message:
                "User found but username is missing (attribute: 'email', value: 'abc@example.com')."
                    .to_string()
        }))
    );
}

#[test]
fn lookup_ends_with_callout_error() {
    let (_, awaiting) = list_call(begin(&pool_env(), lookup_by_email()));
    assert_eq!(
        awaiting.resume(Err(TransportError {
            description: "TimeoutError".to_string()
        })),
        Step::LookupDone(Err(CognitoError::Callout {
            debug: "TimeoutError".to_string()
        }))
    );
}

#[test]
fn removal_ends_without_deletion_when_no_user_matches() {
    let (_, awaiting) = list_call(begin(&pool_env(), removal()));
    assert_eq!(awaiting.resume(answer(vec![])), Step::DeleteDone(Ok(())));
}

#[test]
fn removal_sends_one_deletion_for_alice() {
    let (_, awaiting) = list_call(begin(&pool_env(), removal()));
    let (request, awaiting) = deletion(awaiting.resume(answer(vec![Some("alice")])));
    assert_eq!(
        request,
        AdminDeleteUserAttributesRequest {
            user_pool_id: "us-east-1_123456789".to_string(),
            username: "alice".to_string(),
            attributes: vec!["email".to_string()],
        }
    );
    assert_eq!(
        awaiting.resume(Ok(AdminDeleteUserAttributesOutput {})),
        Step::DeleteDone(Ok(()))
    );
}

#[test]
fn removal_ends_with_lookup_errors() {
    let (_, awaiting) = list_call(begin(&pool_env(), removal()));
    assert_eq!(
        awaiting.resume(answer(vec![None])),
        Step::DeleteDone(Err(CognitoError::Critical {
            message: "User found but username is missing (attribute: 'sub', value: 'sub-123')."
                .to_string()
        }))
    );
    let (_, awaiting) = list_call(begin(&pool_env(), removal()));
    assert_eq!(
        awaiting.resume(Err(TransportError {
            description: "TimeoutError".to_string()
        })),
        Step::DeleteDone(Err(CognitoError::Callout {
            debug: "TimeoutError".to_string()
        }))
    );
}

#[test]
fn failed_deletion_ends_the_removal_with_callout_error() {
    let (_, awaiting) = list_call(begin(&pool_env(), removal()));
    let (_, awaiting) = deletion(awaiting.resume(answer(vec![Some("alice")])));
    assert_eq!(
        awaiting.resume(Err(TransportError {
            description: "UserNotFoundException".to_string()
        })),
        Step::DeleteDone(Err(CognitoError::Callout {
            debug: "UserNotFoundException".to_string()
        }))
    );
}
