use cognito_util::env::{CognitoEnvConfig, EnvVariables};
use cognito_util::errors::CognitoError;
use cognito_util::lookup::{
    build_filter, lookup_request, lookup_result, missing_username_message, EMAIL_ATTRIBUTE,
    USER_SUB_ATTRIBUTE,
};
use cognito_util::protocol::{
    AdminDeleteUserAttributesOutput, AdminDeleteUserAttributesRequest, ListUsersOutput,
    ListUsersRequest, TransportError, UserType,
};
use cognito_util::removal::{delete_request, delete_result};

fn record(name: Option<&str>) -> UserType {
    UserType {
        username: name.map(|text| text.to_string()),
    }
}

#[test]
fn attribute_names() {
    assert_eq!(EMAIL_ATTRIBUTE, "email");
    assert_eq!(USER_SUB_ATTRIBUTE, "sub");
}

#[test]
fn filter_for_email() {
    assert_eq!(
        build_filter("email", "abc@example.com"),
        "email = \"abc@example.com\""
    );
}

#[test]
fn filter_for_empty_parts() {
    assert_eq!(build_filter("", ""), " = \"\"");
    assert_eq!(build_filter("sub", ""), "sub = \"\"");
}

#[test]
fn filter_keeps_quotes_and_spaces() {
    assert_eq!(build_filter("given name", " x\"y "), "given name = \" x\"y \"");
}

#[test]
fn filter_keeps_non_ascii_text() {
    assert_eq!(build_filter("email", "jos\u{e9}@example.com"), "email = \"jos\u{e9}@example.com\"");
}

#[test]
fn missing_username_message_text() {
    assert_eq!(
        missing_username_message("email", "abc@example.com"),
        "User found but username is missing (attribute: 'email', value: 'abc@example.com')."
    );
}

#[test]
fn lookup_request_for_configured_pool() {
    let env = EnvVariables::new(None, Some("us-east-1_123456789".to_string()));
    assert_eq!(
        lookup_request(&env, "email", "abc@example.com"),
        Ok(ListUsersRequest {
            user_pool_id: "us-east-1_123456789".to_string(),
            filter: "email = \"abc@example.com\"".to_string(),
            limit: 1,
        })
    );
}

#[test]
fn lookup_request_without_pool() {
    let env = EnvVariables::new(Some("us-east-1".to_string()), None);
    assert_eq!(
        lookup_request(&env, "email", "abc@example.com"),
        Err(CognitoError::MissingConfig {
            key: CognitoEnvConfig::CognitoUserPoolId
        })
    );
}

#[test]
fn lookup_result_of_one_named_record() {
    let response = Ok(ListUsersOutput {
        users: Some(vec![record(Some("username"))]),
    });
    assert_eq!(
        lookup_result(response, "email", "abc@example.com"),
        Ok(Some("username".to_string()))
    );
}

#[test]
fn lookup_result_of_no_record() {
    assert_eq!(
        lookup_result(Ok(ListUsersOutput { users: Some(vec![]) }), "email", "x"),
        Ok(None)
    );
    assert_eq!(
        lookup_result(Ok(ListUsersOutput { users: None }), "email", "x"),
        Ok(None)
    );
}

#[test]
fn lookup_result_of_nameless_record() {
    let response = Ok(ListUsersOutput {
        users: Some(vec![record(Some("named")), record(None)]),
    });
    assert_eq!(
        lookup_result(response, "sub", "s-1"),
        Err(CognitoError::Critical {
            message: "User found but username is missing (attribute: 'sub', value: 's-1')."
                .to_string()
        })
    );
}

#[test]
fn lookup_result_of_failed_call() {
    let response = Err(TransportError {
        description: "TimeoutError".to_string(),
    });
    assert_eq!(
        lookup_result(response, "email", "x"),
        Err(CognitoError::Callout {
            debug: "TimeoutError".to_string()
        })
    );
}

#[test]
fn delete_request_for_found_user() {
    assert_eq!(
        delete_request("pool-1".to_string(), Some("alice".to_string())),
        Some(AdminDeleteUserAttributesRequest {
            user_pool_id: "pool-1".to_string(),
            username: "alice".to_string(),
            attributes: vec!["email".to_string()],
        })
    );
}

#[test]
fn delete_request_for_no_user() {
    assert_eq!(delete_request("pool-1".to_string(), None), None);
}

#[test]
fn delete_result_of_both_answers() {
    assert_eq!(delete_result(Ok(AdminDeleteUserAttributesOutput {})), Ok(()));
    assert_eq!(
        delete_result(Err(TransportError {
            description: "NotAuthorizedException".to_string()
        })),
        Err(CognitoError::Callout {
            debug: "NotAuthorizedException".to_string()
        })
    );
}
