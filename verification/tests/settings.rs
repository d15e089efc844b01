use cognito_util::env::{CognitoEnvConfig, EnvVariables};
use cognito_util::errors::CognitoError;

#[test]
fn key_names_are_the_environment_names() {
    assert_eq!(CognitoEnvConfig::CognitoRegion.name(), "COGNITO_REGION");
    assert_eq!(
        CognitoEnvConfig::CognitoUserPoolId.name(),
        "COGNITO_USER_POOL_ID"
    );
}

#[test]
fn get_returns_the_values_given() {
    let env = EnvVariables::new(
        Some("us-east-1".to_string()),
        Some("us-east-1_123456789".to_string()),
    );
    assert_eq!(
        env.get(&CognitoEnvConfig::CognitoRegion),
        Ok(&"us-east-1".to_string())
    );
    assert_eq!(
        env.get(&CognitoEnvConfig::CognitoUserPoolId),
        Ok(&"us-east-1_123456789".to_string())
    );
}

#[test]
fn get_names_the_missing_key() {
    let env = EnvVariables::new(None, None);
    assert_eq!(
        env.get(&CognitoEnvConfig::CognitoRegion),
        Err(CognitoError::MissingConfig {
            key: CognitoEnvConfig::CognitoRegion
        })
    );
    let error = env.get(&CognitoEnvConfig::CognitoUserPoolId).unwrap_err();
    assert_eq!(
        error,
        CognitoError::MissingConfig {
            key: CognitoEnvConfig::CognitoUserPoolId
        }
    );
    assert_eq!(
        error.message(),
        "Missing configuration value: COGNITO_USER_POOL_ID"
    );
}

#[test]
fn empty_setting_counts_as_missing() {
    let env = EnvVariables::new(Some(String::new()), Some("pool".to_string()));
    assert_eq!(
        env.get(&CognitoEnvConfig::CognitoRegion),
        Err(CognitoError::MissingConfig {
            key: CognitoEnvConfig::CognitoRegion
        })
    );
    assert_eq!(
        env.get(&CognitoEnvConfig::CognitoUserPoolId),
        Ok(&"pool".to_string())
    );
}

#[test]
fn clone_keeps_the_values() {
    let env = EnvVariables::new(Some("eu-west-1".to_string()), None);
    let copy = env.clone();
    assert_eq!(
        copy.get(&CognitoEnvConfig::CognitoRegion),
        Ok(&"eu-west-1".to_string())
    );
    assert!(copy.get(&CognitoEnvConfig::CognitoUserPoolId).is_err());
}

#[test]
fn messages_of_the_three_errors() {
    assert_eq!(
        CognitoError::MissingConfig {
            key: CognitoEnvConfig::CognitoRegion
        }
        .message(),
        "Missing configuration value: COGNITO_REGION"
    );
    assert_eq!(
        CognitoError::Callout {
            debug: "timeout".to_string()
        }
        .message(),
        "Cognito error."
    );
    assert_eq!(
        CognitoError::Critical {
            message: "broken record".to_string()
        }
        .message(),
        "broken record"
    );
}
