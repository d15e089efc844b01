[package]
name = "cognito_util"
version = "0.1.0"
edition = "2021"
publish = false

[dependencies]
async-trait = "0.1"
aws-config = "1"
aws-sdk-cognitoidentityprovider = "1"
