use vstd::prelude::*;
use vstd::utf8::encode_utf8;
use crate::error::ApiError;

verus! {

/// Shortest password accepted for the first account, in UTF-8 bytes.
pub const MIN_PASSWORD_LEN: usize = 8;

/// Configured credentials too weak to start with: the process must refuse
/// to start.
#[derive(Debug, Clone, Copy, PartialEq, Eq, Structural)]
pub enum ConfigError {
    EmptyUsername,
    ShortPassword,
}

/// Why the configured credentials are refused, if they are.
pub open spec fn config_check(username: Seq<char>, password: Seq<char>) -> Result<(), ConfigError> {
    if encode_utf8(username).len() < 1 {
        Err(ConfigError::EmptyUsername)
    } else if encode_utf8(password).len() < MIN_PASSWORD_LEN {
        Err(ConfigError::ShortPassword)
    } else {
        Ok(())
    }
}

/// Checks the configured username and password: a non-empty username and a
/// password of at least `MIN_PASSWORD_LEN` bytes in UTF-8.
pub fn validate_config(username: &str, password: &str) -> (r: Result<(), ConfigError>)
    ensures
        r == config_check(username@, password@),
{
    if username.as_bytes().len() < 1 {
        Err(ConfigError::EmptyUsername)
    } else if password.as_bytes().len() < MIN_PASSWORD_LEN {
        Err(ConfigError::ShortPassword)
    } else {
        Ok(())
    }
}

/// Bootstrap creates an account only when the store holds none.
pub fn needs_default_user(account_count: u64) -> (r: bool)
    ensures
        r == (account_count == 0),
{
    account_count == 0
}

/// What the store answered to the insertion of an account.
#[derive(Debug, Clone, Copy, PartialEq, Eq, Structural)]
pub enum UserInsert {
    Inserted,
    /// The username is taken already.
    Conflict,
    Failed,
}

/// How bootstrap settles after the store's answer to its insertion.
pub open spec fn insert_settles(outcome: UserInsert) -> Result<(), ApiError> {
    match outcome {
        UserInsert::Inserted => Ok(()),
        UserInsert::Conflict => Ok(()),
        UserInsert::Failed => Err(ApiError::Internal),
    }
}

/// Bootstrap's outcome after its insertion: a taken username means that a
/// concurrent bootstrap created the account, which is success.
pub fn bootstrap_insert_result(outcome: UserInsert) -> (r: Result<(), ApiError>)
    ensures
        r == insert_settles(outcome),
{
    match outcome {
        UserInsert::Inserted => Ok(()),
        UserInsert::Conflict => Ok(()),
        UserInsert::Failed => Err(ApiError::Internal),
    }
}

} // verus!
