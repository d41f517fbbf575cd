use vstd::prelude::*;
use crate::config::{EnvironmentConfig, EnvironmentView};

verus! {

/// A required part of an environment description is missing.
#[derive(Debug, Clone, Copy, PartialEq, Eq, Structural)]
pub enum ValidationError {
    MissingOsType,
    MissingOsVersion,
    MissingLanguages,
}

/// The outcome of validation: the checks run in order and the first that
/// fails decides the error.
pub open spec fn validation_result(c: EnvironmentView) -> Result<(), ValidationError> {
    if c.os_type.len() == 0 {
        Err(ValidationError::MissingOsType)
    } else if c.os_version.len() == 0 {
        Err(ValidationError::MissingOsVersion)
    } else if c.languages.len() == 0 {
        Err(ValidationError::MissingLanguages)
    } else {
        Ok(())
    }
}

impl ValidationError {
    /// The name of the missing field.
    pub fn field_name(&self) -> (r: &'static str)
        ensures
            r@ == self.field_spec(),
    {
        match self {
            ValidationError::MissingOsType => "os_type",
            ValidationError::MissingOsVersion => "os_version",
            ValidationError::MissingLanguages => "languages",
        }
    }

    pub open spec fn field_spec(&self) -> Seq<char> {
        match self {
            ValidationError::MissingOsType => "os_type"@,
            ValidationError::MissingOsVersion => "os_version"@,
            ValidationError::MissingLanguages => "languages"@,
        }
    }

    /// A message for the client that names what is missing.
    pub fn message(&self) -> (r: String)
        ensures
            r@ == self.message_spec(),
    {
        match self {
            ValidationError::MissingOsType => String::from_str("OS type is required"),
            ValidationError::MissingOsVersion => String::from_str("OS version is required"),
            ValidationError::MissingLanguages => String::from_str(
                "At least one language is required",
            ),
        }
    }

    pub open spec fn message_spec(&self) -> Seq<char> {
        match self {
            ValidationError::MissingOsType => "OS type is required"@,
            ValidationError::MissingOsVersion => "OS version is required"@,
            ValidationError::MissingLanguages => "At least one language is required"@,
        }
    }
}

/// Rejects a description that lacks the operating system's family or
/// version, or that asks for no language.
pub fn validate(config: &EnvironmentConfig) -> (r: Result<(), ValidationError>)
    ensures
        r == validation_result(config@),
{
    if config.os.os_type.as_str().is_empty() {
        Err(ValidationError::MissingOsType)
    } else if config.os.version.as_str().is_empty() {
        Err(ValidationError::MissingOsVersion)
    } else if config.languages.len() == 0 {
        Err(ValidationError::MissingLanguages)
    } else {
        Ok(())
    }
}

} // verus!
