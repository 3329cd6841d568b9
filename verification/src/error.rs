use vstd::prelude::*;

verus! {

#[verifier::external_type_specification]
#[verifier::external_body]
pub struct ExParseIntError(core::num::ParseIntError);

#[verifier::external_type_specification]
#[verifier::external_body]
pub struct ExIoError(std::io::Error);

#[verifier::external_type_specification]
#[verifier::external_body]
pub struct ExYamlError(serde_yaml::Error);

/// Everything that can go wrong while keeping a character sheet.
pub enum AppError {
    /// A rule of the game was broken, with a message for the player.
    Error(String),
    Io(std::io::Error),
    InvalidInt(core::num::ParseIntError),
    Yaml(serde_yaml::Error),
}

/// `r` is the message shown to the player for `e`: a broken rule reads
/// "Encountered error: " and its message; the other errors read as their
/// own `Display` text.
pub open spec fn is_message_of(e: AppError, r: String) -> bool {
    match e {
        AppError::Error(s) => r@ == "Encountered error: "@ + s@,
        AppError::Io(inner) => vstd::string::to_string_from_display_ensures::<std::io::Error>(
            &inner,
            r,
        ),
        AppError::InvalidInt(inner) => vstd::string::to_string_from_display_ensures::<
            core::num::ParseIntError,
        >(&inner, r),
        AppError::Yaml(inner) => vstd::string::to_string_from_display_ensures::<serde_yaml::Error>(
            &inner,
            r,
        ),
    }
}

impl AppError {
    /// The message shown to the player. A broken rule reads
    /// "Encountered error: " and its message; the other errors are shown as
    /// their own text.
    pub fn message(&self) -> (r: String)
        ensures
            is_message_of(*self, r),
    {
        match self {
            AppError::Error(s) => {
                let prefix = String::from_str("Encountered error: ");
                prefix.concat(s.as_str())
            },
            AppError::Io(e) => e.to_string(),
            AppError::InvalidInt(e) => e.to_string(),
            AppError::Yaml(e) => e.to_string(),
        }
    }
}

impl From<String> for AppError {
    fn from(s: String) -> (r: AppError) {
        AppError::Error(s)
    }
}

impl vstd::std_specs::convert::FromSpecImpl<String> for AppError {
    open spec fn obeys_from_spec() -> bool {
        true
    }

    open spec fn from_spec(v: String) -> AppError {
        AppError::Error(v)
    }
}

impl From<std::io::Error> for AppError {
    fn from(e: std::io::Error) -> (r: AppError) {
        AppError::Io(e)
    }
}

impl vstd::std_specs::convert::FromSpecImpl<std::io::Error> for AppError {
    open spec fn obeys_from_spec() -> bool {
        true
    }

    open spec fn from_spec(v: std::io::Error) -> AppError {
        AppError::Io(v)
    }
}

impl From<core::num::ParseIntError> for AppError {
    fn from(e: core::num::ParseIntError) -> (r: AppError) {
        AppError::InvalidInt(e)
    }
}

impl vstd::std_specs::convert::FromSpecImpl<core::num::ParseIntError> for AppError {
    open spec fn obeys_from_spec() -> bool {
        true
    }

    open spec fn from_spec(v: core::num::ParseIntError) -> AppError {
        AppError::InvalidInt(v)
    }
}

impl From<serde_yaml::Error> for AppError {
    fn from(e: serde_yaml::Error) -> (r: AppError) {
        AppError::Yaml(e)
    }
}

impl vstd::std_specs::convert::FromSpecImpl<serde_yaml::Error> for AppError {
    open spec fn obeys_from_spec() -> bool {
        true
    }

    open spec fn from_spec(v: serde_yaml::Error) -> AppError {
        AppError::Yaml(v)
    }
}

} // verus!
