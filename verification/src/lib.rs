//! Technical-analysis building blocks for trading strategies: pattern
//! classification tables, indicator collections keyed by their parameters,
//! parameter records and the signal model shared by strategies.

use vstd::prelude::*;

pub mod indicator;
pub mod model;
pub mod text;

verus! {

/// Failure while loading a configuration.
#[derive(Debug)]
pub enum ConfigError {
    /// The configuration file could not be read.
    FileError(String),
    /// The configuration could not be parsed.
    ParseError(String),
    /// The configuration holds an invalid value.
    ValidationError(String),
}

impl ConfigError {
    /// Human-readable description: a prefix naming the kind of failure,
    /// followed by the detail it carries.
    pub open spec fn spec_message(&self) -> Seq<char> {
        match self {
            ConfigError::FileError(msg) => "설정 파일 오류: "@ + msg@,
            ConfigError::ParseError(msg) => "설정 파싱 오류: "@ + msg@,
            ConfigError::ValidationError(msg) => "설정 유효성 검사 오류: "@ + msg@,
        }
    }

    /// Human-readable description (see `spec_message`).
    pub fn to_string(&self) -> (s: String)
        ensures
            s@ == self.spec_message(),
    {
        match self {
            ConfigError::FileError(msg) => {
                let mut s = String::from_str("설정 파일 오류: ");
                s.append(msg.as_str());
                s
            },
            ConfigError::ParseError(msg) => {
                let mut s = String::from_str("설정 파싱 오류: ");
                s.append(msg.as_str());
                s
            },
            ConfigError::ValidationError(msg) => {
                let mut s = String::from_str("설정 유효성 검사 오류: ");
                s.append(msg.as_str());
                s
            },
        }
    }
}

impl From<ConfigError> for String {
    /// The description of the error (see `ConfigError::spec_message`).
    fn from(err: ConfigError) -> (s: String)
        ensures
            s@ == err.spec_message(),
    {
        err.to_string()
    }
}

impl vstd::std_specs::convert::FromSpecImpl<ConfigError> for String {
    /// Strings are told apart by their text only, which is what `from`
    /// promises; no single `String` value is named here.
    open spec fn obeys_from_spec() -> bool {
        false
    }

    open spec fn from_spec(v: ConfigError) -> String {
        choose|s: String| s@ == v.spec_message()
    }
}

/// Result of loading a configuration.
pub type ConfigResult<T> = Result<T, ConfigError>;

/// Checks that a loaded configuration is usable.
pub trait ConfigValidation {
    /// `Ok(())` when the configuration is usable, otherwise the reason.
    fn validate(&self) -> ConfigResult<()>;
}

} // verus!
