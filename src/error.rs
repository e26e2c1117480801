use vstd::prelude::*;

verus! {

/// `std::io::Error` is carried through the library opaquely.
#[verifier::external_type_specification]
#[verifier::external_body]
pub struct ExIoError(std::io::Error);

/// Result type of the library's fallible operations.
pub type Result<T> = std::result::Result<T, SmartsError>;

/// The closed set of failures that the library reports.
#[derive(Debug)]
pub enum SmartsError {
    /// Model loading or initialization failed.
    ModelError(String),
    /// Model inference failed.
    InferenceError(String),
    /// The conversation's structure is invalid.
    ConversationError(String),
    /// An underlying I/O operation failed.
    IoError(std::io::Error),
    /// A setup argument is invalid.
    ConfigError(String),
}

/// The fixed text that introduces the description of each kind of error.
pub open spec fn error_prefix(e: SmartsError) -> Seq<char> {
    match e {
        SmartsError::ModelError(_) => "Model error: "@,
        SmartsError::InferenceError(_) => "Inference error: "@,
        SmartsError::ConversationError(_) => "Conversation error: "@,
        SmartsError::IoError(_) => "I/O error: "@,
        SmartsError::ConfigError(_) => "Configuration error: "@,
    }
}

/// `e` is a conversation error carrying the message `m`.
pub open spec fn is_conversation_error(e: SmartsError, m: Seq<char>) -> bool {
    match e {
        SmartsError::ConversationError(s) => s@ == m,
        _ => false,
    }
}

/// `e` is a configuration error carrying the message `m`.
pub open spec fn is_config_error(e: SmartsError, m: Seq<char>) -> bool {
    match e {
        SmartsError::ConfigError(s) => s@ == m,
        _ => false,
    }
}

impl SmartsError {
    /// Human-readable description: the kind of error, then its message.
    pub fn to_string(&self) -> (r: String)
        ensures
            match self {
                SmartsError::ModelError(m) => r@ == error_prefix(*self) + m@,
                SmartsError::InferenceError(m) => r@ == error_prefix(*self) + m@,
                SmartsError::ConversationError(m) => r@ == error_prefix(*self) + m@,
                SmartsError::ConfigError(m) => r@ == error_prefix(*self) + m@,
                SmartsError::IoError(_) => {
                    &&& error_prefix(*self).len() <= r@.len()
                    &&& r@.subrange(0, error_prefix(*self).len() as int) == error_prefix(*self)
                },
            },
    {
        let (mut r, detail) = match self {
            SmartsError::ModelError(m) => (String::from_str("Model error: "), m.clone()),
            SmartsError::InferenceError(m) => (String::from_str("Inference error: "), m.clone()),
            SmartsError::ConversationError(m) => (String::from_str("Conversation error: "), m.clone()),
            SmartsError::IoError(err) => (String::from_str("I/O error: "), err.to_string()),
            SmartsError::ConfigError(m) => (String::from_str("Configuration error: "), m.clone()),
        };
        let ghost head = r@;
        r.append(detail.as_str());
        proof {
            assert(r@.subrange(0, head.len() as int) =~= head);
        }
        r
    }

    /// The underlying cause: the wrapped I/O error, and nothing for the other kinds.
    pub fn source(&self) -> (r: Option<&std::io::Error>)
        ensures
            match self {
                SmartsError::IoError(err) => r == Some(err),
                _ => r is None,
            },
    {
        match self {
            SmartsError::IoError(err) => Some(err),
            _ => None,
        }
    }
}

impl From<std::io::Error> for SmartsError {
    fn from(err: std::io::Error) -> (r: SmartsError)
        ensures
            r == SmartsError::IoError(err),
    {
        SmartsError::IoError(err)
    }
}

impl vstd::std_specs::convert::FromSpecImpl<std::io::Error> for SmartsError {
    open spec fn obeys_from_spec() -> bool {
        true
    }

    open spec fn from_spec(err: std::io::Error) -> SmartsError {
        SmartsError::IoError(err)
    }
}

} // verus!
