use vstd::prelude::*;

verus! {

/// The error taxonomy of the whole pipeline.
///
/// Every failure of a leaf component propagates unchanged in kind up to
/// the caller; nothing in the core retries or swallows an error. What a
/// driver or transport raised reaches the library as its rendered
/// message text.
#[derive(Debug)]
pub enum AppError {
    /// Connectivity or driver-level database failure.
    Database(String),
    /// A statement failed against a reachable database.
    SqlExecution(String),
    /// Transport failure while reaching the language model.
    HttpClient(String),
    /// Malformed JSON on either side of the model exchange.
    Serialization(String),
    /// A required configuration setting is missing.
    Env(String),
    /// The model was reachable but returned no usable answer, or an
    /// explicit non-success status.
    AIModel(String),
    /// Catch-all.
    Generic(String),
}

impl AppError {
    /// The user-visible message: a fixed prefix naming the kind,
    /// followed by the carried detail text.
    pub open spec fn message_spec(self) -> Seq<char> {
        match self {
            AppError::Database(m) => "Database error: "@ + m@,
            AppError::SqlExecution(m) => "SQL execution error: "@ + m@,
            AppError::HttpClient(m) => "HTTP client error: "@ + m@,
            AppError::Serialization(m) => "JSON serialization error: "@ + m@,
            AppError::Env(m) => "Environment variable error: "@ + m@,
            AppError::AIModel(m) => "AI model error: "@ + m@,
            AppError::Generic(m) => "Generic error: "@ + m@,
        }
    }

    /// Renders the error as the session prints it.
    pub fn message(&self) -> (r: String)
        ensures
            r@ == self.message_spec(),
    {
        match self {
            AppError::Database(m) => "Database error: ".to_owned().concat(m.as_str()),
            AppError::SqlExecution(m) => "SQL execution error: ".to_owned().concat(m.as_str()),
            AppError::HttpClient(m) => "HTTP client error: ".to_owned().concat(m.as_str()),
            AppError::Serialization(m) => "JSON serialization error: ".to_owned().concat(
                m.as_str(),
            ),
            AppError::Env(m) => "Environment variable error: ".to_owned().concat(m.as_str()),
            AppError::AIModel(m) => "AI model error: ".to_owned().concat(m.as_str()),
            AppError::Generic(m) => "Generic error: ".to_owned().concat(m.as_str()),
        }
    }
}

} // verus!
