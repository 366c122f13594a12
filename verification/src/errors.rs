use vstd::prelude::*;

verus! {

/// The application-wide error taxonomy.  Every failing request is reported
/// through one of these variants, each carrying a human-readable message.
#[derive(Clone, Debug)]
pub enum AppError {
    /// The database reported a failure the service cannot recover from.
    DBError(String),
    /// The requested row does not exist.
    NotFound(String),
    /// The request body could not be accepted as valid input.
    InvalidInput(String),
}

impl AppError {
    /// The HTTP status code that a response for this error carries:
    /// 500 for a database failure, 404 for a missing row, 400 for bad input.
    pub open spec fn spec_status_code(&self) -> u16 {
        match self {
            AppError::DBError(_) => 500,
            AppError::NotFound(_) => 404,
            AppError::InvalidInput(_) => 400,
        }
    }

    /// The message the variant carries, used as the JSON error body.
    pub open spec fn spec_message(&self) -> Seq<char> {
        match self {
            AppError::DBError(m) => m@,
            AppError::NotFound(m) => m@,
            AppError::InvalidInput(m) => m@,
        }
    }

    pub fn status_code(&self) -> (code: u16)
        ensures
            code == self.spec_status_code(),
    {
        match self {
            AppError::DBError(_) => 500,
            AppError::NotFound(_) => 404,
            AppError::InvalidInput(_) => 400,
        }
    }

    pub fn error_message(&self) -> (msg: String)
        ensures
            msg@ == self.spec_message(),
    {
        match self {
            AppError::DBError(m) => m.clone(),
            AppError::NotFound(m) => m.clone(),
            AppError::InvalidInput(m) => m.clone(),
        }
    }
}

} // verus!
