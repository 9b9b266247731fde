//! The single failure kind of the data-access layer.

use vstd::prelude::*;
use vstd::string::StringExecFns;

verus! {

/// A failure of a repository operation: a short category label and a detail
/// text. There is no finer distinction; callers treat every failure alike.
#[derive(Debug, Clone, PartialEq, Eq)]
pub enum ServiceError {
    InternalServerError(&'static str, String),
}

/// What a repository operation hands back.
pub type ServiceResult<T> = Result<T, ServiceError>;

impl ServiceError {
    /// The category label.
    pub open spec fn label(self) -> Seq<char> {
        match self {
            ServiceError::InternalServerError(label, _) => label@,
        }
    }

    /// The detail text.
    pub open spec fn detail(self) -> Seq<char> {
        match self {
            ServiceError::InternalServerError(_, detail) => detail@,
        }
    }

    /// What the caller is shown: the label in quotes after a fixed heading,
    /// then the detail on a line of its own.
    pub open spec fn rendered(self) -> Seq<char> {
        "Internal Server Error: '"@ + self.label() + "'\n"@ + self.detail()
    }

    /// A failure that the storage engine reported, with its own words.
    pub fn storage(detail: String) -> (result: ServiceError)
        ensures
            result.label() == "Sqlx error"@,
            result.detail() == detail@,
    {
        ServiceError::InternalServerError("Sqlx error", detail)
    }

    /// A value read from the store that this layer cannot work with.
    pub fn conversion(detail: &str) -> (result: ServiceError)
        ensures
            result.label() == "Conversion error"@,
            result.detail() == detail@,
    {
        ServiceError::InternalServerError("Conversion error", String::from_str(detail))
    }

    /// An answer of the store that does not fit the request in progress.
    pub fn protocol(detail: &str) -> (result: ServiceError)
        ensures
            result.label() == "Protocol error"@,
            result.detail() == detail@,
    {
        ServiceError::InternalServerError("Protocol error", String::from_str(detail))
    }

    /// The category label.
    pub fn category(&self) -> (result: &'static str)
        ensures
            result@ == self.label(),
    {
        match self {
            ServiceError::InternalServerError(label, _) => label,
        }
    }

    /// The text shown to the caller.
    pub fn message(&self) -> (result: String)
        ensures
            result@ == self.rendered(),
    {
        match self {
            ServiceError::InternalServerError(label, detail) => {
                String::from_str("Internal Server Error: '").concat(label).concat("'\n").concat(
                    detail.as_str(),
                )
            },
        }
    }
}

} // verus!
