//! Failures of the service as a whole, and the categories under which they
//! are reported.

use crate::api_keys::errors::ApiKeyError;
use crate::books::errors::BookError;
use vstd::prelude::*;

verus! {

/// Coarse category of a failure, as the HTTP boundary reports it.
#[derive(Copy, Clone, Debug, PartialEq, Eq, Structural)]
pub enum AppErrorKind {
    /// Authentication is needed to perform the action.
    Auhtentication,
    /// The resource does not exist.
    NotFound,
    /// The resource already exists.
    Duplicate,
    /// The data given is not valid.
    InvalidData,
    /// Failure in the infrastructure layer.
    Infrastructure,
    /// Failure in the application layer.
    Application,
    /// Unknown failure.
    Unknown,
}

impl AppErrorKind {
    /// The HTTP status that answers a failure of this category.
    pub open spec fn spec_status_code(self) -> u16 {
        match self {
            AppErrorKind::Auhtentication => 401,
            AppErrorKind::NotFound => 404,
            AppErrorKind::Duplicate => 409,
            AppErrorKind::InvalidData => 400,
            AppErrorKind::Infrastructure | AppErrorKind::Application | AppErrorKind::Unknown => 503,
        }
    }

    /// The HTTP status that answers a failure of this category.
    #[verifier::when_used_as_spec(spec_status_code)]
    pub fn status_code(self) -> (code: u16)
        ensures
            code == self.spec_status_code(),
    {
        match self {
            AppErrorKind::Auhtentication => 401,
            AppErrorKind::NotFound => 404,
            AppErrorKind::Duplicate => 409,
            AppErrorKind::InvalidData => 400,
            AppErrorKind::Infrastructure | AppErrorKind::Application | AppErrorKind::Unknown => 503,
        }
    }
}

/// Any failure of the service.
#[derive(Debug, Clone)]
pub enum AppError {
    /// A failure that is described by its text alone.
    Custom(String),
    /// A failure of the API-key subsystem.
    ApiKey(ApiKeyError),
    /// A failure of the book catalogue.
    Book(BookError),
    /// The configuration could not be loaded.
    ConfigLoad(String),
    /// A variable of the environment is missing or cannot be read.
    EnvVarLoad(String),
}

impl AppError {
    /// The category under which the failure is reported. A failure of a
    /// subsystem keeps the category that the subsystem gave it.
    pub open spec fn spec_kind(self) -> AppErrorKind {
        match self {
            AppError::Custom(_) => AppErrorKind::Unknown,
            AppError::ApiKey(e) => e.spec_kind(),
            AppError::Book(e) => e.spec_kind(),
            AppError::ConfigLoad(_) => AppErrorKind::Infrastructure,
            AppError::EnvVarLoad(_) => AppErrorKind::Infrastructure,
        }
    }

    /// The category under which the failure is reported.
    pub fn kind(&self) -> (kind: AppErrorKind)
        ensures
            kind == self.spec_kind(),
    {
        match self {
            AppError::Custom(_) => AppErrorKind::Unknown,
            AppError::ApiKey(e) => e.kind(),
            AppError::Book(e) => e.kind(),
            AppError::ConfigLoad(_) => AppErrorKind::Infrastructure,
            AppError::EnvVarLoad(_) => AppErrorKind::Infrastructure,
        }
    }

    /// The HTTP status that answers the failure.
    pub fn status_code(&self) -> (code: u16)
        ensures
            code == self.spec_kind().spec_status_code(),
    {
        self.kind().status_code()
    }

    /// The text shown for the failure.
    pub open spec fn message(self) -> Seq<char> {
        match self {
            AppError::Custom(detail) => "Error: "@ + detail@,
            AppError::ApiKey(e) => "Error con ApiKey: "@ + e.message(),
            AppError::Book(e) => "Error al manejar libro: "@ + e.message(),
            AppError::ConfigLoad(detail) => "Error al cargar configuración: "@ + detail@,
            AppError::EnvVarLoad(detail) => "Error al cargar variable de entorno: "@ + detail@,
        }
    }

    /// The text shown for the failure.
    pub fn to_string(&self) -> (text: String)
        ensures
            text@ == self.message(),
    {
        match self {
            AppError::Custom(detail) => String::from_str("Error: ").concat(detail.as_str()),
            AppError::ApiKey(e) => String::from_str("Error con ApiKey: ").concat(
                e.to_string().as_str(),
            ),
            AppError::Book(e) => String::from_str("Error al manejar libro: ").concat(
                e.to_string().as_str(),
            ),
            AppError::ConfigLoad(detail) => String::from_str(
                "Error al cargar configuración: ",
            ).concat(detail.as_str()),
            AppError::EnvVarLoad(detail) => String::from_str(
                "Error al cargar variable de entorno: ",
            ).concat(detail.as_str()),
        }
    }
}

impl From<ApiKeyError> for AppError {
    fn from(value: ApiKeyError) -> (e: AppError) {
        AppError::ApiKey(value)
    }
}

impl vstd::std_specs::convert::FromSpecImpl<ApiKeyError> for AppError {
    open spec fn obeys_from_spec() -> bool {
        true
    }

    open spec fn from_spec(value: ApiKeyError) -> AppError {
        AppError::ApiKey(value)
    }
}

impl From<BookError> for AppError {
    fn from(value: BookError) -> (e: AppError) {
        AppError::Book(value)
    }
}

impl vstd::std_specs::convert::FromSpecImpl<BookError> for AppError {
    open spec fn obeys_from_spec() -> bool {
        true
    }

    open spec fn from_spec(value: BookError) -> AppError {
        AppError::Book(value)
    }
}

} // verus!
