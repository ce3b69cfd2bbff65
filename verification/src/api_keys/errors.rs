//! Failures of the API-key subsystem.

use crate::errors::AppErrorKind;
use vstd::prelude::*;

verus! {

/// What can go wrong while issuing, storing or checking an API key.
#[derive(Debug, Clone)]
pub enum ApiKeyError {
    /// The secret could not be hashed.
    Encryption(String),
    /// The key generator was not configured completely.
    Configuration(String),
    /// The secure random source failed.
    Generation(String),
    /// No record is stored under the id.
    NotFound,
    /// The stored digest has not the shape of a digest.
    BadEncryption(String),
    /// The stored digest could not be read by the hasher.
    HashVerification(String),
    /// The secret does not match the stored digest.
    Invalid,
    /// The text is not an encoded API key.
    Malformed,
    /// A record is already stored under the id.
    DuplicateId,
    /// The store failed.
    DatabaseError(String),
}

impl ApiKeyError {
    /// The category under which the failure is reported.
    pub open spec fn spec_kind(self) -> AppErrorKind {
        match self {
            ApiKeyError::Encryption(_) => AppErrorKind::Application,
            ApiKeyError::Configuration(_) => AppErrorKind::Application,
            ApiKeyError::Generation(_) => AppErrorKind::Application,
            ApiKeyError::NotFound => AppErrorKind::NotFound,
            ApiKeyError::BadEncryption(_) => AppErrorKind::Infrastructure,
            ApiKeyError::HashVerification(_) => AppErrorKind::Application,
            ApiKeyError::Invalid => AppErrorKind::Application,
            ApiKeyError::Malformed => AppErrorKind::InvalidData,
            ApiKeyError::DuplicateId => AppErrorKind::Duplicate,
            ApiKeyError::DatabaseError(_) => AppErrorKind::Infrastructure,
        }
    }

    /// The category under which the failure is reported.
    pub fn kind(&self) -> (kind: AppErrorKind)
        ensures
            kind == self.spec_kind(),
    {
        match self {
            ApiKeyError::Encryption(_) => AppErrorKind::Application,
            ApiKeyError::Configuration(_) => AppErrorKind::Application,
            ApiKeyError::Generation(_) => AppErrorKind::Application,
            ApiKeyError::NotFound => AppErrorKind::NotFound,
            ApiKeyError::BadEncryption(_) => AppErrorKind::Infrastructure,
            ApiKeyError::HashVerification(_) => AppErrorKind::Application,
            ApiKeyError::Invalid => AppErrorKind::Application,
            ApiKeyError::Malformed => AppErrorKind::InvalidData,
            ApiKeyError::DuplicateId => AppErrorKind::Duplicate,
            ApiKeyError::DatabaseError(_) => AppErrorKind::Infrastructure,
        }
    }

    /// The text shown for the failure.
    pub open spec fn message(self) -> Seq<char> {
        match self {
            ApiKeyError::Encryption(detail) => "Error al encriptar ApiKey: "@ + detail@,
            ApiKeyError::Configuration(detail) => "Error al configurar ApiKey: "@ + detail@,
            ApiKeyError::Generation(detail) => "Error al generar ApiKey: "@ + detail@,
            ApiKeyError::NotFound => "ApiKey no encontrado"@,
            ApiKeyError::BadEncryption(detail) => "La ApiKey no fue correctamente encriptada: "@
                + detail@,
            ApiKeyError::HashVerification(detail) => "Error al verificar hash de la ApiKey: "@
                + detail@,
            ApiKeyError::Invalid => "ApiKey no válida"@,
            ApiKeyError::Malformed => "ApiKey mal formada"@,
            ApiKeyError::DuplicateId => "Ya existe una ApiKey con ese id"@,
            ApiKeyError::DatabaseError(detail) => "Error al interactuar con la base de datos: "@
                + detail@,
        }
    }

    /// The text shown for the failure.
    pub fn to_string(&self) -> (text: String)
        ensures
            text@ == self.message(),
    {
        match self {
            ApiKeyError::Encryption(detail) => String::from_str("Error al encriptar ApiKey: ").concat(
                detail.as_str(),
            ),
            ApiKeyError::Configuration(detail) => String::from_str(
                "Error al configurar ApiKey: ",
            ).concat(detail.as_str()),
            ApiKeyError::Generation(detail) => String::from_str("Error al generar ApiKey: ").concat(
                detail.as_str(),
            ),
            ApiKeyError::NotFound => String::from_str("ApiKey no encontrado"),
            ApiKeyError::BadEncryption(detail) => String::from_str(
                "La ApiKey no fue correctamente encriptada: ",
            ).concat(detail.as_str()),
            ApiKeyError::HashVerification(detail) => String::from_str(
                "Error al verificar hash de la ApiKey: ",
            ).concat(detail.as_str()),
            ApiKeyError::Invalid => String::from_str("ApiKey no válida"),
            ApiKeyError::Malformed => String::from_str("ApiKey mal formada"),
            ApiKeyError::DuplicateId => String::from_str("Ya existe una ApiKey con ese id"),
            ApiKeyError::DatabaseError(detail) => String::from_str(
                "Error al interactuar con la base de datos: ",
            ).concat(detail.as_str()),
        }
    }
}

} // verus!
