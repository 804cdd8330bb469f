//! The three ways in which a run can fail.

use vstd::prelude::*;

verus! {

/// `std::io::Error`: why the configuration file could not be read. Opaque
/// here, and only carried through.
#[verifier::external_type_specification]
#[verifier::external_body]
pub struct ExIoError(std::io::Error);

/// `toml::de::Error`: the deserializer's diagnostic. Opaque here, and only
/// carried through.
#[verifier::external_type_specification]
#[verifier::external_body]
pub struct ExTomlError(toml::de::Error);

/// `korea_investment_api::Error`: a failure of the brokerage client. Opaque
/// here, and only carried through.
#[verifier::external_type_specification]
#[verifier::external_body]
pub struct ExApiError(korea_investment_api::Error);

/// Every failure is fatal; each variant carries the underlying diagnostic
/// untouched.
#[derive(Debug)]
pub enum RunError {
    /// The configuration file could not be read.
    IoError(std::io::Error),
    /// The configuration text is not TOML of the expected shape.
    TomlDeserializeError(toml::de::Error),
    /// The brokerage client refused or failed an operation.
    ApiError(korea_investment_api::Error),
}

/// What a contract can say of a [`RunError`]: its kind, and the diagnostic
/// where the caller supplied it. The deserializer's diagnostic is produced
/// inside the library and is left unspecified.
pub enum ErrorView {
    IoError(std::io::Error),
    TomlDeserializeError,
    ApiError(korea_investment_api::Error),
}

impl View for RunError {
    type V = ErrorView;

    open spec fn view(&self) -> ErrorView {
        match *self {
            RunError::IoError(e) => ErrorView::IoError(e),
            RunError::TomlDeserializeError(_) => ErrorView::TomlDeserializeError,
            RunError::ApiError(e) => ErrorView::ApiError(e),
        }
    }
}

} // verus!
