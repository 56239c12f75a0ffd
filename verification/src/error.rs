use vstd::prelude::*;

verus! {

/// Why a transaction was refused.
#[derive(Debug, Clone, PartialEq, Eq)]
pub enum ServiceError {
    InvalidMethod(String),
    InvalidEncryption(String),
    InvalidDataFormatForMethodType(String),
    RecordFound(String),
    NoProgramId,
    InvalidOwner(String),
    NoEncryptionType,
    NotSupportedEncryptionType(String),
    InvalidSignature(String),
}

/// The abstract value of a [`ServiceError`].
pub enum ErrorView {
    InvalidMethod(Seq<char>),
    InvalidEncryption(Seq<char>),
    InvalidDataFormatForMethodType(Seq<char>),
    RecordFound(Seq<char>),
    NoProgramId,
    InvalidOwner(Seq<char>),
    NoEncryptionType,
    NotSupportedEncryptionType(Seq<char>),
    InvalidSignature(Seq<char>),
}

impl View for ServiceError {
    type V = ErrorView;

    open spec fn view(&self) -> ErrorView {
        match self {
            ServiceError::InvalidMethod(s) => ErrorView::InvalidMethod(s@),
            ServiceError::InvalidEncryption(s) => ErrorView::InvalidEncryption(s@),
            ServiceError::InvalidDataFormatForMethodType(s) => ErrorView::InvalidDataFormatForMethodType(
                s@,
            ),
            ServiceError::RecordFound(s) => ErrorView::RecordFound(s@),
            ServiceError::NoProgramId => ErrorView::NoProgramId,
            ServiceError::InvalidOwner(s) => ErrorView::InvalidOwner(s@),
            ServiceError::NoEncryptionType => ErrorView::NoEncryptionType,
            ServiceError::NotSupportedEncryptionType(s) => ErrorView::NotSupportedEncryptionType(s@),
            ServiceError::InvalidSignature(s) => ErrorView::InvalidSignature(s@),
        }
    }
}

/// The text of an error, as it is written into a receipt.
pub open spec fn error_text(e: ErrorView) -> Seq<char> {
    match e {
        ErrorView::InvalidMethod(s) => s,
        ErrorView::InvalidEncryption(s) => "Invalid encryption: "@ + s,
        ErrorView::InvalidDataFormatForMethodType(s) => "Invalid data format for method type: "@ + s,
        ErrorView::RecordFound(s) => "Record found: "@ + s,
        ErrorView::NoProgramId => "No program id"@,
        ErrorView::InvalidOwner(s) => s,
        ErrorView::NoEncryptionType => "No encryption type"@,
        ErrorView::NotSupportedEncryptionType(s) => "Not supported encryption type: "@ + s,
        ErrorView::InvalidSignature(s) => s,
    }
}

impl ServiceError {
    /// The text of the error, as it is written into a receipt.
    pub fn message(&self) -> (text: String)
        ensures
            text@ == error_text(self@),
    {
        match self {
            ServiceError::InvalidMethod(s) => s.clone(),
            ServiceError::InvalidEncryption(s) => String::from_str("Invalid encryption: ").concat(
                s.as_str(),
            ),
            ServiceError::InvalidDataFormatForMethodType(s) => String::from_str(
                "Invalid data format for method type: ",
            ).concat(s.as_str()),
            ServiceError::RecordFound(s) => String::from_str("Record found: ").concat(s.as_str()),
            ServiceError::NoProgramId => String::from_str("No program id"),
            ServiceError::InvalidOwner(s) => s.clone(),
            ServiceError::NoEncryptionType => String::from_str("No encryption type"),
            ServiceError::NotSupportedEncryptionType(s) => String::from_str(
                "Not supported encryption type: ",
            ).concat(s.as_str()),
            ServiceError::InvalidSignature(s) => s.clone(),
        }
    }
}

} // verus!
