//! Errors of the signing service, their texts, and the error envelope.
use crate::transaction::BuildTransactionError;
use vstd::prelude::*;

verus! {

/// The broad classes into which the service sorts its failures.
#[derive(Clone, Copy, Debug, PartialEq, Eq, Structural)]
pub enum ErrorCategory {
    /// The process was started with a missing or invalid setting.
    Configuration,
    /// The caller named a method that the service does not offer.
    InvalidRpcMethod,
    /// The transaction handed in is malformed.
    BuildTransaction,
    /// The configured backend could not be turned into a signer.
    BackendResolution,
    /// The signer failed while signing.
    Signing,
    /// A signature or key could not be put into its text form.
    Encoding,
}

/// Everything that can go wrong in the service.
#[derive(Debug, PartialEq, Eq)]
pub enum Error {
    /// A key could not be derived from the seed; holds the reason.
    CustomizeError(String),
    /// The signer refused to sign; holds the reason.
    SignerError(String),
    /// The mnemonic phrase is not valid; holds the reason.
    Bip39Error(String),
    /// The cloud key could not be opened; holds the reason.
    GcpSignerError(String),
    /// The cloud service could not be reached; holds the reason.
    GcloudSDKError(String),
    /// The configured signer type is not one the service knows.
    InvalidSignerType(String),
    /// A setting that the chosen signer type needs was not given.
    RequireConfigKeyNotFound(&'static str),
    /// The request named a method other than the signing method.
    InvalidRpcMethod(String),
    /// The private key is not a base58 text of a valid key pair.
    InvalidKeyFormat,
    /// The configured signer type is known but has no backend.
    UnsupportedBackendKind(&'static str),
    /// The transaction cannot be brought into canonical form.
    BuildTransactionError(BuildTransactionError),
    /// A key or signature does not have the size of its text form's input.
    EncodingError(&'static str),
}

/// The mathematical value of an [`Error`]: its variant and its texts.
pub enum ErrorView {
    CustomizeError(Seq<char>),
    SignerError(Seq<char>),
    Bip39Error(Seq<char>),
    GcpSignerError(Seq<char>),
    GcloudSDKError(Seq<char>),
    InvalidSignerType(Seq<char>),
    RequireConfigKeyNotFound(Seq<char>),
    InvalidRpcMethod(Seq<char>),
    InvalidKeyFormat,
    UnsupportedBackendKind(Seq<char>),
    BuildTransactionError(BuildTransactionError),
    EncodingError(Seq<char>),
}

impl View for Error {
    type V = ErrorView;

    open spec fn view(&self) -> ErrorView {
        match self {
            Error::CustomizeError(m) => ErrorView::CustomizeError(m@),
            Error::SignerError(m) => ErrorView::SignerError(m@),
            Error::Bip39Error(m) => ErrorView::Bip39Error(m@),
            Error::GcpSignerError(m) => ErrorView::GcpSignerError(m@),
            Error::GcloudSDKError(m) => ErrorView::GcloudSDKError(m@),
            Error::InvalidSignerType(t) => ErrorView::InvalidSignerType(t@),
            Error::RequireConfigKeyNotFound(k) => ErrorView::RequireConfigKeyNotFound(k@),
            Error::InvalidRpcMethod(m) => ErrorView::InvalidRpcMethod(m@),
            Error::InvalidKeyFormat => ErrorView::InvalidKeyFormat,
            Error::UnsupportedBackendKind(k) => ErrorView::UnsupportedBackendKind(k@),
            Error::BuildTransactionError(e) => ErrorView::BuildTransactionError(*e),
            Error::EncodingError(what) => ErrorView::EncodingError(what@),
        }
    }
}

impl ErrorView {
    /// The text shown to the caller for this error.
    pub open spec fn message(self) -> Seq<char> {
        match self {
            ErrorView::CustomizeError(m) => "Customize error: "@ + m,
            ErrorView::SignerError(m) => m,
            ErrorView::Bip39Error(m) => m,
            ErrorView::GcpSignerError(m) => m,
            ErrorView::GcloudSDKError(m) => m,
            ErrorView::InvalidSignerType(t) => "Invalid signer type '"@ + t + "'"@,
            ErrorView::RequireConfigKeyNotFound(k) => "Require config key '"@ + k + "' not found"@,
            ErrorView::InvalidRpcMethod(m) => "Invalid rpc method '"@ + m + "'"@,
            ErrorView::InvalidKeyFormat => "Invalid private key format"@,
            ErrorView::UnsupportedBackendKind(k) => "Unsupported signer backend '"@ + k + "'"@,
            ErrorView::BuildTransactionError(e) => "Invalid transaction: "@ + e.reason(),
            ErrorView::EncodingError(what) => "Encoding error: "@ + what,
        }
    }

    /// The class of failure that this error belongs to.
    pub open spec fn category(self) -> ErrorCategory {
        match self {
            ErrorView::InvalidSignerType(_) | ErrorView::RequireConfigKeyNotFound(_) => {
                ErrorCategory::Configuration
            },
            ErrorView::InvalidRpcMethod(_) => ErrorCategory::InvalidRpcMethod,
            ErrorView::BuildTransactionError(_) => ErrorCategory::BuildTransaction,
            ErrorView::CustomizeError(_)
            | ErrorView::Bip39Error(_)
            | ErrorView::GcpSignerError(_)
            | ErrorView::GcloudSDKError(_)
            | ErrorView::InvalidKeyFormat
            | ErrorView::UnsupportedBackendKind(_) => ErrorCategory::BackendResolution,
            ErrorView::SignerError(_) => ErrorCategory::Signing,
            ErrorView::EncodingError(_) => ErrorCategory::Encoding,
        }
    }
}

impl Error {
    /// The text shown to the caller for this error.
    pub fn message(&self) -> (msg: String)
        ensures
            msg@ == self@.message(),
    {
        match self {
            Error::CustomizeError(m) => String::from_str("Customize error: ").concat(m.as_str()),
            Error::SignerError(m) => m.clone(),
            Error::Bip39Error(m) => m.clone(),
            Error::GcpSignerError(m) => m.clone(),
            Error::GcloudSDKError(m) => m.clone(),
            Error::InvalidSignerType(t) => String::from_str("Invalid signer type '").concat(
                t.as_str(),
            ).concat("'"),
            Error::RequireConfigKeyNotFound(k) => String::from_str("Require config key '").concat(
                k,
            ).concat("' not found"),
            Error::InvalidRpcMethod(m) => String::from_str("Invalid rpc method '").concat(
                m.as_str(),
            ).concat("'"),
            Error::InvalidKeyFormat => String::from_str("Invalid private key format"),
            Error::UnsupportedBackendKind(k) => String::from_str(
                "Unsupported signer backend '",
            ).concat(k).concat("'"),
            Error::BuildTransactionError(e) => String::from_str("Invalid transaction: ").concat(
                e.message().as_str(),
            ),
            Error::EncodingError(what) => String::from_str("Encoding error: ").concat(what),
        }
    }

    /// The class of failure that this error belongs to.
    pub fn category(&self) -> (class: ErrorCategory)
        ensures
            class == self@.category(),
    {
        match self {
            Error::InvalidSignerType(_) | Error::RequireConfigKeyNotFound(_) => {
                ErrorCategory::Configuration
            },
            Error::InvalidRpcMethod(_) => ErrorCategory::InvalidRpcMethod,
            Error::BuildTransactionError(_) => ErrorCategory::BuildTransaction,
            Error::CustomizeError(_)
            | Error::Bip39Error(_)
            | Error::GcpSignerError(_)
            | Error::GcloudSDKError(_)
            | Error::InvalidKeyFormat
            | Error::UnsupportedBackendKind(_) => ErrorCategory::BackendResolution,
            Error::SignerError(_) => ErrorCategory::Signing,
            Error::EncodingError(_) => ErrorCategory::Encoding,
        }
    }

    /// The status and text with which this error is answered outside an
    /// envelope.
    pub fn into_response(self) -> (res: (u16, String))
        ensures
            res.0 == INTERNAL_SERVER_ERROR,
            res.1@ == self@.message(),
    {
        (INTERNAL_SERVER_ERROR, self.message())
    }

    /// Puts the error into an envelope that carries the request's `id` and
    /// `jsonrpc` tag.
    pub fn rpc_error(self, id: u64, jsonrpc: String) -> (res: RPCError)
        ensures
            res.id == id,
            res.jsonrpc == jsonrpc,
            res.error == self,
    {
        RPCError { id, jsonrpc, error: self }
    }
}

/// The HTTP status with which every failure of the service is answered.
pub const INTERNAL_SERVER_ERROR: u16 = 500;

/// An error together with the `id` and `jsonrpc` tag of the request that
/// it answers.
#[derive(Debug, PartialEq, Eq)]
pub struct RPCError {
    pub id: u64,
    pub jsonrpc: String,
    pub error: Error,
}

/// The result of handling one request.
pub type RPCResult<T> = Result<T, RPCError>;

/// The mathematical value of an [`RPCError`].
pub struct RPCErrorView {
    pub id: u64,
    pub jsonrpc: Seq<char>,
    pub error: ErrorView,
}

impl View for RPCError {
    type V = RPCErrorView;

    open spec fn view(&self) -> RPCErrorView {
        RPCErrorView { id: self.id, jsonrpc: self.jsonrpc@, error: self.error@ }
    }
}

/// The body of the answer to a request that failed.
#[derive(Debug, PartialEq, Eq)]
pub struct ErrResponse {
    pub id: u64,
    pub jsonrpc: String,
    pub error: String,
}

impl RPCError {
    /// The status and body with which the failed request is answered: the
    /// request's `id` and `jsonrpc` tag, and the error's text.
    pub fn into_response(self) -> (res: (u16, ErrResponse))
        ensures
            res.0 == INTERNAL_SERVER_ERROR,
            res.1.id == self.id,
            res.1.jsonrpc == self.jsonrpc,
            res.1.error@ == self.error@.message(),
    {
        let error = self.error.message();
        (INTERNAL_SERVER_ERROR, ErrResponse { id: self.id, jsonrpc: self.jsonrpc, error })
    }
}

} // verus!
