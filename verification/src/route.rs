//! The signing service: what is answered to each request.
//!
//! A request is answered here as far as this process can answer it. Where
//! the key is held by Google Cloud KMS, [`sign`] and [`pub_key`] return what
//! must be asked of the service, and [`sign_with_kms`] and
//! [`pub_key_with_kms`] turn its reply into the answer.
use crate::bytes::to_array;
use crate::error::{Error, ErrorCategory, ErrorView, RPCErrorView, RPCResult};
use crate::signer::keypair::{
    ed25519_signature,
    pubkey_text,
    signature_text,
    Pubkey,
    Signature,
};
use crate::signer::{
    Identity,
    KeySpecifier,
    KeySpecifierView,
    ResolvedSigner,
    SignerConfig,
    SignerView,
};
use crate::view::result_view;
use crate::transaction::{
    canonicalize,
    message_encoding,
    BuildTransactionError,
    RawTransactionRequest,
    TransactionView,
};
use vstd::prelude::*;

verus! {

/// The one method that the signing endpoint offers.
pub open spec fn sign_method() -> Seq<char> {
    "signTransaction"@
}

/// A request to sign one transaction.
#[derive(Debug, PartialEq, Eq)]
pub struct SignRequest {
    pub id: u64,
    pub jsonrpc: String,
    pub method: String,
    /// The one transaction of the request's parameters.
    pub params: RawTransactionRequest,
}

/// The answer to a request that succeeded: the signature as text.
#[derive(Debug, PartialEq, Eq)]
pub struct SignResponse {
    pub id: u64,
    pub jsonrpc: String,
    pub result: String,
}

/// A signature that must be asked of Google Cloud KMS, for the request
/// with this `id` and `jsonrpc` tag.
#[derive(Debug, PartialEq, Eq)]
pub struct KmsSigning {
    pub id: u64,
    pub jsonrpc: String,
    /// The key to sign with.
    pub key: KeySpecifier,
    /// The bytes to sign.
    pub message: Vec<u8>,
}

/// How far a signing request has come.
#[derive(Debug, PartialEq, Eq)]
pub enum SignStep {
    /// The request is answered.
    Reply(RPCResult<SignResponse>),
    /// The signature must be asked of Google Cloud KMS.
    AskKms(KmsSigning),
}

/// How far a request for the signer's identity has come.
#[derive(Debug, PartialEq, Eq)]
pub enum PubKeyStep {
    /// The request is answered, with the identity as text.
    Reply(Result<String, Error>),
    /// The public key must be asked of Google Cloud KMS, for this key.
    AskKms(KeySpecifier),
}

/// The mathematical value of a [`SignRequest`].
pub struct SignRequestView {
    pub id: u64,
    pub jsonrpc: Seq<char>,
    pub method: Seq<char>,
    pub params: TransactionView,
}

/// The mathematical value of a [`SignResponse`].
pub struct SignResponseView {
    pub id: u64,
    pub jsonrpc: Seq<char>,
    pub result: Seq<char>,
}

/// The mathematical value of a [`KmsSigning`].
pub struct KmsSigningView {
    pub id: u64,
    pub jsonrpc: Seq<char>,
    pub key: KeySpecifierView,
    pub message: Seq<u8>,
}

/// The mathematical value of a [`SignStep`].
pub enum SignStepView {
    Reply(Result<SignResponseView, RPCErrorView>),
    AskKms(KmsSigningView),
}

/// The mathematical value of a [`PubKeyStep`].
pub enum PubKeyStepView {
    Reply(Result<Seq<char>, ErrorView>),
    AskKms(KeySpecifierView),
}

impl View for SignRequest {
    type V = SignRequestView;

    open spec fn view(&self) -> SignRequestView {
        SignRequestView {
            id: self.id,
            jsonrpc: self.jsonrpc@,
            method: self.method@,
            params: self.params@,
        }
    }
}

impl View for SignResponse {
    type V = SignResponseView;

    open spec fn view(&self) -> SignResponseView {
        SignResponseView { id: self.id, jsonrpc: self.jsonrpc@, result: self.result@ }
    }
}

impl View for KmsSigning {
    type V = KmsSigningView;

    open spec fn view(&self) -> KmsSigningView {
        KmsSigningView {
            id: self.id,
            jsonrpc: self.jsonrpc@,
            key: self.key@,
            message: self.message@,
        }
    }
}

impl View for SignStep {
    type V = SignStepView;

    open spec fn view(&self) -> SignStepView {
        match self {
            SignStep::Reply(Ok(response)) => SignStepView::Reply(Ok(response@)),
            SignStep::Reply(Err(e)) => SignStepView::Reply(Err(e@)),
            SignStep::AskKms(ask) => SignStepView::AskKms(ask@),
        }
    }
}

impl View for PubKeyStep {
    type V = PubKeyStepView;

    open spec fn view(&self) -> PubKeyStepView {
        match self {
            PubKeyStep::Reply(Ok(text)) => PubKeyStepView::Reply(Ok(text@)),
            PubKeyStep::Reply(Err(e)) => PubKeyStepView::Reply(Err(e@)),
            PubKeyStep::AskKms(key) => PubKeyStepView::AskKms(key@),
        }
    }
}

impl SignRequestView {
    /// The envelope that answers this request with `error`.
    pub open spec fn failure(self, error: ErrorView) -> SignStepView {
        SignStepView::Reply(Err(RPCErrorView { id: self.id, jsonrpc: self.jsonrpc, error }))
    }

    /// The envelope that answers this request with the text of `signature`.
    pub open spec fn success(self, signature: Seq<u8>) -> SignStepView {
        SignStepView::Reply(
            Ok(
                SignResponseView {
                    id: self.id,
                    jsonrpc: self.jsonrpc,
                    result: signature_text(signature),
                },
            ),
        )
    }

    /// The bytes that are signed for this request.
    pub open spec fn message(self) -> Seq<u8> {
        message_encoding(self.params.message)
    }

    /// What the service does with this request when the configured signer
    /// resolves as `resolution`. The checks are made in this order, and the
    /// first that fails decides:
    ///
    /// 1. the method must be the signing method;
    /// 2. the transaction must be well formed;
    /// 3. the signer must resolve.
    ///
    /// Then a key pair held here signs the transaction's message, and a key
    /// held by Google Cloud KMS is asked to.
    pub open spec fn handled_as(
        self,
        resolution: Result<SignerView, ErrorView>,
        step: SignStepView,
    ) -> bool {
        if self.method != sign_method() {
            step == self.failure(ErrorView::InvalidRpcMethod(self.method))
        } else if !self.params.well_formed() {
            exists|e: BuildTransactionError|
                self.params.fails_with(e) && step == self.failure(
                    ErrorView::BuildTransactionError(e),
                )
        } else {
            match resolution {
                Err(e) => step == self.failure(e),
                Ok(SignerView::Local(keypair)) => step == self.success(
                    ed25519_signature(keypair, self.message()),
                ),
                Ok(SignerView::GoogleKms(key)) => step == SignStepView::AskKms(
                    KmsSigningView {
                        id: self.id,
                        jsonrpc: self.jsonrpc,
                        key,
                        message: self.message(),
                    },
                ),
            }
        }
    }
}

/// Whether `method` is the signing method.
fn is_sign_method(method: &String) -> (same: bool)
    ensures
        same == (method@ == sign_method()),
{
    *method == String::from_str("signTransaction")
}

/// Handles a signing request as far as this process can.
pub fn sign(config: &SignerConfig, request: SignRequest) -> (step: SignStep)
    ensures
        request@.handled_as(config.resolution(), step@),
{
    let SignRequest { id, jsonrpc, method, params } = request;
    if !is_sign_method(&method) {
        return SignStep::Reply(Err(Error::InvalidRpcMethod(method).rpc_error(id, jsonrpc)));
    }
    let tx = match canonicalize(params) {
        Ok(tx) => tx,
        Err(e) => {
            return SignStep::Reply(
                Err(Error::BuildTransactionError(e).rpc_error(id, jsonrpc)),
            );
        },
    };
    let signer = match config.signer() {
        Ok(signer) => signer,
        Err(e) => {
            return SignStep::Reply(Err(e.rpc_error(id, jsonrpc)));
        },
    };
    let message = tx.message_data();
    match signer {
        ResolvedSigner::Local(keypair) => {
            let signature = keypair.sign_message(message.as_slice());
            SignStep::Reply(Ok(SignResponse { id, jsonrpc, result: signature.to_string() }))
        },
        ResolvedSigner::GoogleKms(key) => SignStep::AskKms(
            KmsSigning { id, jsonrpc, key, message },
        ),
    }
}

/// What answers a request once Google Cloud KMS has replied with `reply`.
pub open spec fn kms_answer(
    id: u64,
    jsonrpc: Seq<char>,
    reply: Result<Seq<u8>, ErrorView>,
) -> Result<SignResponseView, RPCErrorView> {
    match reply {
        Ok(signature) => if signature.len() == 64 {
            Ok(SignResponseView { id, jsonrpc, result: signature_text(signature) })
        } else {
            Err(
                RPCErrorView {
                    id,
                    jsonrpc,
                    error: ErrorView::EncodingError("signature is not 64 bytes long"@),
                },
            )
        },
        Err(error) => Err(RPCErrorView { id, jsonrpc, error }),
    }
}

/// Answers the request with this `id` and `jsonrpc` tag, given what Google
/// Cloud KMS replied: the bytes of the signature, or why there is none.
pub fn sign_with_kms(id: u64, jsonrpc: String, reply: Result<Vec<u8>, Error>) -> (res: RPCResult<
    SignResponse,
>)
    ensures
        result_view(res) == kms_answer(id, jsonrpc@, result_view(reply)),
{
    match reply {
        Ok(bytes) => match to_array::<64>(&bytes) {
            Some(signature) => Ok(
                SignResponse {
                    id,
                    jsonrpc,
                    result: Signature::new_from_array(signature).to_string(),
                },
            ),
            None => Err(
                Error::EncodingError("signature is not 64 bytes long").rpc_error(id, jsonrpc),
            ),
        },
        Err(error) => Err(error.rpc_error(id, jsonrpc)),
    }
}

/// What is answered to a request for the identity of a signer that
/// resolves as `resolution`.
pub open spec fn identity_step(resolution: Result<SignerView, ErrorView>) -> PubKeyStepView {
    match resolution {
        Ok(SignerView::Local(keypair)) => PubKeyStepView::Reply(
            Ok(pubkey_text(keypair.subrange(32, 64))),
        ),
        Ok(SignerView::GoogleKms(key)) => PubKeyStepView::AskKms(key),
        Err(e) => PubKeyStepView::Reply(Err(e)),
    }
}

/// Reports the identity of the configured signer as far as this process
/// can.
pub fn pub_key(config: &SignerConfig) -> (step: PubKeyStep)
    ensures
        step@ == identity_step(config.resolution()),
{
    match config.address() {
        Ok(Identity::Known(key)) => PubKeyStep::Reply(Ok(key.to_string())),
        Ok(Identity::HeldByKms(key)) => PubKeyStep::AskKms(key),
        Err(e) => PubKeyStep::Reply(Err(e)),
    }
}

/// The identity that is reported once Google Cloud KMS has replied with
/// `reply`.
pub open spec fn kms_identity(reply: Result<Seq<u8>, ErrorView>) -> Result<Seq<char>, ErrorView> {
    match reply {
        Ok(key) => if key.len() == 32 {
            Ok(pubkey_text(key))
        } else {
            Err(ErrorView::EncodingError("public key is not 32 bytes long"@))
        },
        Err(e) => Err(e),
    }
}

/// Reports the identity of a signer in Google Cloud KMS, given what the
/// service replied: the bytes of the public key, or why there is none.
pub fn pub_key_with_kms(reply: Result<Vec<u8>, Error>) -> (res: Result<String, Error>)
    ensures
        result_view(res) == kms_identity(result_view(reply)),
{
    match reply {
        Ok(bytes) => match to_array::<32>(&bytes) {
            Some(key) => Ok(Pubkey::new_from_array(key).to_string()),
            None => Err(Error::EncodingError("public key is not 32 bytes long")),
        },
        Err(error) => Err(error),
    }
}

/// The answer to a liveness check.
pub fn healthz() -> (text: &'static str)
    ensures
        text@ == "OK"@,
{
    "OK"
}

/// The request that a step answers or carries on: its `id` and `jsonrpc`
/// tag.
pub open spec fn correlation(step: SignStepView) -> (u64, Seq<char>) {
    match step {
        SignStepView::Reply(Ok(response)) => (response.id, response.jsonrpc),
        SignStepView::Reply(Err(e)) => (e.id, e.jsonrpc),
        SignStepView::AskKms(ask) => (ask.id, ask.jsonrpc),
    }
}

/// Every outcome of a request carries the request's own `id` and `jsonrpc`
/// tag: the answer on success, the answer on any failure, and what is
/// asked of Google Cloud KMS.
pub proof fn outcome_echoes_request(
    request: SignRequestView,
    resolution: Result<SignerView, ErrorView>,
    step: SignStepView,
)
    requires
        request.handled_as(resolution, step),
    ensures
        correlation(step) == (request.id, request.jsonrpc),
{
}

/// The answer made from a reply of Google Cloud KMS carries the `id` and
/// `jsonrpc` tag that it was made for, whatever the reply.
pub proof fn kms_answer_echoes_request(
    id: u64,
    jsonrpc: Seq<char>,
    reply: Result<Seq<u8>, ErrorView>,
)
    ensures
        correlation(SignStepView::Reply(kms_answer(id, jsonrpc, reply))) == (id, jsonrpc),
{
}

/// A request for any method but the signing method is refused before
/// anything else is looked at: the answer is the error that names the
/// method, in the request's envelope, whatever the transaction holds and
/// whatever the signer would resolve to.
pub proof fn invalid_method_is_refused_first(
    request: SignRequestView,
    resolution: Result<SignerView, ErrorView>,
    step: SignStepView,
    other_params: TransactionView,
    other_resolution: Result<SignerView, ErrorView>,
)
    requires
        request.method != sign_method(),
        request.handled_as(resolution, step),
    ensures
        step == SignStepView::Reply(
            Err(
                RPCErrorView {
                    id: request.id,
                    jsonrpc: request.jsonrpc,
                    error: ErrorView::InvalidRpcMethod(request.method),
                },
            ),
        ),
        ErrorView::InvalidRpcMethod(request.method).category() == ErrorCategory::InvalidRpcMethod,
        (SignRequestView { params: other_params, ..request }).handled_as(other_resolution, step),
{
}

/// Where the signer does not resolve, a request is answered with an error
/// in the request's own envelope; if the request itself is in order, the
/// error is that of the resolution.
pub proof fn unresolved_signer_fails_with_echo(
    request: SignRequestView,
    error: ErrorView,
    step: SignStepView,
)
    requires
        request.handled_as(Err(error), step),
    ensures
        step matches SignStepView::Reply(Err(e)) && e.id == request.id && e.jsonrpc
            == request.jsonrpc && (request.method == sign_method() && request.params.well_formed()
            ==> e.error == error),
{
}

/// A key store does not resolve to a signer, whatever its path and
/// password: a request to a service so configured is answered with an
/// error in the request's own envelope, and if the request itself is in
/// order, the error is of the class [`ErrorCategory::BackendResolution`].
pub proof fn keystore_fails_with_echo(
    path: String,
    password: String,
    request: SignRequestView,
    step: SignStepView,
)
    requires
        request.handled_as((SignerConfig::KeyStore { path, password }).resolution(), step),
    ensures
        step matches SignStepView::Reply(Err(e)) && e.id == request.id && e.jsonrpc
            == request.jsonrpc && (request.method == sign_method() && request.params.well_formed()
            ==> e.error.category() == ErrorCategory::BackendResolution),
{
}

/// The signature that answers a request is made by the key pair whose
/// public key is reported as the signer's identity, over the bytes of the
/// request's canonical transaction.
pub proof fn signature_is_by_the_reported_identity(
    request: SignRequestView,
    keypair: Seq<u8>,
    step: SignStepView,
)
    requires
        request.method == sign_method(),
        request.params.well_formed(),
        request.handled_as(Ok(SignerView::Local(keypair)), step),
    ensures
        step == request.success(ed25519_signature(keypair, message_encoding(request.params.message))),
        identity_step(Ok(SignerView::Local(keypair))) == PubKeyStepView::Reply(
            Ok(pubkey_text(keypair.subrange(32, 64))),
        ),
{
}

} // verus!
