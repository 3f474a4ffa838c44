//! The argument record for accepting a security context, the result
//! records of the handshake-driving operations, and the operation surface
//! that every security package exposes.
//!
//! The builder gathers the arguments one at a time; `validate` checks that
//! every required argument was supplied and hands out the filled record
//! that `Sspi::accept_security_context` takes. A missing required argument
//! is reported as `InvalidParameter`.

use vstd::prelude::*;

use crate::buffer::SecurityBuffer;
use crate::error::{Error, ErrorKind, SecurityStatus};
use crate::flags::{
    ClientRequestFlags, ClientResponseFlags, DecryptionFlags, EncryptionFlags, ServerRequestFlags,
    ServerResponseFlags,
};
use crate::package::{
    CertTrustStatus, ContextNames, ContextSizes, CredentialUse, DataRepresentation, PackageInfo,
};

verus! {

/// Contains data returned by `Sspi::accept_security_context`. The expiry,
/// when the package reports one, is in seconds since the Unix epoch.
#[derive(Debug, Clone)]
pub struct AcceptSecurityContextResult {
    pub status: SecurityStatus,
    pub flags: ServerResponseFlags,
    pub expiry: Option<i64>,
}

/// Contains data returned by `Sspi::initialize_security_context`. The
/// expiry, when the package reports one, is in seconds since the Unix
/// epoch.
#[derive(Debug, Clone)]
pub struct InitializeSecurityContextResult {
    pub status: SecurityStatus,
    pub flags: ClientResponseFlags,
    pub expiry: Option<i64>,
}

/// Gathers the arguments of `Sspi::accept_security_context`.
///
/// The credentials handle, the context requirements, the target data
/// representation and the output buffers are required; the input buffers
/// are optional (the first call of a handshake has none).
#[derive(Debug)]
pub struct AcceptSecurityContext<CredsHandle> {
    pub credentials_handle: Option<CredsHandle>,
    pub context_requirements: Option<ServerRequestFlags>,
    pub target_data_representation: Option<DataRepresentation>,
    pub output: Option<Vec<SecurityBuffer>>,
    pub input: Option<Vec<SecurityBuffer>>,
}

/// The arguments of `Sspi::accept_security_context`, with every required
/// argument present. Produced by `AcceptSecurityContext::validate`.
#[derive(Debug)]
pub struct FilledAcceptSecurityContext<CredsHandle> {
    pub credentials_handle: CredsHandle,
    pub context_requirements: ServerRequestFlags,
    pub target_data_representation: DataRepresentation,
    pub output: Vec<SecurityBuffer>,
    pub input: Option<Vec<SecurityBuffer>>,
}

impl<CredsHandle> AcceptSecurityContext<CredsHandle> {
    /// An empty record: no argument supplied yet.
    pub fn new() -> (r: AcceptSecurityContext<CredsHandle>)
        ensures
            r.credentials_handle is None,
            r.context_requirements is None,
            r.target_data_representation is None,
            r.output is None,
            r.input is None,
    {
        AcceptSecurityContext {
            credentials_handle: None,
            context_requirements: None,
            target_data_representation: None,
            output: None,
            input: None,
        }
    }

    /// Whether every required argument was supplied.
    pub open spec fn is_filled(self) -> bool {
        &&& self.credentials_handle is Some
        &&& self.context_requirements is Some
        &&& self.target_data_representation is Some
        &&& self.output is Some
    }

    /// Supplies the server credentials. To retrieve this handle, the server
    /// calls `Sspi::acquire_credentials_handle` with either the
    /// `CredentialUse::Inbound` or the `CredentialUse::Outbound` use.
    pub fn with_credentials_handle(self, credentials_handle: CredsHandle) -> (r:
        AcceptSecurityContext<CredsHandle>)
        ensures
            r.credentials_handle == Some(credentials_handle),
            r.context_requirements == self.context_requirements,
            r.target_data_representation == self.target_data_representation,
            r.output == self.output,
            r.input == self.input,
    {
        AcceptSecurityContext { credentials_handle: Some(credentials_handle), ..self }
    }

    /// Supplies the bit flags that specify the attributes required by the
    /// server to establish the context.
    pub fn with_context_requirements(self, context_requirements: ServerRequestFlags) -> (r:
        AcceptSecurityContext<CredsHandle>)
        ensures
            r.credentials_handle == self.credentials_handle,
            r.context_requirements == Some(context_requirements),
            r.target_data_representation == self.target_data_representation,
            r.output == self.output,
            r.input == self.input,
    {
        AcceptSecurityContext { context_requirements: Some(context_requirements), ..self }
    }

    /// Supplies the data representation, such as byte ordering, on the
    /// target.
    pub fn with_target_data_representation(
        self,
        target_data_representation: DataRepresentation,
    ) -> (r: AcceptSecurityContext<CredsHandle>)
        ensures
            r.credentials_handle == self.credentials_handle,
            r.context_requirements == self.context_requirements,
            r.target_data_representation == Some(target_data_representation),
            r.output == self.output,
            r.input == self.input,
    {
        AcceptSecurityContext {
            target_data_representation: Some(target_data_representation),
            ..self
        }
    }

    /// Supplies the output buffers. They are sent to the client for input
    /// into additional calls to `Sspi::initialize_security_context`. An
    /// output buffer may be generated even when the operation succeeds
    /// outright, and any generated buffer must be sent back to the client
    /// application.
    pub fn with_output(self, output: Vec<SecurityBuffer>) -> (r: AcceptSecurityContext<
        CredsHandle,
    >)
        ensures
            r.credentials_handle == self.credentials_handle,
            r.context_requirements == self.context_requirements,
            r.target_data_representation == self.target_data_representation,
            r.output == Some(output),
            r.input == self.input,
    {
        AcceptSecurityContext { output: Some(output), ..self }
    }

    /// Supplies the buffers generated by a client call to
    /// `Sspi::initialize_security_context`.
    pub fn with_input(self, input: Vec<SecurityBuffer>) -> (r: AcceptSecurityContext<CredsHandle>)
        ensures
            r.credentials_handle == self.credentials_handle,
            r.context_requirements == self.context_requirements,
            r.target_data_representation == self.target_data_representation,
            r.output == self.output,
            r.input == Some(input),
    {
        AcceptSecurityContext { input: Some(input), ..self }
    }

    /// Checks that every required argument was supplied and hands the
    /// arguments over verbatim; a missing required argument is an
    /// `InvalidParameter` error.
    pub fn validate(self) -> (r: Result<FilledAcceptSecurityContext<CredsHandle>, Error>)
        ensures
            r is Ok <==> self.is_filled(),
            r matches Ok(filled) ==> {
                &&& Some(filled.credentials_handle) == self.credentials_handle
                &&& Some(filled.context_requirements) == self.context_requirements
                &&& Some(filled.target_data_representation) == self.target_data_representation
                &&& Some(filled.output) == self.output
                &&& filled.input == self.input
            },
            r matches Err(e) ==> e.error_type == ErrorKind::InvalidParameter,
    {
        let AcceptSecurityContext {
            credentials_handle,
            context_requirements,
            target_data_representation,
            output,
            input,
        } = self;
        match (credentials_handle, context_requirements, target_data_representation, output) {
            (
                Some(credentials_handle),
                Some(context_requirements),
                Some(target_data_representation),
                Some(output),
            ) => Ok(
                FilledAcceptSecurityContext {
                    credentials_handle,
                    context_requirements,
                    target_data_representation,
                    output,
                    input,
                },
            ),
            _ => Err(
                Error::new(
                    ErrorKind::InvalidParameter,
                    String::from_str("a required argument of accepting a security context is missing"),
                ),
            ),
        }
    }
}

/// The operation surface that both security packages expose: credential
/// acquisition, the client- and server-side handshake drivers, and the
/// post-handshake per-message protection and context queries.
pub trait Sspi: Sized {
    /// The handle that `acquire_credentials_handle` produces and the
    /// context-establishing operations consume.
    type CredentialsHandle;

    /// The identity from which credentials are made.
    type AuthenticationData;

    /// Acquires a handle to preexisting credentials of a security
    /// principal, for the given use.
    fn acquire_credentials_handle(
        &mut self,
        credential_use: CredentialUse,
        auth_data: Self::AuthenticationData,
    ) -> Result<Self::CredentialsHandle, Error>;

    /// Initiates the client side, outbound security context from a
    /// credential handle. Called repeatedly, feeding each token the peer
    /// returns, until it stops reporting `ContinueNeeded`.
    fn initialize_security_context(
        &mut self,
        credentials_handle: &mut Self::CredentialsHandle,
        context_requirements: ClientRequestFlags,
        target_data_representation: DataRepresentation,
        target_name: Option<String>,
        input: &mut Vec<SecurityBuffer>,
        output: &mut Vec<SecurityBuffer>,
    ) -> Result<InitializeSecurityContextResult, Error>;

    /// Lets the server establish a security context between the server and
    /// a remote client from the arguments gathered by
    /// `AcceptSecurityContext` and checked by its `validate`.
    fn accept_security_context(
        &mut self,
        builder: &mut FilledAcceptSecurityContext<Self::CredentialsHandle>,
    ) -> Result<AcceptSecurityContextResult, Error>;

    /// Completes an authentication token, for protocols such as DCE that
    /// revise the security information once the transport application has
    /// updated some message parameters.
    fn complete_auth_token(&mut self, token: &mut Vec<SecurityBuffer>) -> Result<
        SecurityStatus,
        Error,
    >;

    /// Encrypts the `Data` buffer of the message in place, under the given
    /// quality-of-protection flags and sequence number.
    fn encrypt_message(
        &mut self,
        flags: EncryptionFlags,
        message: &mut Vec<SecurityBuffer>,
        sequence_number: u32,
    ) -> Result<SecurityStatus, Error>;

    /// Decrypts the `Data` buffer of the message in place, checking its
    /// signature and sequence number, and reports the quality of
    /// protection the sender chose.
    fn decrypt_message(&mut self, message: &mut Vec<SecurityBuffer>, sequence_number: u32) -> Result<
        DecryptionFlags,
        Error,
    >;

    /// Retrieves the bounds of sizes of authentication information of the
    /// current security principal.
    fn query_context_sizes(&mut self) -> Result<ContextSizes, Error>;

    /// Retrieves the username of the credential associated to the context.
    fn query_context_names(&mut self) -> Result<ContextNames, Error>;

    /// Retrieves information about the package the context belongs to.
    fn query_context_package_info(&mut self) -> Result<PackageInfo, Error>;

    /// Retrieves the trust information of the certificate.
    fn query_context_cert_trust_status(&mut self) -> Result<CertTrustStatus, Error>;
}

/// The extension that lets a caller install an identity on a context
/// directly, outside the credential acquisition flow.
pub trait SspiEx: Sspi {
    fn custom_set_auth_identity(&mut self, identity: Self::AuthenticationData);
}

} // verus!
