use sspi::{
    AcceptSecurityContext, AcceptSecurityContextResult, CertTrustErrorStatus, CertTrustInfoStatus,
    CertTrustStatus, ClientRequestFlags, ContextNames, ContextSizes, CredentialUse,
    DataRepresentation, DecryptionFlags, EncryptionFlags, Error, ErrorKind,
    FilledAcceptSecurityContext, InitializeSecurityContextResult, PackageInfo, SecurityBuffer,
    SecurityBufferType, SecurityPackageType, SecurityStatus, ServerRequestFlags,
    ServerResponseFlags, Sspi,
};

#[test]
fn validate_passes_the_arguments_through() {
    let output = vec![SecurityBuffer::new(Vec::new(), SecurityBufferType::Token)];
    let input = vec![SecurityBuffer::new(vec![1, 2], SecurityBufferType::Token)];
    let filled = AcceptSecurityContext::new()
        .with_credentials_handle(41u64)
        .with_context_requirements(ServerRequestFlags::from_bits(
            ServerRequestFlags::ALLOCATE_MEMORY,
        ))
        .with_target_data_representation(DataRepresentation::Native)
        .with_output(output)
        .with_input(input)
        .validate()
        .unwrap();
    assert_eq!(filled.credentials_handle, 41u64);
    assert_eq!(filled.context_requirements.bits(), 0x100);
    assert_eq!(
        filled.target_data_representation,
        DataRepresentation::Native
    );
    assert_eq!(filled.output.len(), 1);
    assert_eq!(filled.input.as_ref().unwrap()[0].buffer, vec![1, 2]);
}

#[test]
fn validate_without_a_required_argument_is_an_invalid_parameter() {
    // No output buffers were supplied.
    let incomplete: AcceptSecurityContext<u64> = AcceptSecurityContext::new()
        .with_credentials_handle(7u64)
        .with_context_requirements(ServerRequestFlags::empty())
        .with_target_data_representation(DataRepresentation::Network);
    let err = incomplete.validate().unwrap_err();
    assert_eq!(err.error_type, ErrorKind::InvalidParameter);

    // Nothing at all was supplied.
    let empty: AcceptSecurityContext<u64> = AcceptSecurityContext::new();
    let err = empty.validate().unwrap_err();
    assert_eq!(err.error_type, ErrorKind::InvalidParameter);
}

#[test]
fn input_is_optional() {
    let filled: FilledAcceptSecurityContext<u64> = AcceptSecurityContext::new()
        .with_credentials_handle(7u64)
        .with_context_requirements(ServerRequestFlags::empty())
        .with_target_data_representation(DataRepresentation::Network)
        .with_output(Vec::new())
        .validate()
        .unwrap();
    assert!(filled.input.is_none());
}

/// A provider that accepts outright and echoes fixed values, to drive the
/// operation surface from a caller's seat.
struct EchoProvider;

impl Sspi for EchoProvider {
    type CredentialsHandle = u64;
    type AuthenticationData = String;

    fn acquire_credentials_handle(
        &mut self,
        credential_use: CredentialUse,
        _auth_data: String,
    ) -> Result<u64, Error> {
        if matches!(credential_use, CredentialUse::Default) {
            return Err(Error::new(
                ErrorKind::InvalidParameter,
                "no default credentials exist".to_string(),
            ));
        }
        Ok(7)
    }

    fn initialize_security_context(
        &mut self,
        _credentials_handle: &mut u64,
        _context_requirements: ClientRequestFlags,
        _target_data_representation: DataRepresentation,
        _target_name: Option<String>,
        _input: &mut Vec<SecurityBuffer>,
        output: &mut Vec<SecurityBuffer>,
    ) -> Result<InitializeSecurityContextResult, Error> {
        output.push(SecurityBuffer::new(vec![1], SecurityBufferType::Token));
        Ok(InitializeSecurityContextResult {
            status: SecurityStatus::ContinueNeeded,
            flags: sspi::ClientResponseFlags::empty(),
            expiry: None,
        })
    }

    fn accept_security_context(
        &mut self,
        builder: &mut FilledAcceptSecurityContext<u64>,
    ) -> Result<AcceptSecurityContextResult, Error> {
        builder
            .output
            .push(SecurityBuffer::new(vec![2], SecurityBufferType::Token));
        Ok(AcceptSecurityContextResult {
            status: SecurityStatus::Success,
            flags: ServerResponseFlags::empty(),
            expiry: None,
        })
    }

    fn complete_auth_token(
        &mut self,
        _token: &mut Vec<SecurityBuffer>,
    ) -> Result<SecurityStatus, Error> {
        Ok(SecurityStatus::Success)
    }

    fn encrypt_message(
        &mut self,
        _flags: EncryptionFlags,
        _message: &mut Vec<SecurityBuffer>,
        _sequence_number: u32,
    ) -> Result<SecurityStatus, Error> {
        Ok(SecurityStatus::Success)
    }

    fn decrypt_message(
        &mut self,
        _message: &mut Vec<SecurityBuffer>,
        _sequence_number: u32,
    ) -> Result<DecryptionFlags, Error> {
        Ok(DecryptionFlags::empty())
    }

    fn query_context_sizes(&mut self) -> Result<ContextSizes, Error> {
        Ok(ContextSizes {
            max_token: 2888,
            max_signature: 16,
            block: 0,
            security_trailer: 16,
        })
    }

    fn query_context_names(&mut self) -> Result<ContextNames, Error> {
        Ok(ContextNames {
            username: "user".to_string(),
            domain: None,
        })
    }

    fn query_context_package_info(&mut self) -> Result<PackageInfo, Error> {
        sspi::query_security_package_info(SecurityPackageType::Ntlm)
    }

    fn query_context_cert_trust_status(&mut self) -> Result<CertTrustStatus, Error> {
        Ok(CertTrustStatus {
            error_status: CertTrustErrorStatus::from_bits(CertTrustErrorStatus::NO_ERROR),
            info_status: CertTrustInfoStatus::from_bits(0),
        })
    }
}

#[test]
fn a_provider_is_driven_through_the_operation_surface() {
    let mut provider = EchoProvider;
    let handle = provider
        .acquire_credentials_handle(CredentialUse::Inbound, "identity".to_string())
        .unwrap();
    let mut filled = AcceptSecurityContext::new()
        .with_credentials_handle(handle)
        .with_context_requirements(ServerRequestFlags::empty())
        .with_target_data_representation(DataRepresentation::Native)
        .with_output(Vec::new())
        .validate()
        .unwrap();
    let result = provider.accept_security_context(&mut filled).unwrap();
    assert_eq!(result.status, SecurityStatus::Success);
    assert_eq!(filled.output.len(), 1);
    let sizes = provider.query_context_sizes().unwrap();
    assert_eq!(sizes.max_signature, 16);
    let names = provider.query_context_names().unwrap();
    assert_eq!(names.username, "user");
    let info = provider.query_context_package_info().unwrap();
    assert_eq!(info.name.to_string(), "NTLM");

    let err = provider
        .acquire_credentials_handle(CredentialUse::Default, "identity".to_string())
        .unwrap_err();
    assert_eq!(err.error_type, ErrorKind::InvalidParameter);
}
