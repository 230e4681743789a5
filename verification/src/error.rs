//! Why outbound TLS could not be set up.

use vstd::prelude::*;

verus! {

/// A failure to set up outbound TLS. `cause` is the text of the underlying error.
#[derive(Debug)]
pub enum TlsError {
    /// The OpenSSL FIPS provider could not be loaded.
    LoadModule { cause: String },
    /// A FIPS build got a crypto provider that is not in FIPS mode.
    ProviderNotFips,
    /// A FIPS build found another provider installed in the process.
    ProviderInstalledBefore,
    /// The random generator of the provider does not work.
    RandomGenerator,
    /// The CA bundle could not be opened.
    ReadBundle { path: String, cause: String },
    /// The CA bundle could not be read through as PEM.
    ParseBundle { cause: String },
    /// The CA bundle holds no certificate.
    EmptyBundle,
    /// A certificate of the CA bundle cannot be a trust anchor.
    InvalidCertificate { cause: String },
    /// The provider cannot serve the default protocol versions.
    ProtocolVersions { cause: String },
    /// A FIPS build got a TLS configuration that is not in FIPS mode.
    ConfigNotFips,
    /// Outbound TLS was initialized before.
    AlreadyInitialized,
    /// A FIPS build was asked to talk to Kubernetes without verifying certificates.
    InsecureKubernetes,
    /// A FIPS build got a Kubernetes TLS configuration that is not in FIPS mode.
    KubernetesNotFips,
}

/// The value of a [`TlsError`].
pub enum ErrorView {
    LoadModule { cause: Seq<char> },
    ProviderNotFips,
    ProviderInstalledBefore,
    RandomGenerator,
    ReadBundle { path: Seq<char>, cause: Seq<char> },
    ParseBundle { cause: Seq<char> },
    EmptyBundle,
    InvalidCertificate { cause: Seq<char> },
    ProtocolVersions { cause: Seq<char> },
    ConfigNotFips,
    AlreadyInitialized,
    InsecureKubernetes,
    KubernetesNotFips,
}

impl View for TlsError {
    type V = ErrorView;

    open spec fn view(&self) -> ErrorView {
        match *self {
            TlsError::LoadModule { cause } => ErrorView::LoadModule { cause: cause@ },
            TlsError::ProviderNotFips => ErrorView::ProviderNotFips,
            TlsError::ProviderInstalledBefore => ErrorView::ProviderInstalledBefore,
            TlsError::RandomGenerator => ErrorView::RandomGenerator,
            TlsError::ReadBundle { path, cause } => ErrorView::ReadBundle {
                path: path@,
                cause: cause@,
            },
            TlsError::ParseBundle { cause } => ErrorView::ParseBundle { cause: cause@ },
            TlsError::EmptyBundle => ErrorView::EmptyBundle,
            TlsError::InvalidCertificate { cause } => ErrorView::InvalidCertificate {
                cause: cause@,
            },
            TlsError::ProtocolVersions { cause } => ErrorView::ProtocolVersions { cause: cause@ },
            TlsError::ConfigNotFips => ErrorView::ConfigNotFips,
            TlsError::AlreadyInitialized => ErrorView::AlreadyInitialized,
            TlsError::InsecureKubernetes => ErrorView::InsecureKubernetes,
            TlsError::KubernetesNotFips => ErrorView::KubernetesNotFips,
        }
    }
}

impl ErrorView {
    /// The text of the failure, as the operations of a process show it: what was attempted and,
    /// behind a colon, what went wrong there.
    pub open spec fn message(self) -> Seq<char> {
        match self {
            ErrorView::LoadModule { cause } => {
                "load OpenSSL FIPS provider; check the runtime image and OPENSSL_CONF: "@ + cause
            },
            ErrorView::ProviderNotFips => {
                "FIPS build requires a FIPS-enabled crypto provider; OpenSSL deployments must configure fips=yes in OPENSSL_CONF"@
            },
            ErrorView::ProviderInstalledBefore => {
                "a Rustls provider was installed before FIPS initialization"@
            },
            ErrorView::RandomGenerator => "initialize TLS random generator"@,
            ErrorView::ReadBundle { path, cause } => {
                "read CA bundle at "@ + path + ": "@ + cause
            },
            ErrorView::ParseBundle { cause } => "parse CA bundle certificates: "@ + cause,
            ErrorView::EmptyBundle => "CA bundle contains no certificates"@,
            ErrorView::InvalidCertificate { cause } => "invalid CA certificate: "@ + cause,
            ErrorView::ProtocolVersions { cause } => {
                "configure TLS protocol versions: "@ + cause
            },
            ErrorView::ConfigNotFips => "FIPS build requires a FIPS-enabled TLS configuration"@,
            ErrorView::AlreadyInitialized => "outbound TLS is already initialized"@,
            ErrorView::InsecureKubernetes => {
                "FIPS build rejects Kubernetes insecure-skip-tls-verify"@
            },
            ErrorView::KubernetesNotFips => "Kubernetes TLS configuration is not in FIPS mode"@,
        }
    }
}

/// `text` with `more` behind it.
fn joined(text: &str, more: &str) -> (whole: String)
    ensures
        whole@ == text@ + more@,
{
    text.to_owned().concat(more)
}

impl TlsError {
    /// The text of the failure.
    pub fn message(&self) -> (text: String)
        ensures
            text@ == self@.message(),
    {
        match self {
            TlsError::LoadModule { cause } => joined(
                "load OpenSSL FIPS provider; check the runtime image and OPENSSL_CONF: ",
                cause.as_str(),
            ),
            TlsError::ProviderNotFips => {
                "FIPS build requires a FIPS-enabled crypto provider; OpenSSL deployments must configure fips=yes in OPENSSL_CONF".to_owned()
            },
            TlsError::ProviderInstalledBefore => {
                "a Rustls provider was installed before FIPS initialization".to_owned()
            },
            TlsError::RandomGenerator => "initialize TLS random generator".to_owned(),
            TlsError::ReadBundle { path, cause } => joined(
                "read CA bundle at ",
                path.as_str(),
            ).concat(": ").concat(cause.as_str()),
            TlsError::ParseBundle { cause } => joined(
                "parse CA bundle certificates: ",
                cause.as_str(),
            ),
            TlsError::EmptyBundle => "CA bundle contains no certificates".to_owned(),
            TlsError::InvalidCertificate { cause } => joined(
                "invalid CA certificate: ",
                cause.as_str(),
            ),
            TlsError::ProtocolVersions { cause } => joined(
                "configure TLS protocol versions: ",
                cause.as_str(),
            ),
            TlsError::ConfigNotFips => {
                "FIPS build requires a FIPS-enabled TLS configuration".to_owned()
            },
            TlsError::AlreadyInitialized => "outbound TLS is already initialized".to_owned(),
            TlsError::InsecureKubernetes => {
                "FIPS build rejects Kubernetes insecure-skip-tls-verify".to_owned()
            },
            TlsError::KubernetesNotFips => {
                "Kubernetes TLS configuration is not in FIPS mode".to_owned()
            },
        }
    }

    /// The same failure once more, for a caller that comes later.
    pub fn repeat(&self) -> (again: TlsError)
        ensures
            again@ == self@,
    {
        match self {
            TlsError::LoadModule { cause } => TlsError::LoadModule { cause: cause.clone() },
            TlsError::ProviderNotFips => TlsError::ProviderNotFips,
            TlsError::ProviderInstalledBefore => TlsError::ProviderInstalledBefore,
            TlsError::RandomGenerator => TlsError::RandomGenerator,
            TlsError::ReadBundle { path, cause } => TlsError::ReadBundle {
                path: path.clone(),
                cause: cause.clone(),
            },
            TlsError::ParseBundle { cause } => TlsError::ParseBundle { cause: cause.clone() },
            TlsError::EmptyBundle => TlsError::EmptyBundle,
            TlsError::InvalidCertificate { cause } => TlsError::InvalidCertificate {
                cause: cause.clone(),
            },
            TlsError::ProtocolVersions { cause } => TlsError::ProtocolVersions {
                cause: cause.clone(),
            },
            TlsError::ConfigNotFips => TlsError::ConfigNotFips,
            TlsError::AlreadyInitialized => TlsError::AlreadyInitialized,
            TlsError::InsecureKubernetes => TlsError::InsecureKubernetes,
            TlsError::KubernetesNotFips => TlsError::KubernetesNotFips,
        }
    }
}

/// The text of a failure that has a cause is a fixed text with the cause, whole, behind it.
pub proof fn causes_are_shown_whole(path: Seq<char>, cause: Seq<char>)
    ensures
        (ErrorView::LoadModule { cause }).message()
            == "load OpenSSL FIPS provider; check the runtime image and OPENSSL_CONF: "@ + cause,
        (ErrorView::ReadBundle { path, cause }).message() == "read CA bundle at "@ + path + ": "@
            + cause,
        (ErrorView::ParseBundle { cause }).message() == "parse CA bundle certificates: "@ + cause,
        (ErrorView::InvalidCertificate { cause }).message() == "invalid CA certificate: "@ + cause,
        (ErrorView::ProtocolVersions { cause }).message() == "configure TLS protocol versions: "@
            + cause,
{
}

/// The value of a failure with a cause holds the whole cause.
pub proof fn causes_are_kept_whole(error: TlsError)
    ensures
        match error {
            TlsError::LoadModule { cause } => error@ == (ErrorView::LoadModule { cause: cause@ }),
            TlsError::ReadBundle { path, cause } => error@ == (ErrorView::ReadBundle {
                path: path@,
                cause: cause@,
            }),
            TlsError::ParseBundle { cause } => error@ == (ErrorView::ParseBundle { cause: cause@ }),
            TlsError::InvalidCertificate { cause } => error@ == (ErrorView::InvalidCertificate {
                cause: cause@,
            }),
            TlsError::ProtocolVersions { cause } => error@ == (ErrorView::ProtocolVersions {
                cause: cause@,
            }),
            TlsError::ProviderNotFips => error@ is ProviderNotFips,
            TlsError::ProviderInstalledBefore => error@ is ProviderInstalledBefore,
            TlsError::RandomGenerator => error@ is RandomGenerator,
            TlsError::EmptyBundle => error@ is EmptyBundle,
            TlsError::ConfigNotFips => error@ is ConfigNotFips,
            TlsError::AlreadyInitialized => error@ is AlreadyInitialized,
            TlsError::InsecureKubernetes => error@ is InsecureKubernetes,
            TlsError::KubernetesNotFips => error@ is KubernetesNotFips,
        },
{
}

} // verus!
