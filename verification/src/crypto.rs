//! Process-wide crypto provider selection and SHA-256 hashing.
//!
//! Default builds use the `ring` provider and the `sha2` crate. FIPS builds use AWS-LC for both,
//! and for signed tokens.

use crate::backend::{Backend, BACKEND};
use crate::external::hashing::{
    aws_lc_finish, aws_lc_new, aws_lc_update, fed_to_aws_lc, fed_to_sha2, for_sha256, sha256,
    sha2_finalize, sha2_new, sha2_update, MAX_MESSAGE_LEN,
};
use crate::external::http::{builder_rest, builder_tls, use_rustls};
use crate::external::process::{is_aws_lc, same_as_aws_lc, ProcessDefaults};
use crate::external::provider::{provider_reports_fips, provider_view};
use crate::provider::offered_by;
use jsonwebtoken::crypto::CryptoProvider as TokenProvider;
use reqwest::ClientBuilder;
use vstd::prelude::*;

verus! {

/// Why a FIPS build cannot use the cryptography of the process.
#[derive(Clone, Copy, Debug, PartialEq, Eq, Structural)]
pub enum CryptoError {
    /// The installed provider of `rustls` is not in FIPS mode.
    ProviderNotFips,
    /// Signed tokens are not made with AWS-LC.
    TokensNotAwsLc,
}

impl CryptoError {
    /// The text of the failure.
    pub open spec fn spec_message(self) -> Seq<char> {
        match self {
            CryptoError::ProviderNotFips => {
                "the fips feature is enabled but the installed rustls crypto provider is not FIPS-validated"@
            },
            CryptoError::TokensNotAwsLc => {
                "the fips feature is enabled but jsonwebtoken's process-default crypto provider is not aws-lc; this happens when a JWT operation ran before ensure_crypto_provider_installed() (latching jsonwebtoken's placeholder provider) or when other code installed a different provider"@
            },
        }
    }

    /// The text of the failure.
    pub fn message(self) -> (text: &'static str)
        ensures
            text@ == self.spec_message(),
    {
        match self {
            CryptoError::ProviderNotFips => {
                "the fips feature is enabled but the installed rustls crypto provider is not FIPS-validated"
            },
            CryptoError::TokensNotAwsLc => {
                "the fips feature is enabled but jsonwebtoken's process-default crypto provider is not aws-lc; this happens when a JWT operation ran before ensure_crypto_provider_installed() (latching jsonwebtoken's placeholder provider) or when other code installed a different provider"
            },
        }
    }
}

/// The backend whose provider a build installs for the process: AWS-LC in a FIPS build, `ring`
/// otherwise.
pub open spec fn spec_process_backend(fips: bool) -> Backend {
    if fips {
        Backend::AwsLcFips
    } else {
        Backend::Ring
    }
}

/// The backend whose provider a build installs for the process.
#[verifier::when_used_as_spec(spec_process_backend)]
pub fn process_backend(fips: bool) -> (backend: Backend)
    ensures
        backend == process_backend(fips),
{
    if fips {
        Backend::AwsLcFips
    } else {
        Backend::Ring
    }
}

/// What a FIPS build makes of the provider that is installed in the process.
pub fn check_installed(reports_fips: bool) -> (checked: Result<(), CryptoError>)
    ensures
        checked == if reports_fips {
            Ok(())
        } else {
            Err(CryptoError::ProviderNotFips)
        },
{
    if reports_fips {
        Ok(())
    } else {
        Err(CryptoError::ProviderNotFips)
    }
}

/// What a FIPS build makes of an attempt to install AWS-LC as the provider for signed tokens. It
/// accepts AWS-LC, whether it was installed just now or is what a failing attempt handed back.
pub fn check_tokens(installed: Result<(), &'static TokenProvider>) -> (checked: Result<
    (),
    CryptoError,
>)
    ensures
        checked == match installed {
            Ok(()) => Ok::<(), CryptoError>(()),
            Err(handed_back) => if is_aws_lc(*handed_back) {
                Ok(())
            } else {
                Err(CryptoError::TokensNotAwsLc)
            },
        },
{
    match installed {
        Ok(()) => Ok(()),
        Err(handed_back) => if same_as_aws_lc(handed_back) {
            Ok(())
        } else {
            Err(CryptoError::TokensNotAwsLc)
        },
    }
}

/// Installs the crypto provider of this build for the process; see [`install_provider`].
pub fn ensure_crypto_provider_installed(process: &mut ProcessDefaults) -> (installed: Result<
    bool,
    CryptoError,
>)
    ensures
        provider_installed(BACKEND.fips(), *old(process), *final(process), installed),
{
    install_provider(BACKEND.fips(), process)
}

/// Whether installing the provider of a build may take `before` to `after` and give `installed`,
/// which tells whether this installation was the first one of the process.
///
/// `rustls` is asked to install the provider of the build. A default that was known before stays;
/// one that is installed now is that of the build. A FIPS build asks the default whether it is in
/// FIPS mode. It fails exactly where the answer is no or, after a yes, where `jsonwebtoken` refuses
/// AWS-LC and hands back another provider, which it does not do.
pub open spec fn provider_installed(
    fips: bool,
    before: ProcessDefaults,
    after: ProcessDefaults,
    installed: Result<bool, CryptoError>,
) -> bool {
    let installed_now = after.ours() && !before.ours();
    &&& after.tls() is Some
    &&& before.tls() is Some ==> after.tls() == before.tls() && after.ours() == before.ours()
    &&& before.ours() ==> after.ours()
    &&& after.tried() == before.tried()
    &&& installed_now ==> offered_by(process_backend(fips), provider_view(*after.tls()->0))
    &&& installed_now ==> provider_view(*after.tls()->0) == (after.installation()->0).0
    &&& installed matches Ok(first) ==> first == installed_now
    &&& after.installation() is Some
    &&& offered_by(process_backend(fips), (after.installation()->0).0)
    &&& (after.installation()->0).1 == installed_now
    &&& after.loaded() == before.loaded()
    &&& !fips ==> {
        &&& installed is Ok
        &&& after.reported() == before.reported()
        &&& after.tokens() == before.tokens()
        &&& after.tokens_ours() == before.tokens_ours()
    }
    &&& fips ==> {
        let answer = (after.reported()->0).1;
        &&& after.reported() == Some((provider_view(*after.tls()->0), answer))
        &&& provider_view(*after.tls()->0).engine is Ring ==> !answer
        &&& installed == Err::<bool, CryptoError>(CryptoError::ProviderNotFips) <==> !answer
        &&& installed == Err::<bool, CryptoError>(CryptoError::TokensNotAwsLc) <==> answer && (
        after.tokens()->0 matches Err(handed_back) && !is_aws_lc(handed_back))
        &&& !answer ==> after.tokens() == before.tokens() && after.tokens_ours()
            == before.tokens_ours()
        &&& answer ==> {
            &&& after.tokens() is Some
            &&& after.tokens()->0 matches Err(handed_back) ==> is_aws_lc(handed_back)
            &&& after.tokens_ours() == (after.tokens()->0 is Ok || before.tokens_ours())
            &&& after.tokens()->0 is Ok ==> before.tokens() is None
        }
    }
}

/// Installs the provider of a build as the default of the process and tells whether it did. It may
/// be called again and again: only the first installation of a process takes effect.
///
/// A FIPS build goes on to check that the default, whoever installed it, is in FIPS mode, and
/// makes AWS-LC the provider for signed tokens. Another build does not fail.
pub fn install_provider(fips: bool, process: &mut ProcessDefaults) -> (installed: Result<
    bool,
    CryptoError,
>)
    ensures
        provider_installed(fips, *old(process), *final(process), installed),
{
    let first: bool = process.install_tls(&crate::provider::provider(process_backend(fips)));
    if fips {
        let answer = provider_reports_fips(process.tls_provider().as_ref().unwrap());
        let reports_fips: bool = answer.fips();
        process.record_answer(answer);
        check_installed(reports_fips)?;
        let tokens = process.install_tokens();
        check_tokens(tokens)?;
    }
    Ok(first)
}

/// Applies the TLS backend of this build to a builder of HTTP clients; see [`apply_tls_backend`].
pub fn apply_fips_tls_backend(builder: ClientBuilder) -> (applied: ClientBuilder)
    ensures
        backend_applied(BACKEND.fips(), builder, applied),
{
    apply_tls_backend(BACKEND.fips(), builder)
}

/// Whether `applied` is `builder` with the TLS backend of a build: in a FIPS build its clients use
/// `rustls` and every other setting is kept, in another build nothing changes.
pub open spec fn backend_applied(
    fips: bool,
    builder: ClientBuilder,
    applied: ClientBuilder,
) -> bool {
    &&& fips ==> builder_tls(applied) is Rustls
    &&& builder_rest(applied) == builder_rest(builder)
    &&& !fips ==> applied == builder
}

/// Makes the clients of a builder use `rustls`, and so the provider of the process, in a FIPS
/// build; every other setting stays. In another build the builder stays as it is.
pub fn apply_tls_backend(fips: bool, builder: ClientBuilder) -> (applied: ClientBuilder)
    ensures
        backend_applied(fips, builder, applied),
{
    if fips {
        use_rustls(builder)
    } else {
        builder
    }
}

/// The implementation behind a [`Sha256Hasher`].
enum Hasher {
    AwsLc(aws_lc_rs::digest::Context),
    RustCrypto(sha2::Sha256),
}

/// Incremental SHA-256 hasher, backed by AWS-LC in FIPS builds and by `sha2` otherwise. Its view
/// is the message that it was fed so far.
pub struct Sha256Hasher {
    inner: Hasher,
}

impl View for Sha256Hasher {
    type V = Seq<u8>;

    closed spec fn view(&self) -> Seq<u8> {
        match self.inner {
            Hasher::AwsLc(context) => fed_to_aws_lc(context),
            Hasher::RustCrypto(hasher) => fed_to_sha2(hasher),
        }
    }
}

impl Sha256Hasher {
    /// Whether AWS-LC does the hashing; otherwise `sha2` does.
    pub closed spec fn by_aws_lc(self) -> bool {
        self.inner is AwsLc
    }

    /// A context of AWS-LC is one for SHA-256.
    pub closed spec fn wf(self) -> bool {
        match self.inner {
            Hasher::AwsLc(context) => for_sha256(context),
            Hasher::RustCrypto(_) => true,
        }
    }

    /// A hasher of this build that was fed nothing.
    pub fn new() -> (hasher: Sha256Hasher)
        ensures
            hasher.wf(),
            hasher@ == Seq::<u8>::empty(),
            hasher.by_aws_lc() == BACKEND.fips(),
    {
        Sha256Hasher::with_fips(BACKEND.fips())
    }

    /// A hasher that was fed nothing: that of a FIPS build, or that of another build.
    pub fn with_fips(fips: bool) -> (hasher: Sha256Hasher)
        ensures
            hasher.wf(),
            hasher@ == Seq::<u8>::empty(),
            hasher.by_aws_lc() == fips,
    {
        if fips {
            Sha256Hasher { inner: Hasher::AwsLc(aws_lc_new()) }
        } else {
            Sha256Hasher { inner: Hasher::RustCrypto(sha2_new()) }
        }
    }

    /// Feeds `data` to the hasher. The message has to stay one that SHA-256 is defined on.
    pub fn update(&mut self, data: &[u8])
        requires
            old(self).wf(),
            old(self)@.len() + data@.len() <= MAX_MESSAGE_LEN,
        ensures
            final(self).wf(),
            final(self)@ == old(self)@ + data@,
            final(self).by_aws_lc() == old(self).by_aws_lc(),
    {
        match &mut self.inner {
            Hasher::AwsLc(context) => aws_lc_update(context, data),
            Hasher::RustCrypto(hasher) => sha2_update(hasher, data),
        }
    }

    /// The digest of the message that the hasher was fed.
    pub fn finalize(self) -> (digest: [u8; 32])
        requires
            self.wf(),
            self@.len() <= MAX_MESSAGE_LEN,
        ensures
            digest@ == sha256(self@),
    {
        match self.inner {
            Hasher::AwsLc(context) => aws_lc_finish(context),
            Hasher::RustCrypto(hasher) => sha2_finalize(hasher),
        }
    }
}

impl Default for Sha256Hasher {
    fn default() -> (hasher: Sha256Hasher)
        ensures
            hasher.wf(),
            hasher@ == Seq::<u8>::empty(),
            hasher.by_aws_lc() == BACKEND.fips(),
    {
        Sha256Hasher::new()
    }
}

/// Of two installations in a row, the second leaves the defaults of the process as they are, that
/// of `rustls` and, where the first one got to it, that for signed tokens: however often a provider
/// is installed, only the first time counts. In a default build the second installation succeeds;
/// in a FIPS build it fails only where the default says that it is not in FIPS mode.
pub proof fn only_the_first_installation_counts(
    first_fips: bool,
    second_fips: bool,
    before: ProcessDefaults,
    between: ProcessDefaults,
    after: ProcessDefaults,
    first: Result<bool, CryptoError>,
    second: Result<bool, CryptoError>,
)
    requires
        provider_installed(first_fips, before, between, first),
        provider_installed(second_fips, between, after, second),
    ensures
        after.tls() == between.tls(),
        after.ours() == between.ours(),
        between.tokens() is Some ==> after.tokens_ours() == between.tokens_ours(),
        second != Ok::<bool, CryptoError>(true),
        second is Err ==> second == Err::<bool, CryptoError>(CryptoError::ProviderNotFips),
        second is Err ==> after.reported() == Some((provider_view(*between.tls()->0), false)),
        !second_fips ==> second == Ok::<bool, CryptoError>(false),
{
    assert(second != Err::<bool, CryptoError>(CryptoError::TokensNotAwsLc));
    assert(second is Err ==> second->Err_0 is ProviderNotFips || second->Err_0 is TokensNotAwsLc);
}

/// An installation of a FIPS build that succeeds means that the default of the process said that it
/// is in FIPS mode, so that it is not the provider of `ring`, and that AWS-LC was installed for
/// signed tokens, by this attempt or with AWS-LC handed back.
pub proof fn fips_success_means_a_checked_default(
    before: ProcessDefaults,
    after: ProcessDefaults,
    installed: Result<bool, CryptoError>,
)
    requires
        provider_installed(true, before, after, installed),
        installed is Ok,
    ensures
        after.tls() is Some,
        after.reported() == Some((provider_view(*after.tls()->0), true)),
        !(provider_view(*after.tls()->0).engine is Ring),
        after.tokens() is Some,
        after.tokens()->0 matches Err(handed_back) ==> is_aws_lc(handed_back),
{
}

/// In a default build, what an installation puts in place as the default of the process is the
/// provider of `ring`.
pub proof fn default_build_installs_ring(
    before: ProcessDefaults,
    after: ProcessDefaults,
    installed: Result<bool, CryptoError>,
)
    requires
        provider_installed(false, before, after, installed),
    ensures
        installed is Ok,
        after.tls() is Some,
        installed == Ok::<bool, CryptoError>(true) <==> after.ours() && !before.ours(),
        installed == Ok::<bool, CryptoError>(true) ==> offered_by(
            Backend::Ring,
            provider_view(*after.tls()->0),
        ),
        before.tls() is Some ==> after.tls() == before.tls(),
{
}

/// Applying the TLS backend of a build once more changes nothing.
pub proof fn backend_is_applied_once(
    fips: bool,
    builder: ClientBuilder,
    once: ClientBuilder,
    twice: ClientBuilder,
)
    requires
        backend_applied(fips, builder, once),
        backend_applied(fips, once, twice),
    ensures
        builder_tls(twice) == builder_tls(once),
        builder_rest(twice) == builder_rest(once),
        backend_applied(fips, builder, twice),
{
}

/// The message of a hasher with the message `message` behind one [`Sha256Hasher::update`] for each
/// of `chunks`, in order.
pub open spec fn fed(message: Seq<u8>, chunks: Seq<Seq<u8>>) -> Seq<u8>
    decreases chunks.len(),
{
    if chunks.len() == 0 {
        message
    } else {
        fed(message + chunks[0], chunks.drop_first())
    }
}

/// Feeding chunk after chunk is feeding what they are together.
pub proof fn chunks_add_up(message: Seq<u8>, chunks: Seq<Seq<u8>>)
    ensures
        fed(message, chunks) == message + chunks.flatten(),
    decreases chunks.len(),
{
    if chunks.len() == 0 {
        assert(message + chunks.flatten() =~= message);
    } else {
        chunks_add_up(message + chunks[0], chunks.drop_first());
        assert(message + chunks[0] + chunks.drop_first().flatten() =~= message + (chunks[0]
            + chunks.drop_first().flatten()));
    }
}

/// The digest does not depend on how the message was cut into pieces.
pub proof fn digest_ignores_chunking(left: Seq<Seq<u8>>, right: Seq<Seq<u8>>)
    requires
        left.flatten() == right.flatten(),
    ensures
        sha256(fed(Seq::empty(), left)) == sha256(fed(Seq::empty(), right)),
{
    chunks_add_up(Seq::empty(), left);
    chunks_add_up(Seq::empty(), right);
}

/// Whatever comes of it, an installation asks `rustls` to install the provider of the build, AWS-LC
/// in a FIPS build and `ring` otherwise. Where the call did, that provider is the default of the
/// process; where it refused, the process keeps what it had.
pub proof fn installation_is_asked_for(
    fips: bool,
    before: ProcessDefaults,
    after: ProcessDefaults,
    installed: Result<bool, CryptoError>,
)
    requires
        provider_installed(fips, before, after, installed),
    ensures
        after.tls() is Some,
        after.installation() is Some,
        fips ==> (after.installation()->0).0.engine is AwsLc,
        !fips ==> (after.installation()->0).0.engine is Ring,
        (after.installation()->0).1 ==> before.tls() is None && after.ours() && provider_view(
            *after.tls()->0,
        ) == (after.installation()->0).0,
        !(after.installation()->0).1 ==> after.ours() == before.ours(),
        installed matches Ok(first) ==> first == (after.installation()->0).1,
{
}

/// A FIPS build asks the default of the process whether it is in FIPS mode. On a yes it goes on to
/// ask `jsonwebtoken` to install AWS-LC for signed tokens, and succeeds; on a no it fails and does
/// not.
pub proof fn fips_installation_follows_the_answer(
    before: ProcessDefaults,
    after: ProcessDefaults,
    installed: Result<bool, CryptoError>,
)
    requires
        provider_installed(true, before, after, installed),
    ensures
        after.reported() is Some,
        (after.reported()->0).0 == provider_view(*after.tls()->0),
        if (after.reported()->0).1 {
            &&& installed is Ok
            &&& after.tokens() is Some
            &&& after.tokens()->0 is Ok ==> before.tokens() is None && after.tokens_ours()
        } else {
            &&& installed == Err::<bool, CryptoError>(CryptoError::ProviderNotFips)
            &&& after.tokens() == before.tokens()
            &&& after.tokens_ours() == before.tokens_ours()
        },
{
    assert(installed is Err ==> installed->Err_0 is ProviderNotFips || installed->Err_0
        is TokensNotAwsLc);
    assert(installed is Err && installed->Err_0 is TokensNotAwsLc ==> installed == Err::<
        bool,
        CryptoError,
    >(CryptoError::TokensNotAwsLc));
}

/// A FIPS build makes the clients of a builder use `rustls` and keeps every other setting; another
/// build hands the builder back as it is.
pub proof fn backend_is_applied_in_fips_builds_only(
    fips: bool,
    builder: ClientBuilder,
    applied: ClientBuilder,
)
    requires
        backend_applied(fips, builder, applied),
    ensures
        fips ==> builder_tls(applied) is Rustls && builder_rest(applied) == builder_rest(builder),
        !fips ==> applied == builder,
{
}

/// AWS-LC does the hashing exactly where it is a context of AWS-LC that is fed, and the message is
/// what the implementation in use was fed.
proof fn hashing_is_done_by_what_is_fed(hasher: Sha256Hasher)
    ensures
        hasher.by_aws_lc() <==> hasher.inner is AwsLc,
        match hasher.inner {
            Hasher::AwsLc(context) => hasher@ == fed_to_aws_lc(context) && (hasher.wf()
                ==> for_sha256(context)),
            Hasher::RustCrypto(inner) => hasher@ == fed_to_sha2(inner),
        },
{
}

} // verus!
