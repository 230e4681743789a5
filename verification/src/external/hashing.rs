//! Incremental SHA-256 of `sha2` and of `aws_lc_rs`.

use aws_lc_rs::digest::Context;
use sha2::{Digest, Sha256};
use vstd::prelude::*;

verus! {

/// The SHA-256 digest of `message`, as FIPS 180-4 defines it for messages of less than 2^64 bits.
pub uninterp spec fn sha256(message: Seq<u8>) -> Seq<u8>;

/// The longest message, in bytes, that has a SHA-256 digest.
pub const MAX_MESSAGE_LEN: u64 = 0x1fff_ffff_ffff_ffff;

/// A hasher of `sha2`. What it was fed is told by [`fed_to_sha2`].
#[verifier::external_type_specification]
#[verifier::external_body]
pub struct ExSha256(sha2::Sha256);

/// The bytes that the hasher was fed, one call behind the other.
pub uninterp spec fn fed_to_sha2(hasher: Sha256) -> Seq<u8>;

/// A digest context of `aws_lc_rs`. What it was fed is told by [`fed_to_aws_lc`].
#[verifier::external_type_specification]
#[verifier::external_body]
pub struct ExContext(aws_lc_rs::digest::Context);

/// The bytes that the context was fed, one call behind the other.
pub uninterp spec fn fed_to_aws_lc(context: Context) -> Seq<u8>;

/// Whether the context computes SHA-256, and not another digest.
pub uninterp spec fn for_sha256(context: Context) -> bool;

/// Calls `Digest::new` of `sha2` for SHA-256. Assumed: the hasher was fed nothing.
#[verifier::external_body]
pub(crate) fn sha2_new() -> (hasher: Sha256)
    ensures
        fed_to_sha2(hasher) == Seq::<u8>::empty(),
{
    Sha256::new()
}

/// Calls `Digest::update` of `sha2`. Assumed: `data` goes behind what the hasher was fed.
#[verifier::external_body]
pub(crate) fn sha2_update(hasher: &mut Sha256, data: &[u8])
    requires
        fed_to_sha2(*old(hasher)).len() + data@.len() <= MAX_MESSAGE_LEN,
    ensures
        fed_to_sha2(*final(hasher)) == fed_to_sha2(*old(hasher)) + data@,
{
    Digest::update(hasher, data);
}

/// Calls `Digest::finalize` of `sha2`. Assumed: the digest is that of what the hasher was fed. The
/// length in bits has to fit 64 bits: the count would overflow.
#[verifier::external_body]
pub(crate) fn sha2_finalize(hasher: Sha256) -> (digest: [u8; 32])
    requires
        fed_to_sha2(hasher).len() <= MAX_MESSAGE_LEN,
    ensures
        digest@ == sha256(fed_to_sha2(hasher)),
{
    Digest::finalize(hasher).into()
}

/// Calls `Context::new` of `aws_lc_rs` for SHA-256. Assumed: the context computes SHA-256 and
/// was fed nothing.
#[verifier::external_body]
pub(crate) fn aws_lc_new() -> (context: Context)
    ensures
        for_sha256(context),
        fed_to_aws_lc(context) == Seq::<u8>::empty(),
{
    Context::new(&aws_lc_rs::digest::SHA256)
}

/// Calls `Context::update` of `aws_lc_rs`. Assumed: `data` goes behind what the context was fed,
/// and the context computes the same digest as before. The call panics where more is fed than it
/// can count.
#[verifier::external_body]
pub(crate) fn aws_lc_update(context: &mut Context, data: &[u8])
    requires
        fed_to_aws_lc(*old(context)).len() + data@.len() <= MAX_MESSAGE_LEN,
    ensures
        fed_to_aws_lc(*final(context)) == fed_to_aws_lc(*old(context)) + data@,
        for_sha256(*final(context)) == for_sha256(*old(context)),
{
    context.update(data);
}

/// Calls `Context::finish` of `aws_lc_rs` on a context for SHA-256. Assumed: the digest, of 32
/// bytes, is that of what the context was fed.
#[verifier::external_body]
pub(crate) fn aws_lc_finish(context: Context) -> (digest: [u8; 32])
    requires
        for_sha256(context),
        fed_to_aws_lc(context).len() <= MAX_MESSAGE_LEN,
    ensures
        digest@ == sha256(fed_to_aws_lc(context)),
{
    let mut digest = [0u8; 32];
    digest.copy_from_slice(context.finish().as_ref());
    digest
}

} // verus!
