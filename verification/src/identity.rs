//! The trace identity of a run: 128 bits derived from what identifies it.

use sha2::Digest;
use vstd::prelude::*;
use vstd::string::*;
use vstd::bytes::{
    lemma_auto_spec_u32_to_from_le_bytes, spec_u32_from_le_bytes, spec_u32_to_le_bytes,
    u32_to_le_bytes,
};
use vstd::utf8::encode_utf8;
use crate::github::{Config, ConfigView};
use crate::text::{decimal_digits, hex_digits, push_decimal, push_hex};

verus! {

/// The SHA-256 digest of a sequence of bytes.
pub uninterp spec fn sha256(data: Seq<u8>) -> Seq<u8>;

/// `sha2::Sha256::digest` hashes the whole of `data` in one go and returns
/// the 32 bytes of the digest, which depend on the bytes of `data` alone.
#[verifier::external_body]
fn sha256_of(data: &Vec<u8>) -> (out: [u8; 32])
    ensures
        out@ == sha256(data@),
{
    sha2::Sha256::digest(data.as_slice()).into()
}

/// The text that identifies a run: owner, repository, workflow and run
/// identifier, with a colon between them.
pub open spec fn identity_text(config: ConfigView, run_id: u64) -> Seq<char> {
    config.owner + ":"@ + config.repository + ":"@ + config.workflow + ":"@ + decimal_digits(
        run_id as nat,
    )
}

/// What is hashed for a run: the UTF-8 bytes of its identifying text and, in
/// development mode, the four bytes of the process identifier after them,
/// lowest first.
pub open spec fn identity_input(config: ConfigView, run_id: u64, process_id: u32) -> Seq<u8> {
    if config.devel {
        encode_utf8(identity_text(config, run_id)) + spec_u32_to_le_bytes(process_id)
    } else {
        encode_utf8(identity_text(config, run_id))
    }
}

/// The number that a sequence of bytes writes, highest byte first.
pub open spec fn big_endian(bytes: Seq<u8>) -> nat
    decreases bytes.len(),
{
    if bytes.len() == 0 {
        0
    } else {
        big_endian(bytes.drop_last()) * 256 + bytes.last() as nat
    }
}

/// The identity that a digest gives: its first 16 bytes as one number.
pub open spec fn identity_of_digest(digest: Seq<u8>) -> nat {
    big_endian(digest.take(16))
}

/// The trace identity of a run.
pub open spec fn trace_identity(config: ConfigView, run_id: u64, process_id: u32) -> nat {
    identity_of_digest(sha256(identity_input(config, run_id, process_id)))
}

spec fn radix_bound(n: nat) -> nat
    decreases n,
{
    if n == 0 {
        1
    } else {
        256 * radix_bound((n - 1) as nat)
    }
}

proof fn lemma_big_endian_bound(bytes: Seq<u8>)
    ensures
        big_endian(bytes) < radix_bound(bytes.len()),
    decreases bytes.len(),
{
    if bytes.len() > 0 {
        lemma_big_endian_bound(bytes.drop_last());
    }
}

proof fn lemma_radix_bound_grows(i: nat, j: nat)
    requires
        i <= j,
    ensures
        0 < radix_bound(i) <= radix_bound(j),
    decreases j,
{
    if i < j {
        lemma_radix_bound_grows(i, (j - 1) as nat);
    } else if i > 0 {
        lemma_radix_bound_grows((i - 1) as nat, (j - 1) as nat);
    }
}

proof fn lemma_radix_bound_sixteen()
    ensures
        radix_bound(16) == 0x1_0000_0000_0000_0000_0000_0000_0000_0000,
{
    reveal_with_fuel(radix_bound, 17);
}

/// Reads the first 16 bytes of a digest as one number, highest byte first.
pub fn identity_from_digest(digest: &[u8; 32]) -> (out: u128)
    ensures
        out == identity_of_digest(digest@),
{
    let mut out: u128 = 0;
    let mut i: usize = 0;
    while i < 16
        invariant
            i <= 16,
            digest@.len() == 32,
            out == big_endian(digest@.take(i as int)),
        decreases 16 - i,
    {
        proof {
            let next = digest@.take(i + 1);
            assert(next.drop_last() == digest@.take(i as int));
            lemma_big_endian_bound(next);
            lemma_radix_bound_grows((i + 1) as nat, 16);
            lemma_radix_bound_sixteen();
        }
        out = out * 256 + digest[i] as u128;
        i = i + 1;
    }
    out
}

/// The bytes that are hashed for a run; see [`identity_input`].
pub fn form_identity_input(config: &Config, run_id: u64, process_id: u32) -> (out: Vec<u8>)
    ensures
        out@ == identity_input(config@, run_id, process_id),
{
    let mut text = String::new();
    text.append(config.owner.as_str());
    text.append(":");
    text.append(config.repository.as_str());
    text.append(":");
    text.append(config.workflow.as_str());
    text.append(":");
    push_decimal(&mut text, run_id);
    let mut out = text.as_str().as_bytes_vec();
    if config.devel {
        let tail = u32_to_le_bytes(process_id);
        let ghost head = out@;
        let mut i: usize = 0;
        while i < 4
            invariant
                i <= 4,
                tail@.len() == 4,
                out@ == head + tail@.take(i as int),
            decreases 4 - i,
        {
            out.push(tail[i]);
            i = i + 1;
        }
    }
    out
}

/// Derives the trace identity of a run: the first 128 bits of the SHA-256
/// digest of `owner:repository:workflow:run_id`. In development mode the
/// process identifier is hashed after that text, so that each process gets an
/// identity of its own; otherwise `process_id` is not looked at.
pub fn derive_trace_identity(config: &Config, run_id: u64, process_id: u32) -> (out: u128)
    ensures
        out == trace_identity(config@, run_id, process_id),
{
    let input = form_identity_input(config, run_id, process_id);
    let digest = sha256_of(&input);
    identity_from_digest(&digest)
}

/// A trace identity as text: lower-case hexadecimal, without leading zeros.
pub fn identity_hex(identity: u128) -> (out: String)
    ensures
        out@ == hex_digits(identity as nat),
{
    let mut out = String::new();
    push_hex(&mut out, identity);
    out
}

/// Outside development mode the identity of a run depends on the owner, the
/// repository, the workflow and the run identifier alone: two derivations
/// from the same four give the same identity, in whatever process.
pub proof fn lemma_identity_is_reproducible(
    config: ConfigView,
    run_id: u64,
    first_process: u32,
    second_process: u32,
)
    requires
        !config.devel,
    ensures
        trace_identity(config, run_id, first_process) == trace_identity(
            config,
            run_id,
            second_process,
        ),
{
}

/// In development mode two processes with different identifiers hash
/// different bytes for the same run.
pub proof fn lemma_processes_hash_apart(
    config: ConfigView,
    run_id: u64,
    first_process: u32,
    second_process: u32,
)
    requires
        config.devel,
        first_process != second_process,
    ensures
        identity_input(config, run_id, first_process) != identity_input(
            config,
            run_id,
            second_process,
        ),
{
    lemma_auto_spec_u32_to_from_le_bytes();
    let head = encode_utf8(identity_text(config, run_id));
    let first = spec_u32_to_le_bytes(first_process);
    let second = spec_u32_to_le_bytes(second_process);
    assert(first.len() == 4 && second.len() == 4);
    assert((head + first).skip(head.len() as int) == first);
    assert((head + second).skip(head.len() as int) == second);
}

} // verus!
