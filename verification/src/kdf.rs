//! Seeds for the two directions, derived from the shared secret.

use vstd::prelude::*;

verus! {

/// One of the two byte flows of a full-duplex connection.
#[derive(Clone, Copy, Debug, PartialEq, Eq, Structural)]
pub enum Direction {
    /// From the client to the server.
    Upload,
    /// From the server to the client.
    Download,
}

/// The BLAKE3 keyed hash of `input` under `key`, as 32 bytes.
pub uninterp spec fn blake3_keyed_hash(key: Seq<u8>, input: Seq<u8>) -> Seq<u8>;

/// The label of the upload direction: `uploadtcp` padded with `-`.
pub open spec fn upload_label() -> Seq<u8> {
    seq![117, 112, 108, 111, 97, 100, 116, 99, 112, 45, 45, 45, 45, 45, 45, 45, 45, 45, 45, 45, 45, 45, 45, 45, 45, 45, 45, 45, 45, 45, 45, 45]
}

/// The label of the download direction: `downloadtcp` padded with `-`.
pub open spec fn download_label() -> Seq<u8> {
    seq![100, 111, 119, 110, 108, 111, 97, 100, 116, 99, 112, 45, 45, 45, 45, 45, 45, 45, 45, 45, 45, 45, 45, 45, 45, 45, 45, 45, 45, 45, 45, 45]
}

/// The fixed 32-byte label that separates `dir` from the other direction.
pub open spec fn label(dir: Direction) -> Seq<u8> {
    match dir {
        Direction::Upload => upload_label(),
        Direction::Download => download_label(),
    }
}

/// The keystream seed of direction `dir` under `secret`: the keyed hash of
/// the direction's label, with the secret as the key.
pub open spec fn derived_seed(secret: Seq<u8>, dir: Direction) -> Seq<u8> {
    blake3_keyed_hash(secret, label(dir))
}

/// Hashes `input` under `key` with BLAKE3 in keyed mode.
///
/// Calls `blake3::keyed_hash` and copies the 32 bytes out of the returned
/// `Hash`. The contract claims only that the digest is a function of key and
/// input, and gives that function its name.
#[verifier::external_body]
fn keyed_hash(key: &[u8; 32], input: &[u8]) -> (digest: [u8; 32])
    ensures
        digest@ == blake3_keyed_hash(key@, input@),
{
    *blake3::keyed_hash(key, input).as_bytes()
}

/// The fixed 32-byte label of direction `dir`.
pub fn direction_label(dir: Direction) -> (bytes: [u8; 32])
    ensures
        bytes@ == label(dir),
{
    match dir {
        Direction::Upload => {
            let bytes: [u8; 32] = [117, 112, 108, 111, 97, 100, 116, 99, 112, 45, 45, 45, 45, 45, 45, 45, 45, 45, 45, 45, 45, 45, 45, 45, 45, 45, 45, 45, 45, 45, 45, 45];
            assert(bytes@ =~= upload_label());
            bytes
        },
        Direction::Download => {
            let bytes: [u8; 32] = [100, 111, 119, 110, 108, 111, 97, 100, 116, 99, 112, 45, 45, 45, 45, 45, 45, 45, 45, 45, 45, 45, 45, 45, 45, 45, 45, 45, 45, 45, 45, 45];
            assert(bytes@ =~= download_label());
            bytes
        },
    }
}

/// Derives the keystream seed of direction `dir` from the shared secret.
pub fn derive_seed(secret: &[u8; 32], dir: Direction) -> (seed: [u8; 32])
    ensures
        seed@ == derived_seed(secret@, dir),
{
    let label = direction_label(dir);
    keyed_hash(secret, &label)
}

} // verus!
