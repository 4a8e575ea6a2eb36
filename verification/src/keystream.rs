//! One direction's keystream: a seed, and how many bytes of it are spent.

use c2_chacha::stream_cipher::NewStreamCipher;
use c2_chacha::stream_cipher::SyncStreamCipher;
use c2_chacha::stream_cipher::SyncStreamCipherSeek;
use c2_chacha::ChaCha8;
use vstd::prelude::*;

verus! {

/// Length of the cipher nonce in bytes.
pub const NONCE_LEN: usize = 8;

/// Size of one cipher block in bytes.
pub const BLOCK_LEN: u64 = 64;

/// Byte `index` of the ChaCha8 keystream under `key` and `nonce`, counted
/// from the start of the stream.
pub uninterp spec fn chacha8_keystream(key: Seq<u8>, nonce: Seq<u8>, index: int) -> u8;

/// The nonce every keystream of this crate is started with.
pub open spec fn zero_nonce() -> Seq<u8> {
    Seq::new(NONCE_LEN as nat, |i: int| 0u8)
}

/// Byte `index` of the keystream that belongs to `seed`.
pub open spec fn pad_byte(seed: Seq<u8>, index: int) -> u8 {
    chacha8_keystream(seed, zero_nonce(), index)
}

/// The `len` keystream bytes of `seed` from position `start` on.
pub open spec fn pad(seed: Seq<u8>, start: int, len: nat) -> Seq<u8> {
    Seq::new(len, |i: int| pad_byte(seed, start + i))
}

/// `data` combined bytewise, by exclusive or, with the keystream of `seed`
/// from position `start` on.
pub open spec fn mask(seed: Seq<u8>, start: int, data: Seq<u8>) -> Seq<u8> {
    Seq::new(data.len(), |i: int| data[i] ^ pad_byte(seed, start + i))
}

/// Where a keystream stands: which seed it grows from and how many of its
/// bytes have been used.
pub struct StreamPos {
    pub seed: Seq<u8>,
    pub offset: nat,
}

impl StreamPos {
    /// The untouched keystream of `seed`.
    pub open spec fn fresh(seed: Seq<u8>) -> StreamPos {
        StreamPos { seed, offset: 0 }
    }

    /// The position after `n` more bytes have been used.
    pub open spec fn advance(self, n: nat) -> StreamPos {
        StreamPos { seed: self.seed, offset: self.offset + n }
    }

    /// `data` combined with the keystream bytes that come next.
    pub open spec fn mask(self, data: Seq<u8>) -> Seq<u8> {
        mask(self.seed, self.offset as int, data)
    }

    /// Whether `n` more bytes can be taken before the position counter ends.
    pub open spec fn has_room(self, n: nat) -> bool {
        self.offset + n <= u64::MAX
    }
}

/// Combines `data` in place with the ChaCha8 keystream under `key` and
/// `nonce`, starting at byte `pos` of that keystream.
///
/// Makes a `c2_chacha::ChaCha8` with `new_var`, moves it with `seek` and
/// runs `apply_keystream` over `data`. Nothing of this is proved. The
/// contract claims that the length is kept and that each byte is combined
/// by exclusive or with a keystream byte which depends on key, nonce and
/// absolute position alone. It asks for a position on a block boundary,
/// because the cipher's block bookkeeping after a seek into the middle of
/// the first block underflows a counter, and for a range that ends within
/// the 64-bit byte position.
#[verifier::external_body]
fn chacha8_xor(key: &[u8; 32], nonce: &[u8; 8], pos: u64, data: &mut Vec<u8>)
    requires
        pos % BLOCK_LEN == 0,
        pos + old(data)@.len() <= u64::MAX,
    ensures
        final(data)@.len() == old(data)@.len(),
        forall|i: int|
            0 <= i < old(data)@.len() ==> #[trigger] final(data)@[i] == old(data)@[i]
                ^ chacha8_keystream(key@, nonce@, pos + i),
{
    let mut cipher = ChaCha8::new_var(key, nonce).unwrap();
    cipher.seek(pos);
    cipher.apply_keystream(data.as_mut_slice());
}

/// A keystream generator for one direction of a connection.
pub struct Keystream {
    seed: [u8; 32],
    offset: u64,
}

impl View for Keystream {
    type V = StreamPos;

    closed spec fn view(&self) -> StreamPos {
        StreamPos { seed: self.seed@, offset: self.offset as nat }
    }
}

impl Keystream {
    /// Starts the keystream of `seed` at its first byte.
    pub fn new(seed: [u8; 32]) -> (ks: Keystream)
        ensures
            ks@ == StreamPos::fresh(seed@),
    {
        Keystream { seed, offset: 0 }
    }

    /// The keystream of `seed` with its first `offset` bytes counted as used.
    pub fn starting_at(seed: [u8; 32], offset: u64) -> (ks: Keystream)
        ensures
            ks@ == StreamPos::fresh(seed@).advance(offset as nat),
    {
        Keystream { seed, offset }
    }

    /// Number of keystream bytes used so far.
    pub fn position(&self) -> (pos: u64)
        ensures
            pos == self@.offset,
    {
        self.offset
    }

    /// Whether `n` more bytes can be taken from this keystream.
    pub fn has_room(&self, n: usize) -> (ok: bool)
        ensures
            ok == self@.has_room(n as nat),
    {
        n as u64 <= u64::MAX - self.offset
    }

    /// Combines `data` with the next `data.len()` keystream bytes and moves
    /// the position past them.
    pub fn apply(&mut self, data: &[u8]) -> (out: Vec<u8>)
        requires
            old(self)@.has_room(data@.len()),
        ensures
            out@ == old(self)@.mask(data@),
            final(self)@ == old(self)@.advance(data@.len()),
    {
        let skip: u64 = self.offset % BLOCK_LEN;
        let base: u64 = self.offset - skip;
        let nonce: [u8; 8] = [0u8; 8];
        let mut scratch: Vec<u8> = Vec::new();
        let mut k: u64 = 0;
        while k < skip
            invariant
                k <= skip,
                scratch@.len() == k,
            decreases skip - k,
        {
            scratch.push(0u8);
            k += 1;
        }
        let mut i: usize = 0;
        while i < data.len()
            invariant
                i <= data@.len(),
                scratch@.len() == skip + i,
                forall|j: int| 0 <= j < i ==> scratch@[skip + j] == data@[j],
            decreases data@.len() - i,
        {
            scratch.push(data[i]);
            i += 1;
        }
        let ghost filled = scratch@;
        chacha8_xor(&self.seed, &nonce, base, &mut scratch);
        let total: usize = scratch.len();
        let mut out: Vec<u8> = Vec::new();
        let mut i: usize = 0;
        while i < data.len()
            invariant
                i <= data@.len(),
                skip < BLOCK_LEN,
                total == skip + data@.len(),
                scratch@.len() == total,
                out@.len() == i,
                forall|j: int| 0 <= j < i ==> out@[j] == scratch@[skip + j],
            decreases data@.len() - i,
        {
            out.push(scratch[skip as usize + i]);
            i += 1;
        }
        proof {
            assert(nonce@ =~= zero_nonce());
            assert forall|j: int| 0 <= j < data@.len() implies out@[j] == data@[j] ^ pad_byte(
                self.seed@,
                self.offset + j,
            ) by {
                assert(scratch@[skip + j] == filled[skip + j] ^ chacha8_keystream(
                    self.seed@,
                    nonce@,
                    base + (skip + j),
                ));
            }
            assert(out@ =~= self@.mask(data@));
        }
        self.offset = self.offset + data.len() as u64;
        out
    }
}

} // verus!
