//! The two halves of an obfuscated connection and the role that binds them.

use crate::kdf::derive_seed;
use crate::kdf::derived_seed;
use crate::kdf::Direction;
use crate::keystream::Keystream;
use crate::keystream::StreamPos;
use vstd::prelude::*;

verus! {

/// The largest message, in bytes, that one write may carry.
pub const MAX_FRAME: usize = 2048;

/// The direction an endpoint sends in: a server sends downloads, a client
/// sends uploads.
pub open spec fn send_direction(is_server: bool) -> Direction {
    if is_server {
        Direction::Download
    } else {
        Direction::Upload
    }
}

/// The direction an endpoint receives in: the one its peer sends in.
pub open spec fn recv_direction(is_server: bool) -> Direction {
    send_direction(!is_server)
}

/// Whether a message of `len` bytes may be written at keystream position
/// `at`: it fits a frame and the keystream has that many bytes left.
pub open spec fn writable(at: StreamPos, len: nat) -> bool {
    len <= MAX_FRAME && at.has_room(len)
}

/// The sending side of a connection, with the keystream of its direction.
pub struct SendHalf {
    stream: Keystream,
}

impl View for SendHalf {
    type V = StreamPos;

    closed spec fn view(&self) -> StreamPos {
        self.stream@
    }
}

impl SendHalf {
    /// The sending side of an endpoint with the given secret and role,
    /// before anything was written.
    pub fn new(secret: &[u8; 32], is_server: bool) -> (half: SendHalf)
        ensures
            half@ == StreamPos::fresh(derived_seed(secret@, send_direction(is_server))),
    {
        let dir = if is_server {
            Direction::Download
        } else {
            Direction::Upload
        };
        SendHalf { stream: Keystream::new(derive_seed(secret, dir)) }
    }

    /// Number of bytes written so far.
    pub fn position(&self) -> (pos: u64)
        ensures
            pos == self@.offset,
    {
        self.stream.position()
    }

    /// Whether a message of `len` bytes may be written now.
    pub fn accepts(&self, len: usize) -> (ok: bool)
        ensures
            ok == writable(self@, len as nat),
    {
        len <= MAX_FRAME && self.stream.has_room(len)
    }

    /// Obfuscates one message: the bytes to put on the wire are the message
    /// combined with the next keystream bytes, which are thereby used up.
    pub fn obfuscate(&mut self, msg: &[u8]) -> (wire: Vec<u8>)
        requires
            writable(old(self)@, msg@.len()),
        ensures
            wire@ == old(self)@.mask(msg@),
            final(self)@ == old(self)@.advance(msg@.len()),
    {
        self.stream.apply(msg)
    }

    /// Obfuscates one message if it may be written, and otherwise leaves the
    /// keystream where it was and returns nothing.
    pub fn try_obfuscate(&mut self, msg: &[u8]) -> (wire: Option<Vec<u8>>)
        ensures
            wire is Some <==> writable(old(self)@, msg@.len()),
            wire is Some ==> wire->0@ == old(self)@.mask(msg@) && final(self)@ == old(
                self,
            )@.advance(msg@.len()),
            wire is None ==> final(self)@ == old(self)@,
    {
        if self.accepts(msg.len()) {
            Some(self.obfuscate(msg))
        } else {
            None
        }
    }
}

/// The receiving side of a connection, with the keystream of its direction.
pub struct RecvHalf {
    stream: Keystream,
}

impl View for RecvHalf {
    type V = StreamPos;

    closed spec fn view(&self) -> StreamPos {
        self.stream@
    }
}

impl RecvHalf {
    /// The receiving side of an endpoint with the given secret and role,
    /// before anything was read.
    pub fn new(secret: &[u8; 32], is_server: bool) -> (half: RecvHalf)
        ensures
            half@ == StreamPos::fresh(derived_seed(secret@, recv_direction(is_server))),
    {
        let dir = if is_server {
            Direction::Upload
        } else {
            Direction::Download
        };
        RecvHalf { stream: Keystream::new(derive_seed(secret, dir)) }
    }

    /// Number of bytes read so far.
    pub fn position(&self) -> (pos: u64)
        ensures
            pos == self@.offset,
    {
        self.stream.position()
    }

    /// Whether `len` bytes may be decoded now.
    pub fn accepts(&self, len: usize) -> (ok: bool)
        ensures
            ok == self@.has_room(len as nat),
    {
        self.stream.has_room(len)
    }

    /// Decodes bytes that came off the wire: the plain bytes are the wire
    /// bytes combined with the next keystream bytes, which are thereby used
    /// up.
    pub fn deobfuscate(&mut self, wire: &[u8]) -> (plain: Vec<u8>)
        requires
            old(self)@.has_room(wire@.len()),
        ensures
            plain@ == old(self)@.mask(wire@),
            final(self)@ == old(self)@.advance(wire@.len()),
    {
        self.stream.apply(wire)
    }

    /// Decodes bytes that came off the wire if the keystream has that many
    /// bytes left, and otherwise leaves it where it was and returns nothing.
    pub fn try_deobfuscate(&mut self, wire: &[u8]) -> (plain: Option<Vec<u8>>)
        ensures
            plain is Some <==> old(self)@.has_room(wire@.len()),
            plain is Some ==> plain->0@ == old(self)@.mask(wire@) && final(self)@ == old(
                self,
            )@.advance(wire@.len()),
            plain is None ==> final(self)@ == old(self)@,
    {
        if self.accepts(wire.len()) {
            Some(self.deobfuscate(wire))
        } else {
            None
        }
    }
}

/// Where both keystreams of an endpoint stand.
pub struct Endpoint {
    pub send: StreamPos,
    pub recv: StreamPos,
}

impl Endpoint {
    /// The state of an endpoint with the given secret and role before any
    /// byte was written or read.
    pub open spec fn start(secret: Seq<u8>, is_server: bool) -> Endpoint {
        Endpoint {
            send: StreamPos::fresh(derived_seed(secret, send_direction(is_server))),
            recv: StreamPos::fresh(derived_seed(secret, recv_direction(is_server))),
        }
    }

    /// The state after a message of `n` bytes was written.
    pub open spec fn after_write(self, n: nat) -> Endpoint {
        Endpoint { send: self.send.advance(n), recv: self.recv }
    }

    /// The state after `n` bytes were read.
    pub open spec fn after_read(self, n: nat) -> Endpoint {
        Endpoint { send: self.send, recv: self.recv.advance(n) }
    }

    /// Whether what this endpoint writes next is what `peer` decodes next:
    /// the same seed at the same position.
    pub open spec fn feeds(self, peer: Endpoint) -> bool {
        self.send == peer.recv
    }

    /// Whether the two endpoints are in step in both directions.
    pub open spec fn in_step(self, peer: Endpoint) -> bool {
        self.feeds(peer) && peer.feeds(self)
    }
}

/// Both halves of one endpoint of an obfuscated connection.
pub struct Obfuscator {
    sender: SendHalf,
    receiver: RecvHalf,
}

impl View for Obfuscator {
    type V = Endpoint;

    closed spec fn view(&self) -> Endpoint {
        Endpoint { send: self.sender@, recv: self.receiver@ }
    }
}

impl Obfuscator {
    /// Derives both keystreams from the shared secret and binds them to the
    /// send and receive sides as the role demands.
    pub fn new(secret: &[u8; 32], is_server: bool) -> (obfs: Obfuscator)
        ensures
            obfs@ == Endpoint::start(secret@, is_server),
    {
        Obfuscator {
            sender: SendHalf::new(secret, is_server),
            receiver: RecvHalf::new(secret, is_server),
        }
    }

    /// Takes the endpoint apart, so that each half can be held and advanced
    /// on its own.
    pub fn split(self) -> (halves: (SendHalf, RecvHalf))
        ensures
            halves.0@ == self@.send,
            halves.1@ == self@.recv,
    {
        (self.sender, self.receiver)
    }

    /// Number of bytes written so far.
    pub fn written(&self) -> (pos: u64)
        ensures
            pos == self@.send.offset,
    {
        self.sender.position()
    }

    /// Number of bytes read so far.
    pub fn read(&self) -> (pos: u64)
        ensures
            pos == self@.recv.offset,
    {
        self.receiver.position()
    }

    /// Whether a message of `len` bytes may be written now.
    pub fn accepts_write(&self, len: usize) -> (ok: bool)
        ensures
            ok == writable(self@.send, len as nat),
    {
        self.sender.accepts(len)
    }

    /// Whether `len` bytes may be decoded now.
    pub fn accepts_read(&self, len: usize) -> (ok: bool)
        ensures
            ok == self@.recv.has_room(len as nat),
    {
        self.receiver.accepts(len)
    }

    /// Obfuscates one message for the wire. The receiving side is untouched.
    pub fn obfuscate(&mut self, msg: &[u8]) -> (wire: Vec<u8>)
        requires
            writable(old(self)@.send, msg@.len()),
        ensures
            wire@ == old(self)@.send.mask(msg@),
            final(self)@ == old(self)@.after_write(msg@.len()),
    {
        self.sender.obfuscate(msg)
    }

    /// Decodes bytes that came off the wire. The sending side is untouched.
    pub fn deobfuscate(&mut self, wire: &[u8]) -> (plain: Vec<u8>)
        requires
            old(self)@.recv.has_room(wire@.len()),
        ensures
            plain@ == old(self)@.recv.mask(wire@),
            final(self)@ == old(self)@.after_read(wire@.len()),
    {
        self.receiver.deobfuscate(wire)
    }

    /// Obfuscates one message if it may be written, and otherwise changes
    /// nothing and returns nothing. Whatever the message, the receiving side
    /// stays where it was.
    pub fn try_obfuscate(&mut self, msg: &[u8]) -> (wire: Option<Vec<u8>>)
        ensures
            wire is Some <==> writable(old(self)@.send, msg@.len()),
            wire is Some ==> wire->0@ == old(self)@.send.mask(msg@) && final(self)@ == old(
                self,
            )@.after_write(msg@.len()),
            wire is None ==> final(self)@ == old(self)@,
            final(self)@.recv == old(self)@.recv,
    {
        self.sender.try_obfuscate(msg)
    }

    /// Decodes bytes that came off the wire if the keystream has that many
    /// bytes left, and otherwise changes nothing and returns nothing.
    /// Whatever the bytes, the sending side stays where it was.
    pub fn try_deobfuscate(&mut self, wire: &[u8]) -> (plain: Option<Vec<u8>>)
        ensures
            plain is Some <==> old(self)@.recv.has_room(wire@.len()),
            plain is Some ==> plain->0@ == old(self)@.recv.mask(wire@) && final(self)@ == old(
                self,
            )@.after_read(wire@.len()),
            plain is None ==> final(self)@ == old(self)@,
            final(self)@.send == old(self)@.send,
    {
        self.receiver.try_deobfuscate(wire)
    }
}

} // verus!
