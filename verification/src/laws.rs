//! What holds of the obfuscation as a whole: that peers decode each other,
//! that framing does not matter, and when the wire shows the plain bytes.

use crate::kdf::derived_seed;
use crate::kdf::download_label;
use crate::kdf::upload_label;
use crate::kdf::Direction;
use crate::keystream::mask;
use crate::keystream::pad;
use crate::keystream::pad_byte;
use crate::keystream::StreamPos;
use crate::session::recv_direction;
use crate::session::send_direction;
use crate::session::Endpoint;
use vstd::prelude::*;

verus! {

/// The chunks laid end to end, in order.
pub open spec fn joined(chunks: Seq<Seq<u8>>) -> Seq<u8>
    decreases chunks.len(),
{
    if chunks.len() == 0 {
        Seq::empty()
    } else {
        chunks[0] + joined(chunks.drop_first())
    }
}

/// What a keystream at position `at` turns the chunks into when they are
/// put through it one after the other, laid end to end.
pub open spec fn passed(at: StreamPos, chunks: Seq<Seq<u8>>) -> Seq<u8>
    decreases chunks.len(),
{
    if chunks.len() == 0 {
        Seq::empty()
    } else {
        at.mask(chunks[0]) + passed(at.advance(chunks[0].len()), chunks.drop_first())
    }
}

/// Masking twice with the same stretch of keystream gives the data back.
pub proof fn law_mask_involution(seed: Seq<u8>, start: int, data: Seq<u8>)
    ensures
        mask(seed, start, mask(seed, start, data)) == data,
{
    let once = mask(seed, start, data);
    let twice = mask(seed, start, once);
    assert forall|i: int| 0 <= i < data.len() implies twice[i] == data[i] by {
        let d = data[i];
        let k = pad_byte(seed, start + i);
        assert((d ^ k) ^ k == d) by (bit_vector);
    }
    assert(twice =~= data);
}

/// Masking keeps the length, and byte `k` of the result depends on byte `k`
/// of the data and byte `start + k` of the keystream alone.
pub proof fn law_mask_bytewise(seed: Seq<u8>, start: int, data: Seq<u8>, k: int)
    requires
        0 <= k < data.len(),
    ensures
        mask(seed, start, data).len() == data.len(),
        mask(seed, start, data)[k] == data[k] ^ pad_byte(seed, start + k),
{
}

/// Masking two pieces one after the other is masking them as one piece:
/// where a message is cut does not change a byte on the wire.
pub proof fn law_mask_concat(seed: Seq<u8>, start: int, a: Seq<u8>, b: Seq<u8>)
    ensures
        mask(seed, start, a + b) == mask(seed, start, a) + mask(seed, start + a.len(), b),
{
    let whole = mask(seed, start, a + b);
    let parts = mask(seed, start, a) + mask(seed, start + a.len(), b);
    assert forall|i: int| 0 <= i < whole.len() implies whole[i] == parts[i] by {
        if i < a.len() {
            assert((a + b)[i] == a[i]);
        } else {
            assert((a + b)[i] == b[i - a.len()]);
            assert(start + i == start + a.len() + (i - a.len()));
        }
    }
    assert(whole =~= parts);
}

/// The bytes on the wire equal the plain bytes exactly where every
/// keystream byte in the range is zero. So a message is changed by
/// obfuscation as soon as one keystream byte under it is not zero.
pub proof fn law_wire_shows_plain_iff_pad_zero(seed: Seq<u8>, start: int, data: Seq<u8>)
    ensures
        mask(seed, start, data) == data <==> forall|i: int|
            0 <= i < data.len() ==> #[trigger] pad(seed, start, data.len())[i] == 0,
{
    let wire = mask(seed, start, data);
    let keys = pad(seed, start, data.len());
    if forall|i: int| 0 <= i < data.len() ==> #[trigger] keys[i] == 0 {
        assert forall|i: int| 0 <= i < data.len() implies wire[i] == data[i] by {
            let d = data[i];
            let k = pad_byte(seed, start + i);
            assert(keys[i] == k);
            assert(k == 0 ==> d ^ k == d) by (bit_vector);
        }
        assert(wire =~= data);
    }
    if wire == data {
        assert forall|i: int| 0 <= i < data.len() implies #[trigger] keys[i] == 0 by {
            let d = data[i];
            let k = pad_byte(seed, start + i);
            assert(wire[i] == d ^ k);
            assert(d ^ k == d ==> k == 0) by (bit_vector);
        }
    }
}

/// Chunks put through a keystream one after the other come out as the
/// chunks laid end to end and put through it at once: byte `k` that goes in
/// is byte `k` that comes out, however the bytes were grouped.
pub proof fn law_passed_is_mask_of_joined(at: StreamPos, chunks: Seq<Seq<u8>>)
    ensures
        passed(at, chunks) == at.mask(joined(chunks)),
        passed(at, chunks).len() == joined(chunks).len(),
    decreases chunks.len(),
{
    if chunks.len() == 0 {
        assert(at.mask(joined(chunks)) =~= Seq::<u8>::empty());
    } else {
        let head = chunks[0];
        let rest = chunks.drop_first();
        law_passed_is_mask_of_joined(at.advance(head.len()), rest);
        law_mask_concat(at.seed, at.offset as int, head, joined(rest));
    }
}

/// What one endpoint writes, its peer reads back, as long as the writer's
/// send side and the reader's receive side stand at the same place; and
/// after the exchange they stand at the same place again.
pub proof fn law_round_trip(writer: Endpoint, reader: Endpoint, msg: Seq<u8>)
    requires
        writer.feeds(reader),
    ensures
        reader.recv.mask(writer.send.mask(msg)) == msg,
        writer.after_write(msg.len()).feeds(reader.after_read(msg.len())),
{
    law_mask_involution(writer.send.seed, writer.send.offset as int, msg);
}

/// A client and a server that start from the same secret are in step in
/// both directions: each one's send side is the other's receive side.
pub proof fn law_peers_start_in_step(secret: Seq<u8>)
    ensures
        Endpoint::start(secret, false).in_step(Endpoint::start(secret, true)),
        Endpoint::start(secret, false).send.seed == derived_seed(secret, Direction::Upload),
        Endpoint::start(secret, true).send.seed == derived_seed(secret, Direction::Download),
{
}

/// A message that a fresh client writes is read back by a fresh server with
/// the same secret, and the same holds from server to client.
pub proof fn law_fresh_round_trip(secret: Seq<u8>, is_server: bool, msg: Seq<u8>)
    ensures
        Endpoint::start(secret, !is_server).recv.mask(
            Endpoint::start(secret, is_server).send.mask(msg),
        ) == msg,
{
    law_round_trip(Endpoint::start(secret, is_server), Endpoint::start(secret, !is_server), msg);
}

/// Traffic in one direction leaves the other alone: reading does not move
/// what an endpoint writes next, and writing does not move what it reads
/// next. Two endpoints in step stay in step through any exchange.
pub proof fn law_directions_independent(a: Endpoint, b: Endpoint, written: nat, read: nat)
    ensures
        a.after_read(read).send == a.send,
        a.after_write(written).recv == a.recv,
        a.after_write(written).after_read(read) == a.after_read(read).after_write(written),
        a.in_step(b) ==> a.after_write(written).after_read(read).in_step(
            b.after_read(written).after_write(read),
        ),
{
}

/// A whole conversation in one direction: the writer puts `msgs` on the
/// wire one by one, and the reader takes the wire bytes off in chunks of
/// its own choosing. What the reader decodes, laid end to end, is what the
/// writer wrote, laid end to end.
pub proof fn law_stream_order(
    writer: Endpoint,
    reader: Endpoint,
    msgs: Seq<Seq<u8>>,
    chunks: Seq<Seq<u8>>,
)
    requires
        writer.feeds(reader),
        joined(chunks) == passed(writer.send, msgs),
    ensures
        passed(reader.recv, chunks) == joined(msgs),
{
    law_passed_is_mask_of_joined(writer.send, msgs);
    law_passed_is_mask_of_joined(reader.recv, chunks);
    law_mask_involution(writer.send.seed, writer.send.offset as int, joined(msgs));
}

/// The wire bytes of a sequence of messages written from a fresh endpoint
/// are fixed by the secret, the role and the plain bytes: a second
/// connection with the same three puts the same bytes on the wire.
pub proof fn law_replay(secret: Seq<u8>, is_server: bool, msgs: Seq<Seq<u8>>)
    ensures
        passed(Endpoint::start(secret, is_server).send, msgs) == mask(
            derived_seed(secret, send_direction(is_server)),
            0,
            joined(msgs),
        ),
{
    law_passed_is_mask_of_joined(Endpoint::start(secret, is_server).send, msgs);
}

/// Two seeds whose keystreams differ somewhere in a stretch turn the same
/// data laid under that stretch into different wire bytes.
pub proof fn law_different_pads_show_on_wire(
    one: Seq<u8>,
    other: Seq<u8>,
    start: int,
    data: Seq<u8>,
)
    ensures
        pad(one, start, data.len()) != pad(other, start, data.len()) <==> mask(one, start, data)
            != mask(other, start, data),
{
    let n = data.len();
    if pad(one, start, n) == pad(other, start, n) {
        assert forall|i: int| 0 <= i < n implies mask(one, start, data)[i] == mask(
            other,
            start,
            data,
        )[i] by {
            assert(pad(one, start, n)[i] == pad_byte(one, start + i));
            assert(pad(other, start, n)[i] == pad_byte(other, start + i));
        }
        assert(mask(one, start, data) =~= mask(other, start, data));
    }
    if mask(one, start, data) == mask(other, start, data) {
        assert forall|i: int| 0 <= i < n implies pad(one, start, n)[i] == pad(other, start, n)[i] by {
            let d = data[i];
            let a = pad_byte(one, start + i);
            let b = pad_byte(other, start + i);
            assert(mask(one, start, data)[i] == d ^ a);
            assert(mask(other, start, data)[i] == d ^ b);
            assert(d ^ a == d ^ b ==> a == b) by (bit_vector);
        }
        assert(pad(one, start, n) =~= pad(other, start, n));
    }
}

/// The two directions are labelled differently, and an endpoint's two
/// keystreams differ wherever the seeds derived under the two labels do.
pub proof fn law_directions_differ(secret: Seq<u8>, is_server: bool)
    ensures
        upload_label() != download_label(),
        send_direction(is_server) != recv_direction(is_server),
        derived_seed(secret, Direction::Upload) != derived_seed(secret, Direction::Download)
            <==> Endpoint::start(secret, is_server).send != Endpoint::start(
            secret,
            is_server,
        ).recv,
{
    assert(upload_label()[0] == 117u8);
    assert(download_label()[0] == 100u8);
}

} // verus!
