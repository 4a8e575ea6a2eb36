use obfs_tcp::keystream::Keystream;
use obfs_tcp::session::Obfuscator;
use obfs_tcp::session::RecvHalf;
use obfs_tcp::session::SendHalf;
use obfs_tcp::session::MAX_FRAME;

#[test]
fn frame_limit_is_2048() {
    assert_eq!(MAX_FRAME, 2048);
}

#[test]
fn oversized_message_is_refused_whole() {
    let secret = [3u8; 32];
    let mut sender = SendHalf::new(&secret, false);
    let mut twin = SendHalf::new(&secret, false);
    assert!(!sender.accepts(MAX_FRAME + 1));
    assert_eq!(sender.try_obfuscate(&vec![1u8; MAX_FRAME + 1]), None);
    assert_eq!(sender.try_obfuscate(&vec![1u8; 10 * MAX_FRAME]), None);
    assert_eq!(sender.position(), 0);
    assert_eq!(sender.try_obfuscate(b"next"), Some(twin.obfuscate(b"next")));
}

#[test]
fn largest_frame_is_accepted() {
    let secret = [3u8; 32];
    let mut sender = SendHalf::new(&secret, true);
    let mut twin = SendHalf::new(&secret, true);
    let msg = vec![0xeeu8; MAX_FRAME];
    assert!(sender.accepts(MAX_FRAME));
    assert_eq!(sender.try_obfuscate(&msg), Some(twin.obfuscate(&msg)));
    assert_eq!(sender.position(), MAX_FRAME as u64);
}

#[test]
fn empty_message_changes_nothing() {
    let secret = [3u8; 32];
    let mut client = Obfuscator::new(&secret, false);
    let mut twin = Obfuscator::new(&secret, false);
    assert_eq!(client.obfuscate(&[]), Vec::<u8>::new());
    assert_eq!(client.deobfuscate(&[]), Vec::<u8>::new());
    assert_eq!(client.obfuscate(b"abc"), twin.obfuscate(b"abc"));
}

#[test]
fn reads_are_not_bound_by_the_frame_limit() {
    let secret = [8u8; 32];
    let mut receiver = RecvHalf::new(&secret, true);
    let mut sender = SendHalf::new(&secret, false);
    let mut wire = Vec::new();
    let mut plain = Vec::new();
    for k in 0..3u8 {
        let msg = vec![k; MAX_FRAME];
        wire.extend(sender.obfuscate(&msg));
        plain.extend(msg);
    }
    assert!(receiver.accepts(wire.len()));
    assert_eq!(receiver.try_deobfuscate(&wire), Some(plain));
    assert_eq!(receiver.position(), 3 * MAX_FRAME as u64);
}

#[test]
fn room_ends_with_the_position_counter() {
    let ks = Keystream::starting_at([0u8; 32], u64::MAX - 10);
    assert!(ks.has_room(0));
    assert!(ks.has_room(10));
    assert!(!ks.has_room(11));
    assert!(!ks.has_room(usize::MAX));
    let fresh = Keystream::new([0u8; 32]);
    assert!(fresh.has_room(usize::MAX));
}

#[test]
fn last_bytes_of_the_keystream_can_be_used() {
    let seed = [21u8; 32];
    let mut long = Keystream::starting_at(seed, u64::MAX - 63);
    let tail = long.apply(&[0u8; 63]);
    assert_eq!(long.position(), u64::MAX);
    assert!(!long.has_room(1));
    let mut short = Keystream::starting_at(seed, u64::MAX - 10);
    let data = [0xffu8; 10];
    let out = short.apply(&data);
    let expected: Vec<u8> = tail[53..].iter().map(|k| k ^ 0xff).collect();
    assert_eq!(out, expected);
    let mut again = Keystream::starting_at(seed, u64::MAX - 10);
    assert_eq!(again.apply(&out), data.to_vec());
}

#[test]
fn position_counts_every_byte() {
    let mut ks = Keystream::new([4u8; 32]);
    assert_eq!(ks.position(), 0);
    ks.apply(&[0u8; 5]);
    ks.apply(&[0u8; 64]);
    ks.apply(&[]);
    assert_eq!(ks.position(), 69);
}

#[test]
fn endpoint_refuses_an_oversized_message_whole() {
    let secret = [3u8; 32];
    let mut client = Obfuscator::new(&secret, false);
    let mut twin = Obfuscator::new(&secret, false);
    let mut server = Obfuscator::new(&secret, true);
    assert!(client.accepts_write(MAX_FRAME));
    assert!(!client.accepts_write(MAX_FRAME + 1));
    assert_eq!(client.try_obfuscate(&vec![9u8; MAX_FRAME + 1]), None);
    assert_eq!(client.written(), 0);
    assert_eq!(client.read(), 0);
    let wire = client.try_obfuscate(b"after the refusal");
    assert_eq!(wire, Some(twin.obfuscate(b"after the refusal")));
    assert_eq!(client.written(), 17);
    assert_eq!(client.read(), 0);
    assert_eq!(server.try_deobfuscate(&wire.unwrap()), Some(b"after the refusal".to_vec()));
    assert_eq!(server.read(), 17);
    assert_eq!(server.written(), 0);
}

#[test]
fn endpoint_reads_leave_its_writes_alone() {
    let secret = [6u8; 32];
    let mut client = Obfuscator::new(&secret, false);
    let mut quiet = Obfuscator::new(&secret, false);
    let mut server = Obfuscator::new(&secret, true);
    assert!(client.accepts_read(3 * MAX_FRAME));
    for k in 0..5u8 {
        let down = server.try_obfuscate(&vec![k; 100 + k as usize]).unwrap();
        assert_eq!(client.try_deobfuscate(&down), Some(vec![k; 100 + k as usize]));
        assert_eq!(client.written(), 8 * k as u64);
        assert_eq!(client.try_obfuscate(&[k; 8]), quiet.try_obfuscate(&[k; 8]));
    }
    assert_eq!(client.read(), 510);
    assert_eq!(quiet.read(), 0);
}
