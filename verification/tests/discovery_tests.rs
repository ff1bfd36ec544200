use std::collections::HashMap;

use consensus_core::discovery::Discovery;
use consensus_core::discovery::DiscoveryMsg;
use consensus_core::discovery::NetworkAddress;
use consensus_core::discovery::Note;
use consensus_core::types::Author;
use consensus_core::types::PeerId;

fn addr(s: &str) -> NetworkAddress {
    NetworkAddress::from_bytes(s.as_bytes().to_vec())
}

fn address_map(d: &Discovery) -> HashMap<PeerId, Vec<NetworkAddress>> {
    d.notes()
        .iter()
        .map(|n| (n.peer_id, n.addrs().iter().cloned().collect()))
        .collect()
}

// Behavior on receipt of an inbound DiscoveryMsg.
#[test]
fn inbound() {
    let self_peer_id = Author::from_low(1);
    let self_addrs = vec![addr("/ip4/127.0.0.1/tcp/9090")];

    let other_peer_id = Author::from_low(2);
    let other_addrs = vec![addr("/ip4/127.0.0.1/tcp/8080")];

    let new_peer_id = Author::from_low(3);
    let new_addrs = vec![addr("/ip4/127.0.0.1/tcp/7070")];

    let now = 1_000u64;
    let mut discovery = Discovery::new(
        self_peer_id,
        vec![addr("/ip4/127.0.0.1/tcp/9090")],
        b"example.com".to_vec(),
        now,
    );

    // A message from the other peer containing their discovery note.
    let other_note = Note::new(
        other_peer_id,
        vec![addr("/ip4/127.0.0.1/tcp/8080")],
        b"example.com".to_vec(),
        100, /* epoch */
    );
    let msg = DiscoveryMsg { notes: vec![other_note] };
    let changed = discovery.handle_msg(&msg, now + 1);
    assert!(changed);
    let expected: HashMap<PeerId, Vec<NetworkAddress>> =
        [(other_peer_id, other_addrs), (self_peer_id, self_addrs.clone())]
            .iter()
            .cloned()
            .collect();
    assert_eq!(expected, address_map(&discovery));

    // A second message with the new peer's note and the other peer's
    // updated note.
    let new_note = Note::new(
        new_peer_id,
        vec![addr("/ip4/127.0.0.1/tcp/7070")],
        b"example.com".to_vec(),
        200, /* epoch */
    );
    let other_addrs = vec![addr("/ip4/127.0.0.1/tcp/1234")];
    let other_note = Note::new(
        other_peer_id,
        vec![addr("/ip4/127.0.0.1/tcp/1234")],
        b"example.com".to_vec(),
        300, /* epoch */
    );
    let msg = DiscoveryMsg { notes: vec![new_note, other_note] };
    let changed = discovery.handle_msg(&msg, now + 2);
    assert!(changed);
    let expected: HashMap<PeerId, Vec<NetworkAddress>> = [
        (new_peer_id, new_addrs),
        (other_peer_id, other_addrs),
        (self_peer_id, self_addrs),
    ]
    .iter()
    .cloned()
    .collect();
    assert_eq!(expected, address_map(&discovery));
}

// The discovery actor sends a DiscoveryMsg to a neighbor on a clock tick.
#[test]
fn outbound() {
    let peer_id = Author::from_low(1);
    let addrs = vec![addr("/ip4/127.0.0.1/tcp/9090")];
    let other_peer_id = Author::from_low(2);
    let _other_peer_addr = addr("/ip4/127.0.0.1/tcp/8080");

    let mut discovery = Discovery::new(
        peer_id,
        vec![addr("/ip4/127.0.0.1/tcp/9090")],
        b"example.com".to_vec(),
        1_000,
    );
    discovery.handle_new_peer(other_peer_id);

    let (peer, msg) = discovery.compose_tick(0).expect("a connected peer must be picked");
    assert_eq!(peer, other_peer_id);
    // The message contains only the sending peer's note, since no note for
    // the other peer was received yet.
    assert_eq!(1, msg.notes.len());
    assert_eq!(peer_id, msg.notes[0].peer_id);
    assert_eq!(&addrs, msg.notes[0].addrs());
}

#[test]
fn old_note_higher_epoch() {
    let peer_id = Author::from_low(1);
    let other_peer_id = Author::from_low(2);

    let now = 1_700_000_000_000_000u64;
    let mut discovery = Discovery::new(
        peer_id,
        vec![addr("/ip4/127.0.0.1/tcp/9090")],
        b"example.com".to_vec(),
        now,
    );
    discovery.handle_new_peer(other_peer_id);

    // A replayed self-note with a higher epoch than the current note.
    let old_epoch = now + 1_000_000;
    let old_note = Note::new(
        peer_id,
        vec![addr("/ip4/127.0.0.1/tcp/9091")],
        b"example.com".to_vec(),
        old_epoch,
    );
    let msg = DiscoveryMsg { notes: vec![old_note] };
    discovery.handle_msg(&msg, now);

    let (peer, msg) = discovery.compose_tick(0).expect("a connected peer must be picked");
    assert_eq!(peer, other_peer_id);
    assert_eq!(1, msg.notes.len());
    assert_eq!(peer_id, msg.notes[0].peer_id);
    assert!(msg.notes[0].epoch() > old_epoch);
    // The bump keeps the locally configured addresses.
    assert_eq!(&vec![addr("/ip4/127.0.0.1/tcp/9090")], msg.notes[0].addrs());
}

#[test]
fn old_note_max_epoch() {
    let peer_id = Author::from_low(1);
    let other_peer_id = Author::from_low(2);

    let now = 1_700_000_000_000_000u64;
    let mut discovery = Discovery::new(
        peer_id,
        vec![addr("/ip4/127.0.0.1/tcp/9090")],
        b"example.com".to_vec(),
        now,
    );
    discovery.handle_new_peer(other_peer_id);

    // A replayed self-note carrying the largest possible epoch.
    let old_epoch = u64::MAX;
    let old_note = Note::new(
        peer_id,
        vec![addr("/ip4/127.0.0.1/tcp/9091")],
        b"example.com".to_vec(),
        old_epoch,
    );
    let msg = DiscoveryMsg { notes: vec![old_note] };
    discovery.handle_msg(&msg, now);

    let (peer, msg) = discovery.compose_tick(0).expect("a connected peer must be picked");
    assert_eq!(peer, other_peer_id);
    assert_eq!(1, msg.notes.len());
    assert_eq!(peer_id, msg.notes[0].peer_id);
    assert!(msg.notes[0].epoch() < old_epoch);
}

// Receiving the same well-formed note twice is a no-op on the second
// delivery, even at a later clock reading.
#[test]
fn second_delivery_is_noop() {
    let peer_id = Author::from_low(1);
    let other_peer_id = Author::from_low(2);
    let mut discovery =
        Discovery::new(peer_id, vec![addr("/ip4/127.0.0.1/tcp/9090")], b"example.com".to_vec(), 50);

    let note = Note::new(
        other_peer_id,
        vec![addr("/ip4/127.0.0.1/tcp/8080")],
        b"example.com".to_vec(),
        100,
    );
    let msg = DiscoveryMsg { notes: vec![note] };
    assert!(discovery.handle_msg(&msg, 60));
    let before = address_map(&discovery);
    let note = Note::new(
        other_peer_id,
        vec![addr("/ip4/127.0.0.1/tcp/8080")],
        b"example.com".to_vec(),
        100,
    );
    let msg = DiscoveryMsg { notes: vec![note] };
    assert!(!discovery.handle_msg(&msg, 70));
    assert_eq!(before, address_map(&discovery));

    // The same holds for a replayed self-note: the first delivery bumps,
    // the second changes nothing.
    let old = Note::new(peer_id, vec![addr("/ip4/127.0.0.1/tcp/9091")], b"example.com".to_vec(), 90);
    let msg = DiscoveryMsg { notes: vec![old] };
    assert!(discovery.handle_msg(&msg, 60));
    let bumped = address_map(&discovery);
    let old = Note::new(peer_id, vec![addr("/ip4/127.0.0.1/tcp/9091")], b"example.com".to_vec(), 90);
    let msg = DiscoveryMsg { notes: vec![old] };
    assert!(!discovery.handle_msg(&msg, 65));
    assert_eq!(bumped, address_map(&discovery));
}

// Replaying any older self-note never lowers the stored self epoch.
#[test]
fn bumped_self_note_is_stable() {
    let peer_id = Author::from_low(1);
    let mut discovery =
        Discovery::new(peer_id, vec![addr("/ip4/127.0.0.1/tcp/9090")], b"example.com".to_vec(), 500);

    let self_epoch = |d: &Discovery| {
        d.notes().iter().find(|n| n.peer_id == peer_id).expect("self note").epoch()
    };
    assert_eq!(500, self_epoch(&discovery));

    // Bump past a replayed higher self-note.
    let old = Note::new(peer_id, vec![addr("/ip4/127.0.0.1/tcp/9091")], b"example.com".to_vec(), 800);
    discovery.handle_msg(&DiscoveryMsg { notes: vec![old] }, 500);
    let bumped = self_epoch(&discovery);
    assert!(bumped > 800);

    // Older self-notes never lower the stored epoch again.
    for e in [0u64, 500, 800, bumped - 1, bumped] {
        let old = Note::new(
            peer_id,
            vec![addr("/ip4/127.0.0.1/tcp/9091")],
            b"example.com".to_vec(),
            e,
        );
        discovery.handle_msg(&DiscoveryMsg { notes: vec![old] }, 500);
        assert!(self_epoch(&discovery) >= bumped);
    }
}

// A bump adopts one past the larger of the replayed epoch and the clock,
// and saturates just below the epoch ceiling.
#[test]
fn self_bump_takes_successor_epoch() {
    let peer_id = Author::from_low(1);
    let mut discovery =
        Discovery::new(peer_id, vec![addr("/ip4/127.0.0.1/tcp/9090")], b"example.com".to_vec(), 1000);
    let self_epoch = |d: &Discovery| {
        d.notes().iter().find(|n| n.peer_id == peer_id).expect("self note").epoch()
    };

    let old = Note::new(peer_id, vec![addr("/ip4/127.0.0.1/tcp/9091")], b"example.com".to_vec(), 5000);
    assert!(discovery.handle_msg(&DiscoveryMsg { notes: vec![old] }, 1000));
    assert_eq!(5001, self_epoch(&discovery));

    // A replayed note near the ceiling saturates just below it ...
    let old = Note::new(
        peer_id,
        vec![addr("/ip4/127.0.0.1/tcp/9091")],
        b"example.com".to_vec(),
        u64::MAX - 1,
    );
    assert!(discovery.handle_msg(&DiscoveryMsg { notes: vec![old] }, 1000));
    assert_eq!(u64::MAX - 1, self_epoch(&discovery));

    // ... and one at the ceiling leaves the stored epoch there.
    let old = Note::new(
        peer_id,
        vec![addr("/ip4/127.0.0.1/tcp/9091")],
        b"example.com".to_vec(),
        u64::MAX,
    );
    assert!(!discovery.handle_msg(&DiscoveryMsg { notes: vec![old] }, 1000));
    assert_eq!(u64::MAX - 1, self_epoch(&discovery));
}

// Every stored note dominates every note observed for that peer.
#[test]
fn stored_note_dominates_observed() {
    let peer_id = Author::from_low(1);
    let other = Author::from_low(2);
    let mut discovery =
        Discovery::new(peer_id, vec![addr("/ip4/127.0.0.1/tcp/9090")], b"example.com".to_vec(), 10);

    let epochs = [5u64, 40, 12, 40, 3, 39];
    for e in epochs {
        let n = Note::new(other, vec![addr("/ip4/127.0.0.1/tcp/8080")], b"example.com".to_vec(), e);
        discovery.handle_msg(&DiscoveryMsg { notes: vec![n] }, 11);
        let stored = discovery
            .notes()
            .iter()
            .find(|n| n.peer_id == other)
            .expect("stored note")
            .epoch();
        assert!(epochs.iter().take_while(|x| **x != e).all(|x| stored >= *x));
        assert!(stored >= e);
    }
}

// After NewPeer with no intervening LostPeer, a tick yields at most one
// outbound message; after LostPeer the tick yields none.
#[test]
fn one_message_per_tick() {
    let peer_id = Author::from_low(1);
    let other = Author::from_low(2);
    let mut discovery =
        Discovery::new(peer_id, vec![addr("/ip4/127.0.0.1/tcp/9090")], b"example.com".to_vec(), 10);

    assert!(discovery.compose_tick(7).is_none());

    discovery.handle_new_peer(other);
    discovery.handle_new_peer(other);  // a repeated NewPeer is absorbed
    discovery.handle_new_peer(peer_id);  // the local peer is never a target
    for pick in 0..5usize {
        let (peer, _) = discovery.compose_tick(pick).expect("one message per tick");
        assert_eq!(peer, other);
    }

    discovery.handle_lost_peer(other);
    assert!(discovery.compose_tick(0).is_none());
}
