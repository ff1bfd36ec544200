//! Gossip discovery: eventually-consistent dissemination of peer addresses.
//!
//! Each peer signs a Note advertising its addresses under a monotonic
//! per-peer epoch (a timestamp, not the consensus epoch).  Notes are merged
//! by epoch: the higher wins, a replayed self-note bumps the local epoch
//! past it, and every change republishes the full address map.

use vstd::prelude::*;

use crate::types::PeerId;

verus! {

/// A transport address, carried as its canonical byte encoding; this layer
/// stores and forwards addresses without reading into them.
#[derive(PartialEq, Eq, Hash, Debug)]
pub struct NetworkAddress {
    pub bytes: Vec<u8>,
}

impl View for NetworkAddress {
    type V = Seq<u8>;

    open spec fn view(&self) -> Seq<u8> {
        self.bytes@
    }
}

impl NetworkAddress {
    pub fn from_bytes(bytes: Vec<u8>) -> (a: NetworkAddress)
        ensures
            a@ == bytes@,
    {
        NetworkAddress { bytes }
    }
}

impl Clone for NetworkAddress {
    fn clone(&self) -> (r: NetworkAddress)
        ensures
            r@ == self@,
    {
        NetworkAddress { bytes: copy_bytes(&self.bytes) }
    }
}

/// The views of a sequence of addresses.
pub open spec fn addr_views(s: Seq<NetworkAddress>) -> Seq<Seq<u8>> {
    s.map_values(|a: NetworkAddress| a@)
}

/// What a stored note says, mathematically.
#[verifier::ext_equal]
pub struct NoteView {
    pub peer_id: PeerId,
    pub addrs: Seq<Seq<u8>>,
    pub dns_name: Seq<u8>,
    pub epoch: u64,
}

/// A signed address advertisement: the peer, its addresses, its DNS name,
/// and the monotonic epoch the peer chose for it.  The signature is checked
/// by the transport layer outside this library.
#[derive(Debug)]
pub struct Note {
    pub peer_id: PeerId,
    pub addrs: Vec<NetworkAddress>,
    pub dns_name: Vec<u8>,
    pub epoch: u64,
}

impl View for Note {
    type V = NoteView;

    open spec fn view(&self) -> NoteView {
        NoteView {
            peer_id: self.peer_id,
            addrs: addr_views(self.addrs@),
            dns_name: self.dns_name@,
            epoch: self.epoch,
        }
    }
}

impl Note {
    pub fn new(peer_id: PeerId, addrs: Vec<NetworkAddress>, dns_name: Vec<u8>, epoch: u64) -> (n:
        Note)
        ensures
            n@ == (NoteView {
                peer_id,
                addrs: addr_views(addrs@),
                dns_name: dns_name@,
                epoch,
            }),
    {
        Note { peer_id, addrs, dns_name, epoch }
    }

    pub fn addrs(&self) -> (r: &Vec<NetworkAddress>)
        ensures
            addr_views(r@) == self@.addrs,
    {
        &self.addrs
    }

    pub fn dns_name(&self) -> (r: &Vec<u8>)
        ensures
            r@ == self@.dns_name,
    {
        &self.dns_name
    }

    pub fn epoch(&self) -> (e: u64)
        ensures
            e == self@.epoch,
    {
        self.epoch
    }
}

impl Clone for Note {
    fn clone(&self) -> (r: Note)
        ensures
            r@ == self@,
    {
        let r = Note {
            peer_id: self.peer_id,
            addrs: copy_addrs(&self.addrs),
            dns_name: copy_bytes(&self.dns_name),
            epoch: self.epoch,
        };
        proof {
            assert(r@ =~= self@);
        }
        r
    }
}

/// A batch gossip payload: the sender's whole stored map.
#[derive(Debug)]
pub struct DiscoveryMsg {
    pub notes: Vec<Note>,
}

/// The views of a sequence of notes.
pub open spec fn note_views(s: Seq<Note>) -> Seq<NoteView> {
    s.map_values(|n: Note| n@)
}

/// The mapping a stored sequence of notes denotes.
pub open spec fn notes_map_of(s: Seq<Note>) -> Map<PeerId, NoteView>
    decreases s.len(),
{
    if s.len() == 0 {
        Map::empty()
    } else {
        notes_map_of(s.drop_last()).insert(s.last().peer_id, s.last()@)
    }
}

/// No peer appears twice.
pub open spec fn unique_peers(s: Seq<Note>) -> bool {
    forall|i: int, j: int| 0 <= i < j < s.len() ==> s[i].peer_id != s[j].peer_id
}

pub proof fn lemma_notes_map_contains(s: Seq<Note>, p: PeerId)
    ensures
        notes_map_of(s).contains_key(p) <==> exists|i: int| 0 <= i < s.len() && s[i].peer_id == p,
    decreases s.len(),
{
    if s.len() > 0 {
        lemma_notes_map_contains(s.drop_last(), p);
        if s.last().peer_id == p {
            assert(s[s.len() - 1].peer_id == p);
        } else if notes_map_of(s).contains_key(p) {
            let i = choose|i: int| 0 <= i < s.drop_last().len() && s.drop_last()[i].peer_id == p;
            assert(s[i].peer_id == p);
        } else {
            assert forall|i: int| 0 <= i < s.len() implies s[i].peer_id != p by {
                if i < s.len() - 1 {
                    assert(s.drop_last()[i].peer_id == s[i].peer_id);
                }
            }
        }
    }
}

pub proof fn lemma_notes_map_lookup(s: Seq<Note>, i: int)
    requires
        unique_peers(s),
        0 <= i < s.len(),
    ensures
        notes_map_of(s).contains_key(s[i].peer_id),
        notes_map_of(s)[s[i].peer_id] == s[i]@,
    decreases s.len(),
{
    lemma_notes_map_contains(s, s[i].peer_id);
    if i < s.len() - 1 {
        assert(s.drop_last()[i] == s[i]);
        lemma_notes_map_lookup(s.drop_last(), i);
        assert(s.last().peer_id != s[i].peer_id);
    }
}

pub proof fn lemma_notes_map_update(s: Seq<Note>, i: int, n: Note)
    requires
        unique_peers(s),
        0 <= i < s.len(),
        n.peer_id == s[i].peer_id,
    ensures
        notes_map_of(s.update(i, n)) == notes_map_of(s).insert(n.peer_id, n@),
    decreases s.len(),
{
    let t = s.update(i, n);
    if i == s.len() - 1 {
        assert(t.drop_last() =~= s.drop_last());
        assert(t.last() == n);
        assert(notes_map_of(t) == notes_map_of(s.drop_last()).insert(n.peer_id, n@));
        assert(notes_map_of(s.drop_last()).insert(s.last().peer_id, s.last()@).insert(
            n.peer_id,
            n@,
        ) =~= notes_map_of(s.drop_last()).insert(n.peer_id, n@));
    } else {
        assert(t.drop_last() =~= s.drop_last().update(i, n));
        assert(t.last() == s.last());
        lemma_notes_map_update(s.drop_last(), i, n);
        assert(notes_map_of(t) == notes_map_of(s.drop_last()).insert(n.peer_id, n@).insert(
            s.last().peer_id,
            s.last()@,
        ));
        assert(s.last().peer_id != n.peer_id);
        assert(notes_map_of(s.drop_last()).insert(n.peer_id, n@).insert(
            s.last().peer_id,
            s.last()@,
        ) =~= notes_map_of(s.drop_last()).insert(s.last().peer_id, s.last()@).insert(
            n.peer_id,
            n@,
        ));
    }
}

pub proof fn lemma_notes_map_push(s: Seq<Note>, n: Note)
    ensures
        notes_map_of(s.push(n)) == notes_map_of(s).insert(n.peer_id, n@),
{
    assert(s.push(n).drop_last() =~= s);
    assert(s.push(n).last() == n);
}

/// The local peer's own identity and advertisement, fixed at construction.
pub struct SelfConfig {
    pub peer_id: PeerId,
    pub addrs: Seq<Seq<u8>>,
    pub dns_name: Seq<u8>,
}

/// The epoch a bumped self-note adopts: one past the larger of the replayed
/// epoch and the clock, saturating below the epoch counter's ceiling so the
/// stored epoch always stays strictly below `u64::MAX`.
pub open spec fn spec_bumped_epoch(e: u64, now: u64) -> u64 {
    let m = if e > now {
        e
    } else {
        now
    };
    if m <= u64::MAX - 2 {
        (m + 1) as u64
    } else {
        (u64::MAX - 1) as u64
    }
}

/// One inbound note merged into the stored map.  A replayed self-note with
/// a higher epoch bumps the local epoch while keeping the local addresses;
/// another peer's note wins exactly when its epoch is strictly higher or
/// the peer is new.
pub open spec fn spec_merge_note(
    m: Map<PeerId, NoteView>,
    cfg: SelfConfig,
    now: u64,
    n: NoteView,
) -> Map<PeerId, NoteView> {
    if n.peer_id == cfg.peer_id {
        if m.contains_key(cfg.peer_id) && n.epoch > m[cfg.peer_id].epoch {
            m.insert(
                cfg.peer_id,
                NoteView {
                    peer_id: cfg.peer_id,
                    addrs: cfg.addrs,
                    dns_name: cfg.dns_name,
                    epoch: spec_bumped_epoch(n.epoch, now),
                },
            )
        } else {
            m
        }
    } else {
        if !m.contains_key(n.peer_id) || n.epoch > m[n.peer_id].epoch {
            m.insert(n.peer_id, n)
        } else {
            m
        }
    }
}

/// A whole batch merged in order.
pub open spec fn spec_merge_msg(
    m: Map<PeerId, NoteView>,
    cfg: SelfConfig,
    now: u64,
    notes: Seq<NoteView>,
) -> Map<PeerId, NoteView>
    decreases notes.len(),
{
    if notes.len() == 0 {
        m
    } else {
        spec_merge_note(spec_merge_msg(m, cfg, now, notes.drop_last()), cfg, now, notes.last())
    }
}

/// The stored map always carries the local peer's own advertisement, each
/// entry under its own peer, and a self epoch strictly below the ceiling.
pub open spec fn map_wf(m: Map<PeerId, NoteView>, cfg: SelfConfig) -> bool {
    &&& m.contains_key(cfg.peer_id)
    &&& m[cfg.peer_id].addrs == cfg.addrs
    &&& m[cfg.peer_id].dns_name == cfg.dns_name
    &&& m[cfg.peer_id].epoch < u64::MAX
    &&& forall|p: PeerId| #[trigger] m.contains_key(p) ==> m[p].peer_id == p
}

/// Entry `b` was succeeded by `a`: either the epoch strictly advanced, or
/// nothing changed.
pub open spec fn note_newer_or_same(a: NoteView, b: NoteView) -> bool {
    a.epoch > b.epoch || a == b
}

/// `m2` extends `m1`: no entry is dropped and no epoch moves backwards.
pub open spec fn map_progresses(m1: Map<PeerId, NoteView>, m2: Map<PeerId, NoteView>) -> bool {
    &&& forall|p: PeerId| #[trigger] m1.contains_key(p) ==> m2.contains_key(p)
    &&& forall|p: PeerId| #[trigger] m1.contains_key(p) ==> note_newer_or_same(m2[p], m1[p])
}

/// Merging one note keeps the map well-formed and only moves it forward.
pub proof fn lemma_merge_note_progresses(
    m: Map<PeerId, NoteView>,
    cfg: SelfConfig,
    now: u64,
    n: NoteView,
)
    requires
        map_wf(m, cfg),
    ensures
        map_wf(spec_merge_note(m, cfg, now, n), cfg),
        map_progresses(m, spec_merge_note(m, cfg, now, n)),
{
    let m2 = spec_merge_note(m, cfg, now, n);
    if n.peer_id == cfg.peer_id {
        if m.contains_key(cfg.peer_id) && n.epoch > m[cfg.peer_id].epoch {
            let cur = m[cfg.peer_id].epoch;
            let fresh = spec_bumped_epoch(n.epoch, now);
            if fresh == cur {
                assert(m2[cfg.peer_id] =~= m[cfg.peer_id]);
            }
        }
    }
}

/// A batch merge keeps the map well-formed and only moves it forward.
pub proof fn lemma_merge_msg_progresses(
    m: Map<PeerId, NoteView>,
    cfg: SelfConfig,
    now: u64,
    notes: Seq<NoteView>,
)
    requires
        map_wf(m, cfg),
    ensures
        map_wf(spec_merge_msg(m, cfg, now, notes), cfg),
        map_progresses(m, spec_merge_msg(m, cfg, now, notes)),
    decreases notes.len(),
{
    if notes.len() > 0 {
        lemma_merge_msg_progresses(m, cfg, now, notes.drop_last());
        lemma_merge_note_progresses(
            spec_merge_msg(m, cfg, now, notes.drop_last()),
            cfg,
            now,
            notes.last(),
        );
    }
}

/// A difference survives progress: once the map moved away from `m0`, no
/// further forward step can bring it back.
pub proof fn lemma_progress_keeps_difference(
    m0: Map<PeerId, NoteView>,
    m1: Map<PeerId, NoteView>,
    m2: Map<PeerId, NoteView>,
)
    requires
        map_progresses(m0, m1),
        map_progresses(m1, m2),
        m1 != m0,
    ensures
        m2 != m0,
{
    if exists|p: PeerId| #[trigger] m1.contains_key(p) && !m0.contains_key(p) {
        let p = choose|p: PeerId| #[trigger] m1.contains_key(p) && !m0.contains_key(p);
        assert(m2.contains_key(p));
    } else {
        assert(m0.dom() =~= m1.dom());
        if forall|p: PeerId| #[trigger] m0.contains_key(p) ==> m1[p] == m0[p] {
            assert(m1 =~= m0);
        } else {
            let p = choose|p: PeerId| #[trigger] m0.contains_key(p) && m1[p] != m0[p];
            assert(note_newer_or_same(m1[p], m0[p]));
            assert(m1[p].epoch > m0[p].epoch);
            assert(note_newer_or_same(m2[p], m1[p]));
            assert(m2[p].epoch > m0[p].epoch);
        }
    }
}

/// Copies a byte vector.
fn copy_bytes(v: &Vec<u8>) -> (r: Vec<u8>)
    ensures
        r@ == v@,
{
    let mut r: Vec<u8> = Vec::new();
    let mut i: usize = 0;
    while i < v.len()
        invariant
            i <= v@.len(),
            r@ == v@.take(i as int),
        decreases v@.len() - i,
    {
        r.push(v[i]);
        proof {
            assert(r@ =~= v@.take(i as int + 1));
        }
        i += 1;
    }
    proof {
        assert(v@.take(v@.len() as int) =~= v@);
    }
    r
}

/// Copies a vector of addresses, preserving order and contents.
fn copy_addrs(v: &Vec<NetworkAddress>) -> (r: Vec<NetworkAddress>)
    ensures
        addr_views(r@) == addr_views(v@),
{
    let mut r: Vec<NetworkAddress> = Vec::new();
    let mut i: usize = 0;
    while i < v.len()
        invariant
            i <= v@.len(),
            r@.len() == i,
            forall|j: int| 0 <= j < i ==> r@[j]@ == v@[j]@,
        decreases v@.len() - i,
    {
        r.push(v[i].clone());
        i += 1;
    }
    proof {
        assert(addr_views(r@) =~= addr_views(v@));
    }
    r
}

/// Copies a vector of notes, preserving order and what each note says.
fn copy_notes(v: &Vec<Note>) -> (r: Vec<Note>)
    ensures
        note_views(r@) == note_views(v@),
{
    let mut r: Vec<Note> = Vec::new();
    let mut i: usize = 0;
    while i < v.len()
        invariant
            i <= v@.len(),
            r@.len() == i,
            forall|j: int| 0 <= j < i ==> r@[j]@ == v@[j]@,
        decreases v@.len() - i,
    {
        r.push(v[i].clone());
        i += 1;
    }
    proof {
        assert(note_views(r@) =~= note_views(v@));
    }
    r
}

/// The discovery actor's state: the local advertisement, every note heard
/// of, and the peers currently connected.  Clock readings, the tick source
/// and the network live in the surrounding loop.
#[derive(Debug)]
pub struct Discovery {
    pub peer_id: PeerId,
    pub addrs: Vec<NetworkAddress>,
    pub dns_name: Vec<u8>,
    pub note_map: Vec<Note>,
    pub connected: Vec<PeerId>,
}

impl Discovery {
    pub open spec fn spec_cfg(self) -> SelfConfig {
        SelfConfig {
            peer_id: self.peer_id,
            addrs: addr_views(self.addrs@),
            dns_name: self.dns_name@,
        }
    }

    /// The mapping `peer -> note` this state stores.
    pub open spec fn spec_notes(self) -> Map<PeerId, NoteView> {
        notes_map_of(self.note_map@)
    }

    pub open spec fn wf(self) -> bool {
        &&& unique_peers(self.note_map@)
        &&& map_wf(self.spec_notes(), self.spec_cfg())
        &&& forall|i: int, j: int|
            0 <= i < j < self.connected@.len() ==> self.connected@[i] != self.connected@[j]
        &&& !self.connected@.contains(self.peer_id)
    }

    /// The configuration part of the state is never touched by a handler.
    pub open spec fn spec_same_cfg(pre: Discovery, post: Discovery) -> bool {
        &&& post.peer_id == pre.peer_id
        &&& post.addrs == pre.addrs
        &&& post.dns_name == pre.dns_name
    }

    /// A fresh actor stores only its own note, under the current clock
    /// reading (kept below the epoch ceiling), and knows no connected peer.
    pub fn new(peer_id: PeerId, addrs: Vec<NetworkAddress>, dns_name: Vec<u8>, now_micros: u64) -> (
        d: Discovery)
        ensures
            d.wf(),
            d.peer_id == peer_id,
            addr_views(d.addrs@) == addr_views(addrs@),
            d.dns_name@ == dns_name@,
            d.connected@.len() == 0,
            d.spec_notes() == Map::<PeerId, NoteView>::empty().insert(
                peer_id,
                NoteView {
                    peer_id,
                    addrs: addr_views(addrs@),
                    dns_name: dns_name@,
                    epoch: if now_micros < u64::MAX {
                        now_micros
                    } else {
                        (u64::MAX - 1) as u64
                    },
                },
            ),
    {
        let epoch = if now_micros < u64::MAX {
            now_micros
        } else {
            u64::MAX - 1
        };
        let self_note = Note::new(peer_id, copy_addrs(&addrs), copy_bytes(&dns_name), epoch);
        let mut note_map: Vec<Note> = Vec::new();
        note_map.push(self_note);
        proof {
            assert(note_map@.drop_last() =~= Seq::<Note>::empty());
            assert(notes_map_of(Seq::<Note>::empty()) == Map::<PeerId, NoteView>::empty());
            assert(notes_map_of(note_map@) =~= Map::<PeerId, NoteView>::empty().insert(
                peer_id,
                note_map@.last()@,
            ));
        }
        Discovery { peer_id, addrs, dns_name, note_map, connected: Vec::new() }
    }

    /// All stored notes, in storage order; the full map every change
    /// republishes is read from here.
    pub fn notes(&self) -> (r: &Vec<Note>)
        ensures
            r@ == self.note_map@,
    {
        &self.note_map
    }

    /// Merges one inbound note.  The result says whether the stored map
    /// changed.
    fn handle_note(&mut self, note: &Note, now_micros: u64) -> (changed: bool)
        requires
            old(self).wf(),
        ensures
            final(self).wf(),
            Discovery::spec_same_cfg(*old(self), *final(self)),
            final(self).connected == old(self).connected,
            final(self).spec_notes() == spec_merge_note(
                old(self).spec_notes(),
                old(self).spec_cfg(),
                now_micros,
                note@,
            ),
            changed == (final(self).spec_notes() != old(self).spec_notes()),
    {
        let ghost m0 = self.spec_notes();
        if note.peer_id == self.peer_id {
            let i = match note_index(&self.note_map, &self.peer_id) {
                Some(i) => i,
                None => {
                    proof {
                        lemma_notes_map_contains(self.note_map@, self.peer_id);
                        assert(false);
                    }
                    0
                },
            };
            proof {
                lemma_notes_map_lookup(self.note_map@, i as int);
            }
            let cur = self.note_map[i].epoch;
            if note.epoch > cur {
                let mx = if note.epoch > now_micros {
                    note.epoch
                } else {
                    now_micros
                };
                let new_epoch = if mx <= u64::MAX - 2 {
                    mx + 1
                } else {
                    u64::MAX - 1
                };
                if new_epoch != cur {
                    let new_note = Note::new(
                        self.peer_id,
                        copy_addrs(&self.addrs),
                        copy_bytes(&self.dns_name),
                        new_epoch,
                    );
                    let ghost s0 = self.note_map@;
                    self.note_map.set(i, new_note);
                    proof {
                        lemma_notes_map_update(s0, i as int, self.note_map@[i as int]);
                        assert(unique_peers(self.note_map@)) by {
                            assert(forall|k: int|
                                0 <= k < s0.len() && k != i ==> self.note_map@[k]
                                    == s0[k]);
                        }
                        assert(self.spec_notes()[self.peer_id].epoch != m0[self.peer_id].epoch);
                    }
                    true
                } else {
                    // The bump saturated onto the epoch already stored; the
                    // merged entry equals the stored one.
                    proof {
                        assert(spec_merge_note(m0, self.spec_cfg(), now_micros, note@)[
                            self.peer_id
                        ] =~= m0[self.peer_id]);
                        assert(spec_merge_note(m0, self.spec_cfg(), now_micros, note@) =~= m0);
                    }
                    false
                }
            } else {
                false
            }
        } else {
            match note_index(&self.note_map, &note.peer_id) {
                Some(i) => {
                    proof {
                        lemma_notes_map_lookup(self.note_map@, i as int);
                    }
                    let cur = self.note_map[i].epoch;
                    if note.epoch > cur {
                        let ghost s0 = self.note_map@;
                        self.note_map.set(i, note.clone());
                        proof {
                            lemma_notes_map_update(s0, i as int, self.note_map@[i as int]);
                            assert(unique_peers(self.note_map@)) by {
                                assert(forall|k: int|
                                    0 <= k < s0.len() && k != i ==> self.note_map@[k]
                                        == s0[k]);
                            }
                            assert(self.spec_notes()[note.peer_id].epoch != m0[
                                note.peer_id
                            ].epoch);
                        }
                        true
                    } else {
                        false
                    }
                },
                None => {
                    proof {
                        lemma_notes_map_contains(self.note_map@, note.peer_id);
                    }
                    let ghost s0 = self.note_map@;
                    self.note_map.push(note.clone());
                    proof {
                        lemma_notes_map_push(s0, self.note_map@[s0.len() as int]);
                        assert(self.note_map@.drop_last() =~= s0);
                        assert(unique_peers(self.note_map@));
                        assert(!m0.contains_key(note.peer_id));
                        assert(self.spec_notes().contains_key(note.peer_id));
                    }
                    true
                },
            }
        }
    }

    /// Merges an inbound batch in order.  The result says whether anything
    /// changed; when it did, the loop republishes the full address map.
    pub fn handle_msg(&mut self, msg: &DiscoveryMsg, now_micros: u64) -> (changed: bool)
        requires
            old(self).wf(),
        ensures
            final(self).wf(),
            Discovery::spec_same_cfg(*old(self), *final(self)),
            final(self).connected == old(self).connected,
            final(self).spec_notes() == spec_merge_msg(
                old(self).spec_notes(),
                old(self).spec_cfg(),
                now_micros,
                note_views(msg.notes@),
            ),
            changed == (final(self).spec_notes() != old(self).spec_notes()),
    {
        let ghost m0 = self.spec_notes();
        let ghost cfg = self.spec_cfg();
        let ghost all = note_views(msg.notes@);
        let mut changed = false;
        let mut i: usize = 0;
        while i < msg.notes.len()
            invariant
                old(self).wf(),
                self.wf(),
                Discovery::spec_same_cfg(*old(self), *self),
                self.connected == old(self).connected,
                i <= msg.notes@.len(),
                m0 == old(self).spec_notes(),
                cfg == old(self).spec_cfg(),
                all == note_views(msg.notes@),
                self.spec_notes() == spec_merge_msg(m0, cfg, now_micros, all.take(i as int)),
                changed == (self.spec_notes() != m0),
            decreases msg.notes@.len() - i,
        {
            let ghost mi = self.spec_notes();
            let ch = self.handle_note(&msg.notes[i], now_micros);
            proof {
                assert(all.take(i as int + 1).drop_last() =~= all.take(i as int));
                assert(all.take(i as int + 1).last() == msg.notes@[i as int]@);
                lemma_merge_msg_progresses(m0, cfg, now_micros, all.take(i as int));
                lemma_merge_note_progresses(mi, cfg, now_micros, msg.notes@[i as int]@);
                if changed {
                    lemma_progress_keeps_difference(m0, mi, self.spec_notes());
                }
            }
            changed = changed || ch;
            i += 1;
        }
        proof {
            assert(all.take(msg.notes@.len() as int) =~= all);
        }
        changed
    }
}

impl Discovery {
    /// A transport connection to `peer` opened.  The local peer itself is
    /// never a gossip target, so it is ignored here.
    pub fn handle_new_peer(&mut self, peer: PeerId)
        requires
            old(self).wf(),
        ensures
            final(self).wf(),
            Discovery::spec_same_cfg(*old(self), *final(self)),
            final(self).note_map == old(self).note_map,
            peer == old(self).peer_id || old(self).connected@.contains(peer)
                ==> final(self).connected == old(self).connected,
            peer != old(self).peer_id && !old(self).connected@.contains(peer)
                ==> final(self).connected@ == old(self).connected@.push(peer),
    {
        if peer == self.peer_id {
            return ;
        }
        match crate::types::author_index(&self.connected, &peer) {
            Some(_) => {},
            None => {
                self.connected.push(peer);
            },
        }
    }

    /// The transport connection to `peer` closed.
    pub fn handle_lost_peer(&mut self, peer: PeerId)
        requires
            old(self).wf(),
        ensures
            final(self).wf(),
            Discovery::spec_same_cfg(*old(self), *final(self)),
            final(self).note_map == old(self).note_map,
            !old(self).connected@.contains(peer) ==> final(self).connected == old(self).connected,
            old(self).connected@.contains(peer) ==> exists|i: int|
                0 <= i < old(self).connected@.len() && old(self).connected@[i] == peer
                    && final(self).connected@ == old(self).connected@.remove(i),
            !final(self).connected@.contains(peer),
    {
        match crate::types::author_index(&self.connected, &peer) {
            Some(i) => {
                let ghost s0 = self.connected@;
                self.connected.remove(i);
                proof {
                    assert(self.connected@ == s0.remove(i as int));
                    assert forall|a: int, b: int|
                        0 <= a < b < self.connected@.len() implies self.connected@[a]
                        != self.connected@[b] by {
                        assert(self.connected@[a] == if a < i {
                            s0[a]
                        } else {
                            s0[a + 1]
                        });
                        assert(self.connected@[b] == if b < i {
                            s0[b]
                        } else {
                            s0[b + 1]
                        });
                    }
                    assert forall|q: PeerId| self.connected@.contains(q) implies s0.contains(
                        q,
                    ) by {
                        let j = choose|j: int|
                            0 <= j < self.connected@.len() && self.connected@[j] == q;
                        assert(self.connected@[j] == if j < i {
                            s0[j]
                        } else {
                            s0[j + 1]
                        });
                    }
                    assert(!self.connected@.contains(peer)) by {
                        if self.connected@.contains(peer) {
                            let j = choose|j: int|
                                0 <= j < self.connected@.len() && self.connected@[j] == peer;
                            assert(self.connected@[j] == if j < i {
                                s0[j]
                            } else {
                                s0[j + 1]
                            });
                        }
                    }
                }
            },
            None => {},
        }
    }

    /// One tick: at most one outbound message, to the picked connected
    /// peer, carrying every stored note.  `pick` comes from the loop's
    /// randomness; any value addresses some connected peer.
    pub fn compose_tick(&self, pick: usize) -> (r: Option<(PeerId, DiscoveryMsg)>)
        requires
            self.wf(),
        ensures
            r is Some <==> self.connected@.len() > 0,
            r matches Some((p, m)) ==> {
                &&& self.connected@.contains(p)
                &&& p == self.connected@[pick as int % self.connected@.len() as int]
                &&& note_views(m.notes@) == note_views(self.note_map@)
            },
    {
        if self.connected.len() == 0 {
            return None;
        }
        let idx = pick % self.connected.len();
        let peer = self.connected[idx];
        let msg = DiscoveryMsg { notes: copy_notes(&self.note_map) };
        Some((peer, msg))
    }
}

/// Replaying any older self-note never lowers the stored self epoch: a
/// bumped self-note is stable.
pub proof fn lemma_self_note_stable(
    m: Map<PeerId, NoteView>,
    cfg: SelfConfig,
    now: u64,
    notes: Seq<NoteView>,
)
    requires
        map_wf(m, cfg),
    ensures
        spec_merge_msg(m, cfg, now, notes).contains_key(cfg.peer_id),
        spec_merge_msg(m, cfg, now, notes)[cfg.peer_id].epoch >= m[cfg.peer_id].epoch,
{
    lemma_merge_msg_progresses(m, cfg, now, notes);
}

/// Every note stored locally dominates every note observed for that peer:
/// no observed epoch strictly exceeds the stored one, and stored epochs
/// never fall.  A self-note carrying the epoch ceiling itself is the one
/// exception: its stored epoch saturates just below the ceiling.
pub proof fn lemma_stored_dominates_observed(
    m: Map<PeerId, NoteView>,
    cfg: SelfConfig,
    now: u64,
    notes: Seq<NoteView>,
)
    requires
        map_wf(m, cfg),
        forall|j: int|
            0 <= j < notes.len() && notes[j].peer_id == cfg.peer_id ==> notes[j].epoch
                < u64::MAX,
    ensures
        map_progresses(m, spec_merge_msg(m, cfg, now, notes)),
        forall|j: int|
            #![trigger notes[j]]
            0 <= j < notes.len() ==> spec_merge_msg(m, cfg, now, notes).contains_key(
                notes[j].peer_id,
            ) && spec_merge_msg(m, cfg, now, notes)[notes[j].peer_id].epoch >= notes[j].epoch,
    decreases notes.len(),
{
    lemma_merge_msg_progresses(m, cfg, now, notes);
    if notes.len() > 0 {
        let prefix = notes.drop_last();
        let n = notes.last();
        let mp = spec_merge_msg(m, cfg, now, prefix);
        let merged = spec_merge_msg(m, cfg, now, notes);
        lemma_stored_dominates_observed(m, cfg, now, prefix);
        lemma_merge_msg_progresses(m, cfg, now, prefix);
        lemma_merge_note_progresses(mp, cfg, now, n);
        assert forall|j: int| 0 <= j < notes.len() implies merged.contains_key(notes[j].peer_id)
            && merged[notes[j].peer_id].epoch >= notes[j].epoch by {
            if j < notes.len() - 1 {
                assert(prefix[j] == notes[j]);
                assert(mp.contains_key(notes[j].peer_id));
                assert(note_newer_or_same(merged[notes[j].peer_id], mp[notes[j].peer_id]));
            } else {
                assert(notes[j] == n);
                if n.peer_id == cfg.peer_id {
                    let cur = mp[cfg.peer_id].epoch;
                    if n.epoch > cur {
                        assert(merged[cfg.peer_id].epoch == spec_bumped_epoch(n.epoch, now));
                    }
                }
            }
        }
    }
}

/// `m` already reflects note `n`: merging it again cannot change anything.
pub open spec fn note_covered(m: Map<PeerId, NoteView>, cfg: SelfConfig, n: NoteView) -> bool {
    &&& m.contains_key(n.peer_id)
    &&& if n.peer_id == cfg.peer_id {
        n.epoch <= m[n.peer_id].epoch || (n.epoch == u64::MAX && m[n.peer_id].epoch == u64::MAX
            - 1)
    } else {
        m[n.peer_id].epoch >= n.epoch
    }
}

/// Merging a covered note is the identity.
pub proof fn lemma_merge_covered_identity(
    m: Map<PeerId, NoteView>,
    cfg: SelfConfig,
    now: u64,
    n: NoteView,
)
    requires
        map_wf(m, cfg),
        note_covered(m, cfg, n),
    ensures
        spec_merge_note(m, cfg, now, n) == m,
{
    if n.peer_id == cfg.peer_id && n.epoch > m[cfg.peer_id].epoch {
        assert(n.epoch == u64::MAX && m[cfg.peer_id].epoch == u64::MAX - 1);
        assert(spec_bumped_epoch(n.epoch, now) == u64::MAX - 1);
        assert(spec_merge_note(m, cfg, now, n)[cfg.peer_id] =~= m[cfg.peer_id]);
        assert(spec_merge_note(m, cfg, now, n) =~= m);
    }
}

/// After a batch is merged, every note of the batch is covered.
pub proof fn lemma_merge_makes_covered(
    m: Map<PeerId, NoteView>,
    cfg: SelfConfig,
    now: u64,
    notes: Seq<NoteView>,
)
    requires
        map_wf(m, cfg),
    ensures
        forall|j: int|
            0 <= j < notes.len() ==> #[trigger] note_covered(
                spec_merge_msg(m, cfg, now, notes),
                cfg,
                notes[j],
            ),
    decreases notes.len(),
{
    if notes.len() > 0 {
        let prefix = notes.drop_last();
        let n = notes.last();
        let mp = spec_merge_msg(m, cfg, now, prefix);
        let merged = spec_merge_msg(m, cfg, now, notes);
        lemma_merge_makes_covered(m, cfg, now, prefix);
        lemma_merge_msg_progresses(m, cfg, now, prefix);
        lemma_merge_note_progresses(mp, cfg, now, n);
        assert forall|j: int| 0 <= j < notes.len() implies #[trigger] note_covered(
            merged,
            cfg,
            notes[j],
        ) by {
            if j < notes.len() - 1 {
                assert(prefix[j] == notes[j]);
                assert(note_covered(mp, cfg, notes[j]));
                assert(note_newer_or_same(merged[notes[j].peer_id], mp[notes[j].peer_id]));
                if notes[j].peer_id == cfg.peer_id {
                    assert(merged[cfg.peer_id].epoch < u64::MAX);
                }
            } else {
                assert(notes[j] == n);
                if n.peer_id == cfg.peer_id {
                    let cur = mp[cfg.peer_id].epoch;
                    if n.epoch > cur {
                        assert(merged[cfg.peer_id].epoch == spec_bumped_epoch(n.epoch, now));
                    }
                }
            }
        }
    }
}

/// Merging a batch of covered notes is the identity.
pub proof fn lemma_merge_covered_batch(
    m: Map<PeerId, NoteView>,
    cfg: SelfConfig,
    now: u64,
    notes: Seq<NoteView>,
)
    requires
        map_wf(m, cfg),
        forall|j: int| 0 <= j < notes.len() ==> #[trigger] note_covered(m, cfg, notes[j]),
    ensures
        spec_merge_msg(m, cfg, now, notes) == m,
    decreases notes.len(),
{
    if notes.len() > 0 {
        let prefix = notes.drop_last();
        assert(forall|j: int|
            0 <= j < prefix.len() ==> #[trigger] note_covered(m, cfg, prefix[j]));
        lemma_merge_covered_batch(m, cfg, now, prefix);
        assert(note_covered(m, cfg, notes.last()));
        lemma_merge_covered_identity(m, cfg, now, notes.last());
    }
}

/// Receiving the same batch of notes twice is a no-op on the second
/// delivery, whatever the clock reads by then.
pub proof fn lemma_second_delivery_noop(
    m: Map<PeerId, NoteView>,
    cfg: SelfConfig,
    now1: u64,
    now2: u64,
    notes: Seq<NoteView>,
)
    requires
        map_wf(m, cfg),
    ensures
        spec_merge_msg(spec_merge_msg(m, cfg, now1, notes), cfg, now2, notes) == spec_merge_msg(
            m,
            cfg,
            now1,
            notes,
        ),
{
    let merged = spec_merge_msg(m, cfg, now1, notes);
    lemma_merge_msg_progresses(m, cfg, now1, notes);
    lemma_merge_makes_covered(m, cfg, now1, notes);
    lemma_merge_covered_batch(merged, cfg, now2, notes);
}

/// The position of peer `p` in `notes`, or `None` when absent.
fn note_index(notes: &Vec<Note>, p: &PeerId) -> (r: Option<usize>)
    ensures
        match r {
            Some(i) => i < notes@.len() && notes@[i as int].peer_id == *p,
            None => forall|i: int| 0 <= i < notes@.len() ==> notes@[i].peer_id != *p,
        },
{
    let mut i: usize = 0;
    while i < notes.len()
        invariant
            i <= notes@.len(),
            forall|j: int| 0 <= j < i ==> notes@[j].peer_id != *p,
        decreases notes@.len() - i,
    {
        if notes[i].peer_id == *p {
            return Some(i);
        }
        i += 1;
    }
    None
}

} // verus!
