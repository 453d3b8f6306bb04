use vstd::prelude::*;
use std::collections::VecDeque;

use super::action::{ActionRecord, RecordView, undo_of};

verus! {

/// Marker for a world root entity. Each loaded world has one; its children are journaled.
#[derive(Clone, Debug)]
pub struct WorldRoot {
    /// Human-readable world identifier (e.g. "lobby", "arena").
    pub world_id: String,
}

/// Marker for the local root entity. Its children are not journaled or networked
/// (UI, debug gizmos, player rig, hand models).
#[derive(Clone, Copy, Debug, Default)]
pub struct LocalRoot;

/// The journal of one world: all mutations, undo/redo stacks and the network outbox.
#[derive(Debug)]
pub struct WorldJournal {
    /// Full action log for this world (append-only during a session).
    pub log: Vec<ActionRecord>,
    /// Actions that can be undone (most recent last).
    pub undo_stack: Vec<ActionRecord>,
    /// Undone actions that can be redone (most recent last).
    pub redo_stack: Vec<ActionRecord>,
    /// Actions waiting to be sent to peers.
    pub outbox: VecDeque<ActionRecord>,
    /// Next sequence number for locally-authored actions.
    pub next_sequence: u64,
    /// Maximum number of undo entries.
    pub max_undo_depth: usize,
}

/// The mathematical value of a [`WorldJournal`].
pub struct JournalView {
    pub log: Seq<RecordView>,
    pub undo_stack: Seq<RecordView>,
    pub redo_stack: Seq<RecordView>,
    pub outbox: Seq<RecordView>,
    pub next_sequence: u64,
    pub max_undo_depth: usize,
}

/// The views of a sequence of records.
pub open spec fn records_view(s: Seq<ActionRecord>) -> Seq<RecordView> {
    s.map_values(|r: ActionRecord| r@)
}

impl View for WorldJournal {
    type V = JournalView;

    open spec fn view(&self) -> JournalView {
        JournalView {
            log: records_view(self.log@),
            undo_stack: records_view(self.undo_stack@),
            redo_stack: records_view(self.redo_stack@),
            outbox: records_view(self.outbox@),
            next_sequence: self.next_sequence,
            max_undo_depth: self.max_undo_depth,
        }
    }
}

/// The last `n` elements of `s` (all of `s` if it is shorter).
pub open spec fn keep_last<A>(s: Seq<A>, n: nat) -> Seq<A> {
    if s.len() <= n {
        s
    } else {
        s.subrange(s.len() - n, s.len() as int)
    }
}

/// A locally-authored record as the journal stores it: with the given sequence number, not received.
pub open spec fn as_local(r: RecordView, seq: u64) -> RecordView {
    RecordView { sequence: seq, received: false, ..r }
}

/// The journal after recording a local action: appended to the log, the undo stack
/// (trimmed to its depth limit from the oldest end) and the outbox; redo stack cleared.
pub open spec fn after_record_local(j: JournalView, r: RecordView) -> JournalView {
    let stored = as_local(r, j.next_sequence);
    JournalView {
        log: j.log.push(stored),
        undo_stack: keep_last(j.undo_stack.push(stored), j.max_undo_depth as nat),
        redo_stack: Seq::empty(),
        outbox: j.outbox.push(stored),
        next_sequence: (j.next_sequence + 1) as u64,
        max_undo_depth: j.max_undo_depth,
    }
}

/// The journal after recording a received action: appended to the log only, marked received.
pub open spec fn after_record_received(j: JournalView, r: RecordView) -> JournalView {
    JournalView { log: j.log.push(RecordView { received: true, ..r }), ..j }
}

/// The undo record built from a record whose payload has a reverse.
pub open spec fn undo_record(r: RecordView) -> RecordView {
    RecordView {
        target: r.target,
        payload: undo_of(r.payload).unwrap(),
        author: r.author,
        timestamp_bits: r.timestamp_bits,
        sequence: 0,
        received: false,
    }
}

/// What undo returns on a journal.
pub open spec fn undo_result(j: JournalView) -> Option<RecordView> {
    if j.undo_stack.len() == 0 {
        None
    } else if undo_of(j.undo_stack.last().payload) is None {
        None
    } else {
        Some(undo_record(j.undo_stack.last()))
    }
}

/// The journal after undo: the most recent undoable action leaves the undo stack and,
/// if it has a reverse, goes onto the redo stack.
pub open spec fn after_undo(j: JournalView) -> JournalView {
    if j.undo_stack.len() == 0 {
        j
    } else if undo_of(j.undo_stack.last().payload) is None {
        JournalView { undo_stack: j.undo_stack.drop_last(), ..j }
    } else {
        JournalView {
            undo_stack: j.undo_stack.drop_last(),
            redo_stack: j.redo_stack.push(j.undo_stack.last()),
            ..j
        }
    }
}

/// What redo returns on a journal.
pub open spec fn redo_result(j: JournalView) -> Option<RecordView> {
    if j.redo_stack.len() == 0 {
        None
    } else {
        Some(j.redo_stack.last())
    }
}

/// The journal after redo: the most recent undone action moves back onto the undo stack.
pub open spec fn after_redo(j: JournalView) -> JournalView {
    if j.redo_stack.len() == 0 {
        j
    } else {
        JournalView {
            undo_stack: j.undo_stack.push(j.redo_stack.last()),
            redo_stack: j.redo_stack.drop_last(),
            ..j
        }
    }
}

/// The journal after draining its outbox.
pub open spec fn after_drain(j: JournalView) -> JournalView {
    JournalView { outbox: Seq::empty(), ..j }
}

/// The undo and redo stacks together stay within the undo depth limit.
pub open spec fn within_depth(j: JournalView) -> bool {
    j.undo_stack.len() + j.redo_stack.len() <= j.max_undo_depth
}

/// Undo right after recording a local action returns the reverse of that action
/// (as stored, with its sequence number), whenever the undo depth allows one entry.
pub proof fn law_undo_after_record(j: JournalView, r: RecordView)
    requires
        j.max_undo_depth > 0,
    ensures
        undo_result(after_record_local(j, r)) == (if undo_of(r.payload) is Some {
            Some(undo_record(as_local(r, j.next_sequence)))
        } else {
            None::<RecordView>
        }),
{
    let stored = as_local(r, j.next_sequence);
    let u = j.undo_stack.push(stored);
    let k = keep_last(u, j.max_undo_depth as nat);
    assert(k.len() > 0 && k.last() == stored);
}

/// Redo right after a successful undo returns the undone action and restores both
/// stacks (and the whole journal) to what they were before the undo.
pub proof fn law_redo_after_undo(j: JournalView)
    requires
        undo_result(j) is Some,
    ensures
        redo_result(after_undo(j)) == Some(j.undo_stack.last()),
        after_redo(after_undo(j)) == j,
{
    let a = after_undo(j);
    assert(a.redo_stack.last() == j.undo_stack.last());
    assert(a.redo_stack.drop_last() =~= j.redo_stack);
    assert(a.undo_stack.push(j.undo_stack.last()) =~= j.undo_stack);
}

/// A new local action invalidates the redo chain: redo then returns nothing.
pub proof fn law_record_clears_redo(j: JournalView, r: RecordView)
    ensures
        redo_result(after_record_local(j, r)) is None,
{
}

/// Received actions go into the log only, marked received: never into the
/// outbox or the undo and redo stacks.
pub proof fn law_received_not_sent(j: JournalView, r: RecordView)
    ensures
        after_record_received(j, r).outbox == j.outbox,
        after_record_received(j, r).undo_stack == j.undo_stack,
        after_record_received(j, r).redo_stack == j.redo_stack,
        after_record_received(j, r).log.last().received,
        after_record_received(j, r).log.len() == j.log.len() + 1,
{
}

/// Local actions get strictly increasing sequence numbers.
pub proof fn law_sequence_increases(j: JournalView, r1: RecordView, r2: RecordView)
    requires
        j.next_sequence < u64::MAX - 1,
    ensures
        after_record_local(j, r1).log.last().sequence < after_record_local(
            after_record_local(j, r1),
            r2,
        ).log.last().sequence,
{
}

/// The log is append-only: every journal operation keeps the log as a prefix.
pub proof fn law_log_append_only(j: JournalView, r: RecordView)
    ensures
        after_record_local(j, r).log.subrange(0, j.log.len() as int) == j.log,
        after_record_received(j, r).log.subrange(0, j.log.len() as int) == j.log,
        after_undo(j).log == j.log,
        after_redo(j).log == j.log,
        after_drain(j).log == j.log,
{
    assert(after_record_local(j, r).log.subrange(0, j.log.len() as int) =~= j.log);
    assert(after_record_received(j, r).log.subrange(0, j.log.len() as int) =~= j.log);
}

/// Every journal operation keeps the undo and redo stacks within the depth limit.
pub proof fn law_depth_limit_kept(j: JournalView, r: RecordView)
    requires
        within_depth(j),
    ensures
        within_depth(after_record_local(j, r)),
        within_depth(after_record_received(j, r)),
        within_depth(after_undo(j)),
        within_depth(after_redo(j)),
        within_depth(after_drain(j)),
{
}

impl WorldJournal {
    /// An empty journal with sequence numbers starting at 1 and an undo depth of 200.
    pub fn new() -> (j: WorldJournal)
        ensures
            j@.log.len() == 0,
            j@.undo_stack.len() == 0,
            j@.redo_stack.len() == 0,
            j@.outbox.len() == 0,
            j@.next_sequence == 1,
            j@.max_undo_depth == 200,
    {
        WorldJournal {
            log: Vec::new(),
            undo_stack: Vec::new(),
            redo_stack: Vec::new(),
            outbox: VecDeque::new(),
            next_sequence: 1,
            max_undo_depth: 200,
        }
    }

    /// Records a locally-authored action: pushes it to the log, the undo stack and the
    /// outbox, and clears the redo stack (a new action after undo invalidates the redo
    /// chain). Returns the sequence number assigned to it.
    pub fn record_local(&mut self, record: ActionRecord) -> (seq: u64)
        requires
            old(self).next_sequence < u64::MAX,
        ensures
            seq == old(self).next_sequence,
            final(self)@ == after_record_local(old(self)@, record@),
    {
        let mut record = record;
        let seq = self.next_sequence;
        record.sequence = seq;
        record.received = false;
        self.next_sequence = self.next_sequence + 1;

        let ghost stored = record@;
        self.log.push(record.clone());
        self.undo_stack.push(record.clone());
        self.redo_stack.clear();
        self.outbox.push_back(record);

        let ghost pushed = self.undo_stack@;
        let ghost log = self.log@;
        let ghost outbox = self.outbox@;
        let ghost next = self.next_sequence;
        let ghost max = self.max_undo_depth;
        proof {
            assert(records_view(log) =~= records_view(old(self).log@).push(stored));
            assert(records_view(outbox) =~= records_view(old(self).outbox@).push(stored));
        }
        while self.undo_stack.len() > self.max_undo_depth
            invariant
                self.log@ == log,
                self.outbox@ == outbox,
                self.redo_stack@.len() == 0,
                self.next_sequence == next,
                self.max_undo_depth == max,
                pushed.len() >= self.undo_stack@.len(),
                self.undo_stack@ == pushed.subrange(
                    pushed.len() - self.undo_stack@.len(),
                    pushed.len() as int,
                ),
                self.undo_stack@.len() >= self.max_undo_depth
                    || self.undo_stack@.len() == pushed.len(),
            decreases self.undo_stack@.len(),
        {
            self.undo_stack.remove(0);
        }
        proof {
            let n = self.max_undo_depth as nat;
            let u = records_view(pushed);
            assert(u == records_view(old(self).undo_stack@).push(stored));
            if pushed.len() <= n {
                assert(self.undo_stack@ =~= pushed);
            } else {
                assert(self.undo_stack@.len() == n);
                assert(records_view(self.undo_stack@) =~= u.subrange(u.len() - n, u.len() as int));
            }
            assert(records_view(self.redo_stack@) =~= Seq::<RecordView>::empty());
        }
        seq
    }

    /// Records an action received from a remote peer: into the log only, marked received.
    pub fn record_received(&mut self, record: ActionRecord)
        ensures
            final(self)@ == after_record_received(old(self)@, record@),
    {
        let mut record = record;
        record.received = true;
        let ghost stored = record@;
        self.log.push(record);
        proof {
            assert(records_view(self.log@) =~= records_view(old(self).log@).push(stored));
        }
    }

    /// Pops the most recent undoable action and returns its reverse, if it has one;
    /// the popped action then goes onto the redo stack.
    pub fn undo(&mut self) -> (res: Option<ActionRecord>)
        ensures
            match res {
                Some(r) => undo_result(old(self)@) == Some(r@),
                None => undo_result(old(self)@) is None,
            },
            final(self)@ == after_undo(old(self)@),
    {
        let ghost u = old(self).undo_stack@;
        let action = match self.undo_stack.pop() {
            Some(a) => a,
            None => {
                return None;
            },
        };
        proof {
            assert(records_view(self.undo_stack@) =~= records_view(u).drop_last());
            assert(records_view(u).last() == action@);
        }
        let reverse = match action.make_undo() {
            Some(r) => r,
            None => {
                return None;
            },
        };
        let ghost a = action@;
        self.redo_stack.push(action);
        proof {
            assert(records_view(self.redo_stack@) =~= records_view(old(self).redo_stack@).push(a));
        }
        Some(reverse)
    }

    /// Pops the most recent redoable action, moves it back onto the undo stack and returns it.
    pub fn redo(&mut self) -> (res: Option<ActionRecord>)
        ensures
            match res {
                Some(r) => redo_result(old(self)@) == Some(r@),
                None => redo_result(old(self)@) is None,
            },
            final(self)@ == after_redo(old(self)@),
    {
        let ghost rs = old(self).redo_stack@;
        let action = match self.redo_stack.pop() {
            Some(a) => a,
            None => {
                return None;
            },
        };
        proof {
            assert(records_view(self.redo_stack@) =~= records_view(rs).drop_last());
            assert(records_view(rs).last() == action@);
        }
        let copy = action.clone();
        let ghost a = action@;
        self.undo_stack.push(action);
        proof {
            assert(records_view(self.undo_stack@) =~= records_view(old(self).undo_stack@).push(a));
        }
        Some(copy)
    }

    /// Empties the outbox, returning all pending actions, oldest first, for network send.
    pub fn drain_outbox(&mut self) -> (out: Vec<ActionRecord>)
        ensures
            records_view(out@) == old(self)@.outbox,
            final(self)@ == after_drain(old(self)@),
    {
        let ghost ob = old(self).outbox@;
        let mut out: Vec<ActionRecord> = Vec::new();
        while self.outbox.len() > 0
            invariant
                out@ + self.outbox@ == ob,
                self.log@ == old(self).log@,
                self.undo_stack@ == old(self).undo_stack@,
                self.redo_stack@ == old(self).redo_stack@,
                self.next_sequence == old(self).next_sequence,
                self.max_undo_depth == old(self).max_undo_depth,
            decreases self.outbox@.len(),
        {
            match self.outbox.pop_front() {
                Some(r) => {
                    proof {
                        assert(out@.push(r) + self.outbox@ =~= ob);
                    }
                    out.push(r);
                },
                None => {},
            }
        }
        proof {
            assert(out@ =~= ob);
            assert(records_view(self.outbox@) =~= Seq::<RecordView>::empty());
        }
        out
    }
}

impl Default for WorldJournal {
    fn default() -> (j: WorldJournal)
        ensures
            j@.log.len() == 0,
            j@.undo_stack.len() == 0,
            j@.redo_stack.len() == 0,
            j@.outbox.len() == 0,
            j@.next_sequence == 1,
            j@.max_undo_depth == 200,
    {
        WorldJournal::new()
    }
}

/// Role within a world.
#[derive(Clone, Copy, Debug, PartialEq, Eq, Structural)]
pub enum WorldRole {
    Owner,
    Admin,
    Editor,
    Viewer,
    Blocked,
}

/// Who can save the world file.
#[derive(Clone, Debug)]
pub enum SavePolicy {
    /// Only the owner.
    OwnerOnly,
    /// The owner and the listed peers.
    Permitted(Vec<String>),
    /// Anyone who can edit.
    Anyone,
}

/// Who can do what in a world.
#[derive(Clone, Debug)]
pub struct WorldPermissions {
    /// Peer identifier of the world creator.
    pub owner: String,
    /// Who can save the world.
    pub save_policy: SavePolicy,
    /// Default role for new joiners.
    pub default_role: WorldRole,
    /// Per-peer role overrides, one entry per peer.
    pub peer_roles: Vec<(String, WorldRole)>,
}

/// The role that the first entry for `peer` gives, if any.
pub open spec fn role_override(entries: Seq<(String, WorldRole)>, peer: Seq<char>) -> Option<WorldRole>
    decreases entries.len(),
{
    if entries.len() == 0 {
        None
    } else if entries[0].0@ == peer {
        Some(entries[0].1)
    } else {
        role_override(entries.drop_first(), peer)
    }
}

/// Whether no peer has two entries.
pub open spec fn peers_unique(entries: Seq<(String, WorldRole)>) -> bool {
    forall|i: int, j: int|
        0 <= i < entries.len() && 0 <= j < entries.len() && i != j ==> #[trigger] entries[i].0@
            != #[trigger] entries[j].0@
}

/// The override is the entry at `k` when it is the first entry for `peer`.
proof fn lemma_role_override_at(entries: Seq<(String, WorldRole)>, peer: Seq<char>, k: int)
    requires
        0 <= k < entries.len(),
        entries[k].0@ == peer,
        forall|j: int| 0 <= j < k ==> #[trigger] entries[j].0@ != peer,
    ensures
        role_override(entries, peer) == Some(entries[k].1),
    decreases k,
{
    if k > 0 {
        let rest = entries.drop_first();
        assert forall|j: int| 0 <= j < k - 1 implies #[trigger] rest[j].0@ != peer by {
            assert(rest[j] == entries[j + 1]);
        }
        assert(entries[0].0@ != peer);
        lemma_role_override_at(rest, peer, k - 1);
    }
}

/// No override where no entry is for `peer`.
proof fn lemma_role_override_none(entries: Seq<(String, WorldRole)>, peer: Seq<char>)
    requires
        forall|j: int| 0 <= j < entries.len() ==> #[trigger] entries[j].0@ != peer,
    ensures
        role_override(entries, peer) is None,
    decreases entries.len(),
{
    if entries.len() > 0 {
        let rest = entries.drop_first();
        assert forall|j: int| 0 <= j < rest.len() implies #[trigger] rest[j].0@ != peer by {
            assert(rest[j] == entries[j + 1]);
        }
        assert(entries[0].0@ != peer);
        lemma_role_override_none(rest, peer);
    }
}

/// With one entry per peer, the override of a peer is the role of its entry, if it has one.
proof fn lemma_role_override_unique(entries: Seq<(String, WorldRole)>, peer: Seq<char>)
    requires
        peers_unique(entries),
    ensures
        forall|k: int| 0 <= k < entries.len() && #[trigger] entries[k].0@ == peer ==> role_override(entries, peer)
            == Some(entries[k].1),
        (forall|j: int| 0 <= j < entries.len() ==> #[trigger] entries[j].0@ != peer) ==> role_override(entries, peer) is None,
{
    assert forall|k: int| 0 <= k < entries.len() && #[trigger] entries[k].0@ == peer implies role_override(entries, peer)
        == Some(entries[k].1) by {
        assert forall|j: int| 0 <= j < k implies #[trigger] entries[j].0@ != peer by {
            assert(entries[j].0@ != entries[k].0@);
        }
        lemma_role_override_at(entries, peer, k);
    }
    if forall|j: int| 0 <= j < entries.len() ==> #[trigger] entries[j].0@ != peer {
        lemma_role_override_none(entries, peer);
    }
}

/// With one entry per peer, a peer other than the owner has exactly the role of its entry.
pub proof fn law_unique_peer_role(p: WorldPermissions, k: int)
    requires
        peers_unique(p.peer_roles@),
        0 <= k < p.peer_roles@.len(),
        p.peer_roles@[k].0@ != p.owner@,
    ensures
        p.spec_role_for(p.peer_roles@[k].0@) == p.peer_roles@[k].1,
{
    lemma_role_override_unique(p.peer_roles@, p.peer_roles@[k].0@);
}

/// Whether a role may edit the world.
pub open spec fn role_can_edit(r: WorldRole) -> bool {
    r == WorldRole::Owner || r == WorldRole::Admin || r == WorldRole::Editor
}

/// Whether a role may change permissions.
pub open spec fn role_can_admin(r: WorldRole) -> bool {
    r == WorldRole::Owner || r == WorldRole::Admin
}

/// Whether some string of the list has the text `peer`.
pub open spec fn listed(list: Seq<String>, peer: Seq<char>) -> bool {
    exists|i: int| 0 <= i < list.len() && #[trigger] list[i]@ == peer
}

/// The owner has the owner role and may edit, administer and save, whatever the policy.
pub proof fn law_owner_has_all_rights(p: WorldPermissions)
    ensures
        p.spec_role_for(p.owner@) == WorldRole::Owner,
        role_can_edit(p.spec_role_for(p.owner@)),
        role_can_admin(p.spec_role_for(p.owner@)),
        p.spec_can_save(p.owner@),
{
}

/// Every peer who may administer may also edit; viewers and blocked peers may do neither.
pub proof fn law_roles_are_ordered(r: WorldRole)
    ensures
        role_can_admin(r) ==> role_can_edit(r),
        (r == WorldRole::Viewer || r == WorldRole::Blocked) ==> !role_can_edit(r) && !role_can_admin(r),
{
}

/// Who may save follows the policy alone, whatever the roles: under "owner only" just the
/// owner; under a list, the owner and exactly the listed peers; under "anyone", exactly
/// the peers who may edit.
pub proof fn law_save_follows_policy(p: WorldPermissions, peer: Seq<char>)
    ensures
        p.save_policy is OwnerOnly ==> (p.spec_can_save(peer) <==> peer == p.owner@),
        p.save_policy matches SavePolicy::Permitted(list) ==> (p.spec_can_save(peer) <==> (
        peer == p.owner@ || exists|i: int| 0 <= i < list@.len() && #[trigger] list@[i]@ == peer)),
        p.save_policy is Anyone ==> (p.spec_can_save(peer) <==> role_can_edit(p.spec_role_for(peer))),
{
}

/// Under the "anyone" policy exactly the peers who may edit may save; under the others
/// the owner may save.
pub proof fn law_save_policy(p: WorldPermissions, peer: Seq<char>)
    ensures
        p.save_policy is Anyone ==> (p.spec_can_save(peer) == role_can_edit(p.spec_role_for(peer))),
        peer == p.owner@ ==> p.spec_can_save(peer),
{
}

impl WorldPermissions {
    /// The effective role of a peer: owner for the owner, else its override, else the default.
    pub open spec fn spec_role_for(&self, peer: Seq<char>) -> WorldRole {
        if peer == self.owner@ {
            WorldRole::Owner
        } else {
            match role_override(self.peer_roles@, peer) {
                Some(r) => r,
                None => self.default_role,
            }
        }
    }

    /// Whether a peer may save under the save policy.
    pub open spec fn spec_can_save(&self, peer: Seq<char>) -> bool {
        match self.save_policy {
            SavePolicy::OwnerOnly => peer == self.owner@,
            SavePolicy::Permitted(list) => peer == self.owner@ || listed(list@, peer),
            SavePolicy::Anyone => role_can_edit(self.spec_role_for(peer)),
        }
    }

    /// Default permissions: no owner name, owner-only saving, editors by default.
    pub fn new() -> (p: WorldPermissions)
        ensures
            p.owner@.len() == 0,
            p.save_policy is OwnerOnly,
            p.default_role == WorldRole::Editor,
            p.peer_roles@.len() == 0,
            peers_unique(p.peer_roles@),
    {
        WorldPermissions {
            owner: String::new(),
            save_policy: SavePolicy::OwnerOnly,
            default_role: WorldRole::Editor,
            peer_roles: Vec::new(),
        }
    }

    /// Gives `peer` the override `role`, replacing its entry if it has one, else adding one.
    pub fn set_peer_role(&mut self, peer: String, role: WorldRole)
        requires
            peers_unique(old(self).peer_roles@),
        ensures
            peers_unique(final(self).peer_roles@),
            final(self).owner == old(self).owner,
            final(self).save_policy == old(self).save_policy,
            final(self).default_role == old(self).default_role,
            forall|q: Seq<char>| #[trigger] role_override(final(self).peer_roles@, q) == (if q == peer@ {
                Some(role)
            } else {
                role_override(old(self).peer_roles@, q)
            }),
    {
        let ghost old_entries = self.peer_roles@;
        let mut i: usize = 0;
        while i < self.peer_roles.len()
            invariant
                i <= self.peer_roles@.len(),
                self.peer_roles@ == old_entries,
                forall|j: int| 0 <= j < i ==> #[trigger] self.peer_roles@[j].0@ != peer@,
            ensures
                i <= self.peer_roles@.len(),
                self.peer_roles@ == old_entries,
                forall|j: int| 0 <= j < i ==> #[trigger] self.peer_roles@[j].0@ != peer@,
                i < self.peer_roles@.len() ==> self.peer_roles@[i as int].0@ == peer@,
            decreases self.peer_roles@.len() - i,
        {
            if self.peer_roles[i].0 == peer {
                break;
            }
            i = i + 1;
        }
        let ghost pv = peer@;
        let found = i < self.peer_roles.len();
        if found {
            self.peer_roles.set(i, (peer, role));
        } else {
            self.peer_roles.push((peer, role));
        }
        proof {
            let e = self.peer_roles@;
            let o = old_entries;
            if found {
                assert(o[i as int].0@ == pv);
                assert(e =~= o.update(i as int, e[i as int]));
            } else {
                assert(e =~= o.push(e[o.len() as int]));
            }
            assert(e[i as int].0@ == pv && e[i as int].1 == role);
            assert(forall|j: int| 0 <= j < e.len() && j != i ==> #[trigger] e[j] == o[j]);
            assert forall|a: int, b: int|
                0 <= a < e.len() && 0 <= b < e.len() && a != b implies #[trigger] e[a].0@ != #[trigger] e[b].0@ by {
                if a != i && b != i {
                    assert(e[a] == o[a] && e[b] == o[b]);
                } else if a == i {
                    assert(e[b] == o[b]);
                    if found {
                        assert(o[a].0@ != o[b].0@);
                    }
                } else {
                    assert(e[a] == o[a]);
                    if found {
                        assert(o[a].0@ != o[b].0@);
                    }
                }
            }
            assert forall|q: Seq<char>| #[trigger] role_override(e, q) == (if q == pv {
                Some(role)
            } else {
                role_override(o, q)
            }) by {
                lemma_role_override_unique(e, q);
                lemma_role_override_unique(o, q);
                if q == pv {
                } else if exists|k: int| 0 <= k < o.len() && #[trigger] o[k].0@ == q {
                    let k = choose|k: int| 0 <= k < o.len() && #[trigger] o[k].0@ == q;
                    assert(k != i);
                    assert(e[k] == o[k]);
                } else {
                    assert forall|j: int| 0 <= j < e.len() implies #[trigger] e[j].0@ != q by {
                        if j != i {
                            assert(e[j] == o[j]);
                        }
                    }
                }
            }
        }
    }

    /// The effective role for a peer.
    pub fn role_for(&self, peer_id: &str) -> (r: WorldRole)
        ensures
            r == self.spec_role_for(peer_id@),
    {
        let peer = peer_id.to_owned();
        if peer == self.owner {
            return WorldRole::Owner;
        }
        let mut i: usize = 0;
        proof {
            assert(self.peer_roles@.subrange(0, self.peer_roles@.len() as int) =~= self.peer_roles@);
        }
        while i < self.peer_roles.len()
            invariant
                i <= self.peer_roles@.len(),
                peer@ == peer_id@,
                peer@ != self.owner@,
                role_override(self.peer_roles@, peer@) == role_override(
                    self.peer_roles@.subrange(i as int, self.peer_roles@.len() as int),
                    peer@,
                ),
            decreases self.peer_roles@.len() - i,
        {
            let ghost rest = self.peer_roles@.subrange(i as int, self.peer_roles@.len() as int);
            if self.peer_roles[i].0 == peer {
                proof {
                    assert(rest[0] == self.peer_roles@[i as int]);
                }
                return self.peer_roles[i].1;
            }
            proof {
                assert(rest.drop_first() =~= self.peer_roles@.subrange(
                    i + 1,
                    self.peer_roles@.len() as int,
                ));
            }
            i = i + 1;
        }
        proof {
            assert(self.peer_roles@.subrange(i as int, self.peer_roles@.len() as int).len() == 0);
        }
        self.default_role
    }

    /// Whether a peer can edit (add, remove or modify entities).
    pub fn can_edit(&self, peer_id: &str) -> (b: bool)
        ensures
            b == role_can_edit(self.spec_role_for(peer_id@)),
    {
        match self.role_for(peer_id) {
            WorldRole::Owner | WorldRole::Admin | WorldRole::Editor => true,
            _ => false,
        }
    }

    /// Whether a peer can save the world.
    pub fn can_save(&self, peer_id: &str) -> (b: bool)
        ensures
            b == self.spec_can_save(peer_id@),
    {
        let peer = peer_id.to_owned();
        match &self.save_policy {
            SavePolicy::OwnerOnly => peer == self.owner,
            SavePolicy::Permitted(list) => {
                if peer == self.owner {
                    return true;
                }
                let mut i: usize = 0;
                while i < list.len()
                    invariant
                        self.save_policy == SavePolicy::Permitted(*list),
                        i <= list@.len(),
                        peer@ == peer_id@,
                        forall|j: int| 0 <= j < i ==> #[trigger] list@[j]@ != peer@,
                    decreases list@.len() - i,
                {
                    if list[i] == peer {
                        proof {
                            assert(list@[i as int]@ == peer@);
                        }
                        return true;
                    }
                    i = i + 1;
                }
                false
            },
            SavePolicy::Anyone => self.can_edit(peer_id),
        }
    }

    /// Whether a peer can modify permissions (owner or admin only).
    pub fn can_admin(&self, peer_id: &str) -> (b: bool)
        ensures
            b == role_can_admin(self.spec_role_for(peer_id@)),
    {
        match self.role_for(peer_id) {
            WorldRole::Owner | WorldRole::Admin => true,
            _ => false,
        }
    }
}

impl Default for WorldPermissions {
    fn default() -> (p: WorldPermissions)
        ensures
            p.owner@.len() == 0,
            p.save_policy is OwnerOnly,
            p.default_role == WorldRole::Editor,
            p.peer_roles@.len() == 0,
            peers_unique(p.peer_roles@),
    {
        WorldPermissions::new()
    }
}

} // verus!
