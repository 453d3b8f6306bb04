use vstd::prelude::*;

use super::descriptor::{NodeDescriptor, NodeDescriptorView};
use super::entity_id::WorldEntityId;

verus! {

/// A single journaled mutation to the world state.
/// Every user action that modifies the shared world becomes one (or a batch of) records.
#[derive(Debug)]
pub struct ActionRecord {
    /// Which entity this action targets.
    pub target: WorldEntityId,
    /// What the action does.
    pub payload: ActionPayload,
    /// Who authored this action (peer identifier).
    pub author: String,
    /// Wall-clock timestamp, seconds since the UNIX epoch, as the bit pattern of an
    /// IEEE 754 double. Used for display, not conflict resolution.
    pub timestamp_bits: u64,
    /// Monotonic sequence number from the authoring peer. Used for ordering.
    pub sequence: u64,
    /// Whether this action was received from a remote peer (true) or created locally (false).
    /// Received actions do not go into the outbox.
    pub received: bool,
}

/// The mutation payload: what kind of change an action represents.
/// Values are MessagePack-serialized bytes.
#[derive(Debug)]
pub enum ActionPayload {
    /// Set a single property on a component.
    SetProperty {
        component: String,
        field_path: String,
        value: Vec<u8>,
        previous_value: Option<Vec<u8>>,
    },
    /// Replace an entire component with new data.
    SetComponent { component: String, data: Vec<u8>, previous_data: Option<Vec<u8>> },
    /// Add a component to an entity.
    AddComponent { component: String, data: Vec<u8> },
    /// Remove a component from an entity.
    RemoveComponent { component: String, previous_data: Option<Vec<u8>> },
    /// Spawn a new entity (with optional children) under a parent (none: the world root).
    AddNode { descriptor: NodeDescriptor, parent: Option<WorldEntityId> },
    /// Delete an entity and all its descendants.
    DeleteNode { snapshot: Option<NodeDescriptor>, parent: Option<WorldEntityId> },
    /// Reparent an entity to a new parent.
    Reparent { new_parent: Option<WorldEntityId>, previous_parent: Option<Option<WorldEntityId>> },
    /// A batch of actions applied atomically: where one fails, those applied before it
    /// are rolled back.
    Batch(Vec<ActionPayload>),
}

/// The mathematical value of an [`ActionPayload`].
pub enum PayloadView {
    SetProperty {
        component: Seq<char>,
        field_path: Seq<char>,
        value: Seq<u8>,
        previous_value: Option<Seq<u8>>,
    },
    SetComponent { component: Seq<char>, data: Seq<u8>, previous_data: Option<Seq<u8>> },
    AddComponent { component: Seq<char>, data: Seq<u8> },
    RemoveComponent { component: Seq<char>, previous_data: Option<Seq<u8>> },
    AddNode { descriptor: NodeDescriptorView, parent: Option<WorldEntityId> },
    DeleteNode { snapshot: Option<NodeDescriptorView>, parent: Option<WorldEntityId> },
    Reparent { new_parent: Option<WorldEntityId>, previous_parent: Option<Option<WorldEntityId>> },
    Batch(Seq<PayloadView>),
}

/// The mathematical value of an [`ActionRecord`].
pub struct RecordView {
    pub target: WorldEntityId,
    pub payload: PayloadView,
    pub author: Seq<char>,
    pub timestamp_bits: u64,
    pub sequence: u64,
    pub received: bool,
}

/// The view of optional bytes.
pub open spec fn bytes_view(b: Option<Vec<u8>>) -> Option<Seq<u8>> {
    match b {
        Some(v) => Some(v@),
        None => None,
    }
}

/// The view of an optional descriptor.
pub open spec fn snapshot_view(d: Option<NodeDescriptor>) -> Option<NodeDescriptorView> {
    match d {
        Some(n) => Some(n@),
        None => None,
    }
}

/// The views of a sequence of payloads.
pub open spec fn payloads_view(s: Seq<ActionPayload>) -> Seq<PayloadView>
    decreases s,
{
    if s.len() == 0 {
        Seq::empty()
    } else {
        payloads_view(s.subrange(0, s.len() - 1)).push(s[s.len() - 1].model())
    }
}

impl ActionPayload {
    /// The mathematical value of this payload.
    pub open spec fn model(&self) -> PayloadView
        decreases self,
    {
        match self {
            ActionPayload::SetProperty { component, field_path, value, previous_value } =>
                PayloadView::SetProperty {
                component: component@,
                field_path: field_path@,
                value: value@,
                previous_value: bytes_view(*previous_value),
            },
            ActionPayload::SetComponent { component, data, previous_data } =>
                PayloadView::SetComponent {
                component: component@,
                data: data@,
                previous_data: bytes_view(*previous_data),
            },
            ActionPayload::AddComponent { component, data } => PayloadView::AddComponent {
                component: component@,
                data: data@,
            },
            ActionPayload::RemoveComponent { component, previous_data } =>
                PayloadView::RemoveComponent {
                component: component@,
                previous_data: bytes_view(*previous_data),
            },
            ActionPayload::AddNode { descriptor, parent } => PayloadView::AddNode {
                descriptor: descriptor@,
                parent: *parent,
            },
            ActionPayload::DeleteNode { snapshot, parent } => PayloadView::DeleteNode {
                snapshot: snapshot_view(*snapshot),
                parent: *parent,
            },
            ActionPayload::Reparent { new_parent, previous_parent } => PayloadView::Reparent {
                new_parent: *new_parent,
                previous_parent: *previous_parent,
            },
            ActionPayload::Batch(actions) => PayloadView::Batch(payloads_view(actions@)),
        }
    }
}

impl View for ActionPayload {
    type V = PayloadView;

    open spec fn view(&self) -> PayloadView {
        self.model()
    }
}

impl View for ActionRecord {
    type V = RecordView;

    open spec fn view(&self) -> RecordView {
        RecordView {
            target: self.target,
            payload: self.payload@,
            author: self.author@,
            timestamp_bits: self.timestamp_bits,
            sequence: self.sequence,
            received: self.received,
        }
    }
}

/// The reverse of a payload, used for undo; none where no previous state was captured.
/// A batch is reversed by reversing each sub-action, in reverse order.
pub open spec fn undo_of(p: PayloadView) -> Option<PayloadView>
    decreases p,
{
    match p {
        PayloadView::SetProperty { component, field_path, value, previous_value } =>
            match previous_value {
            Some(prev) => Some(
                PayloadView::SetProperty {
                    component,
                    field_path,
                    value: prev,
                    previous_value: Some(value),
                },
            ),
            None => None,
        },
        PayloadView::SetComponent { component, data, previous_data } => match previous_data {
            Some(prev) => Some(
                PayloadView::SetComponent { component, data: prev, previous_data: Some(data) },
            ),
            None => None,
        },
        PayloadView::AddComponent { component, data } => Some(
            PayloadView::RemoveComponent { component, previous_data: Some(data) },
        ),
        PayloadView::RemoveComponent { component, previous_data } => match previous_data {
            Some(prev) => Some(PayloadView::AddComponent { component, data: prev }),
            None => None,
        },
        PayloadView::AddNode { descriptor, parent } => Some(
            PayloadView::DeleteNode { snapshot: Some(descriptor), parent },
        ),
        PayloadView::DeleteNode { snapshot, parent } => match snapshot {
            Some(d) => Some(PayloadView::AddNode { descriptor: d, parent }),
            None => None,
        },
        PayloadView::Reparent { new_parent, previous_parent } => match previous_parent {
            Some(prev) => Some(
                PayloadView::Reparent { new_parent: prev, previous_parent: Some(new_parent) },
            ),
            None => None,
        },
        PayloadView::Batch(actions) => match undo_all(actions) {
            Some(reversed) => Some(PayloadView::Batch(reversed)),
            None => None,
        },
    }
}

/// The reverses of a sequence of payloads, last first; none if any has no reverse.
pub open spec fn undo_all(s: Seq<PayloadView>) -> Option<Seq<PayloadView>>
    decreases s,
{
    if s.len() == 0 {
        Some(Seq::empty())
    } else {
        match (undo_of(s[s.len() - 1]), undo_all(s.subrange(0, s.len() - 1))) {
            (Some(head), Some(rest)) => Some(seq![head] + rest),
            _ => None,
        }
    }
}

/// `undo_all` reverses each element, in reverse order, and fails exactly when one fails.
pub proof fn lemma_undo_all(s: Seq<PayloadView>)
    ensures
        undo_all(s) is Some <==> (forall|k: int| 0 <= k < s.len() ==> #[trigger] undo_of(s[k]) is Some),
        undo_all(s) matches Some(t) ==> {
            &&& t.len() == s.len()
            &&& forall|j: int| 0 <= j < s.len() ==> Some(#[trigger] t[j]) == undo_of(s[s.len() - 1 - j])
        },
    decreases s.len(),
{
    if s.len() > 0 {
        let init = s.subrange(0, s.len() - 1);
        lemma_undo_all(init);
        let last = s[s.len() - 1];
        assert(undo_of(last) == undo_of(s[s.len() - 1]));
        if !(forall|k: int| 0 <= k < s.len() ==> #[trigger] undo_of(s[k]) is Some) {
            let k = choose|k: int| 0 <= k < s.len() && !(#[trigger] undo_of(s[k]) is Some);
            if k < s.len() - 1 {
                assert(init[k] == s[k]);
            }
        } else {
            assert forall|k: int| 0 <= k < init.len() implies #[trigger] undo_of(init[k]) is Some by {
                assert(init[k] == s[k]);
            }
            assert(undo_of(s[s.len() - 1]) is Some);
        }
    }
}

/// The views of a sequence of payloads have the same length and are the elements' views.
pub proof fn lemma_payloads_view_index(s: Seq<ActionPayload>)
    ensures
        payloads_view(s).len() == s.len(),
        forall|i: int| 0 <= i < s.len() ==> #[trigger] payloads_view(s)[i] == s[i].model(),
    decreases s.len(),
{
    if s.len() > 0 {
        lemma_payloads_view_index(s.subrange(0, s.len() - 1));
    }
}

/// Two sequences of payloads with elementwise equal views have equal views.
proof fn lemma_payloads_view_ext(a: Seq<ActionPayload>, b: Seq<ActionPayload>)
    requires
        a.len() == b.len(),
        forall|i: int| 0 <= i < a.len() ==> #[trigger] a[i].model() == b[i].model(),
    ensures
        payloads_view(a) == payloads_view(b),
{
    lemma_payloads_view_index(a);
    lemma_payloads_view_index(b);
    assert(payloads_view(a) =~= payloads_view(b));
}

/// The reverse of a change acts on the same thing and swaps old and new: a property or
/// component change keeps its component (and field path) and sets back the previous
/// value, recording the current one as its previous; an added component is removed and
/// a removed one added back with its previous data; an added node is deleted under the
/// same parent and a deleted one re-added from its snapshot; a reparenting moves back to
/// the previous parent. A change without its previous state has no reverse.
pub proof fn law_undo_swaps_old_and_new(p: PayloadView)
    ensures
        p matches PayloadView::SetProperty { component, field_path, value, previous_value: Some(prev) }
            ==> undo_of(p) == Some(
            PayloadView::SetProperty { component, field_path, value: prev, previous_value: Some(value) },
        ),
        p matches PayloadView::SetComponent { component, data, previous_data: Some(prev) }
            ==> undo_of(p) == Some(
            PayloadView::SetComponent { component, data: prev, previous_data: Some(data) },
        ),
        p matches PayloadView::AddComponent { component, data } ==> undo_of(p) == Some(
            PayloadView::RemoveComponent { component, previous_data: Some(data) },
        ),
        p matches PayloadView::RemoveComponent { component, previous_data: Some(prev) }
            ==> undo_of(p) == Some(PayloadView::AddComponent { component, data: prev }),
        p matches PayloadView::AddNode { descriptor, parent } ==> undo_of(p) == Some(
            PayloadView::DeleteNode { snapshot: Some(descriptor), parent },
        ),
        p matches PayloadView::DeleteNode { snapshot: Some(d), parent } ==> undo_of(p) == Some(
            PayloadView::AddNode { descriptor: d, parent },
        ),
        p matches PayloadView::Reparent { new_parent, previous_parent: Some(prev) } ==> undo_of(p)
            == Some(PayloadView::Reparent { new_parent: prev, previous_parent: Some(new_parent) }),
        (p matches PayloadView::SetProperty { previous_value: None, .. }
            || p matches PayloadView::SetComponent { previous_data: None, .. }
            || p matches PayloadView::RemoveComponent { previous_data: None, .. }
            || p matches PayloadView::DeleteNode { snapshot: None, .. }
            || p matches PayloadView::Reparent { previous_parent: None, .. }) ==> undo_of(p) is None,
{
}

/// Undo is an involution: where a payload has a reverse, the reverse of that
/// reverse is the payload itself.
pub proof fn law_undo_of_undo(p: PayloadView)
    ensures
        undo_of(p) matches Some(q) ==> undo_of(q) == Some(p),
    decreases p,
{
    if let PayloadView::Batch(s) = p {
        if let Some(t) = undo_all(s) {
            lemma_undo_all(s);
            let n = s.len();
            assert forall|k: int| 0 <= k < n implies #[trigger] undo_of(t[k]) == Some(s[n - 1 - k]) by {
                assert(Some(t[k]) == undo_of(s[n - 1 - k]));
                law_undo_of_undo(s[n - 1 - k]);
            }
            assert forall|k: int| 0 <= k < t.len() implies #[trigger] undo_of(t[k]) is Some by {
                assert(undo_of(t[k]) == Some(s[n - 1 - k]));
            }
            lemma_undo_all(t);
            let u = undo_all(t).unwrap();
            assert forall|j: int| 0 <= j < n implies u[j] == s[j] by {
                assert(Some(u[j]) == undo_of(t[n - 1 - j]));
                assert(undo_of(t[n - 1 - j]) == Some(s[n - 1 - (n - 1 - j)]));
            }
            assert(u =~= s);
        }
    }
}

/// Copies optional bytes.
fn clone_bytes(b: &Option<Vec<u8>>) -> (res: Option<Vec<u8>>)
    ensures
        bytes_view(res) == bytes_view(*b),
{
    match b {
        Some(v) => Some(v.clone()),
        None => None,
    }
}

/// Copies an optional descriptor.
fn clone_snapshot(d: &Option<NodeDescriptor>) -> (res: Option<NodeDescriptor>)
    ensures
        snapshot_view(res) == snapshot_view(*d),
{
    match d {
        Some(n) => Some(n.clone()),
        None => None,
    }
}

impl ActionPayload {
    /// A copy of the payload, batches included.
    fn clone_payload(&self) -> (res: ActionPayload)
        ensures
            res@ == self@,
        decreases self,
    {
        match self {
            ActionPayload::SetProperty { component, field_path, value, previous_value } =>
                ActionPayload::SetProperty {
                component: component.clone(),
                field_path: field_path.clone(),
                value: value.clone(),
                previous_value: clone_bytes(previous_value),
            },
            ActionPayload::SetComponent { component, data, previous_data } =>
                ActionPayload::SetComponent {
                component: component.clone(),
                data: data.clone(),
                previous_data: clone_bytes(previous_data),
            },
            ActionPayload::AddComponent { component, data } => ActionPayload::AddComponent {
                component: component.clone(),
                data: data.clone(),
            },
            ActionPayload::RemoveComponent { component, previous_data } =>
                ActionPayload::RemoveComponent {
                component: component.clone(),
                previous_data: clone_bytes(previous_data),
            },
            ActionPayload::AddNode { descriptor, parent } => ActionPayload::AddNode {
                descriptor: descriptor.clone(),
                parent: *parent,
            },
            ActionPayload::DeleteNode { snapshot, parent } => ActionPayload::DeleteNode {
                snapshot: clone_snapshot(snapshot),
                parent: *parent,
            },
            ActionPayload::Reparent { new_parent, previous_parent } => ActionPayload::Reparent {
                new_parent: *new_parent,
                previous_parent: *previous_parent,
            },
            ActionPayload::Batch(actions) => {
                let mut out: Vec<ActionPayload> = Vec::new();
                let mut i: usize = 0;
                while i < actions.len()
                    invariant
                        *self == ActionPayload::Batch(*actions),
                        i <= actions@.len(),
                        out@.len() == i,
                        forall|j: int| 0 <= j < i ==> #[trigger] out@[j].model() == actions@[j].model(),
                    decreases actions@.len() - i,
                {
                    proof {
                        assert(decreases_to!(*self => self->Batch_0));
                        assert(self->Batch_0 == *actions);
                        assert(decreases_to!(*actions => actions@));
                        assert(decreases_to!(actions@ => actions@[i as int]));
                    }
                    let c = actions[i].clone_payload();
                    out.push(c);
                    i = i + 1;
                }
                proof {
                    lemma_payloads_view_ext(out@, actions@);
                }
                ActionPayload::Batch(out)
            },
        }
    }

    /// The reverse of this payload (see [`undo_of`]).
    pub(crate) fn undo_payload(&self) -> (res: Option<ActionPayload>)
        ensures
            match res {
                Some(q) => undo_of(self@) == Some(q@),
                None => undo_of(self@) is None,
            },
        decreases self,
    {
        match self {
            ActionPayload::SetProperty { component, field_path, value, previous_value } =>
                match previous_value {
                Some(prev) => Some(
                    ActionPayload::SetProperty {
                        component: component.clone(),
                        field_path: field_path.clone(),
                        value: prev.clone(),
                        previous_value: Some(value.clone()),
                    },
                ),
                None => None,
            },
            ActionPayload::SetComponent { component, data, previous_data } =>
                match previous_data {
                Some(prev) => Some(
                    ActionPayload::SetComponent {
                        component: component.clone(),
                        data: prev.clone(),
                        previous_data: Some(data.clone()),
                    },
                ),
                None => None,
            },
            ActionPayload::AddComponent { component, data } => Some(
                ActionPayload::RemoveComponent {
                    component: component.clone(),
                    previous_data: Some(data.clone()),
                },
            ),
            ActionPayload::RemoveComponent { component, previous_data } =>
                match previous_data {
                Some(prev) => Some(
                    ActionPayload::AddComponent { component: component.clone(), data: prev.clone() },
                ),
                None => None,
            },
            ActionPayload::AddNode { descriptor, parent } => Some(
                ActionPayload::DeleteNode { snapshot: Some(descriptor.clone()), parent: *parent },
            ),
            ActionPayload::DeleteNode { snapshot, parent } => match snapshot {
                Some(d) => Some(ActionPayload::AddNode { descriptor: d.clone(), parent: *parent }),
                None => None,
            },
            ActionPayload::Reparent { new_parent, previous_parent } => match previous_parent {
                Some(prev) => Some(
                    ActionPayload::Reparent { new_parent: *prev, previous_parent: Some(*new_parent) },
                ),
                None => None,
            },
            ActionPayload::Batch(actions) => {
                let ghost s = payloads_view(actions@);
                let ghost n = actions@.len() as int;
                proof {
                    lemma_payloads_view_index(actions@);
                    lemma_undo_all(s);
                }
                let mut out: Vec<ActionPayload> = Vec::new();
                let mut i: usize = actions.len();
                while i > 0
                    invariant
                        *self == ActionPayload::Batch(*actions),
                        i <= n,
                        n == actions@.len(),
                        s == payloads_view(actions@),
                        s.len() == n,
                        forall|k: int| 0 <= k < n ==> #[trigger] s[k] == actions@[k].model(),
                        out@.len() == n - i,
                        forall|k: int| i <= k < n ==> #[trigger] undo_of(s[k]) is Some,
                        forall|j: int| 0 <= j < n - i ==> Some(#[trigger] out@[j].model()) == undo_of(s[n - 1 - j]),
                    decreases i,
                {
                    let r = actions[i - 1].undo_payload();
                    match r {
                        Some(q) => {
                            out.push(q);
                            i = i - 1;
                        },
                        None => {
                            proof {
                                lemma_undo_all(s);
                                assert(undo_of(s[i - 1]) is None);
                            }
                            return None;
                        },
                    }
                }
                proof {
                    lemma_payloads_view_index(out@);
                    let t = undo_all(s).unwrap();
                    assert(payloads_view(out@) =~= t);
                }
                Some(ActionPayload::Batch(out))
            },
        }
    }
}

impl Clone for ActionPayload {
    fn clone(&self) -> (res: Self)
        ensures
            res@ == self@,
    {
        self.clone_payload()
    }
}

impl Clone for ActionRecord {
    fn clone(&self) -> (res: Self)
        ensures
            res@ == self@,
    {
        ActionRecord {
            target: self.target,
            payload: self.payload.clone_payload(),
            author: self.author.clone(),
            timestamp_bits: self.timestamp_bits,
            sequence: self.sequence,
            received: self.received,
        }
    }
}

impl ActionRecord {
    /// A reverse action for undo: same target, author and timestamp, the reversed payload,
    /// sequence 0 (a new one is assigned when applied) and marked local.
    /// None if the action has no previous state captured.
    pub fn make_undo(&self) -> (res: Option<ActionRecord>)
        ensures
            match res {
                Some(u) => {
                    &&& undo_of(self.payload@) == Some(u.payload@)
                    &&& u.target == self.target
                    &&& u.author@ == self.author@
                    &&& u.timestamp_bits == self.timestamp_bits
                    &&& u.sequence == 0
                    &&& !u.received
                },
                None => undo_of(self.payload@) is None,
            },
    {
        match self.payload.undo_payload() {
            Some(payload) => Some(
                ActionRecord {
                    target: self.target,
                    payload,
                    author: self.author.clone(),
                    timestamp_bits: self.timestamp_bits,
                    sequence: 0,
                    received: false,
                },
            ),
            None => None,
        }
    }
}

} // verus!
