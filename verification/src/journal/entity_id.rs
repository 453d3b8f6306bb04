use vstd::prelude::*;
use std::collections::HashMap;

verus! {

broadcast use vstd::std_specs::hash::group_hash_axioms;

/// The character for a hexadecimal digit, lower case.
pub open spec fn hex_lower(n: u128) -> char {
    if n < 10 {
        ((n + 48) as u8) as char
    } else {
        ((n + 87) as u8) as char
    }
}

/// Position of the `k`-th hexadecimal digit of a UUID in its hyphenated text.
pub open spec fn uuid_digit_of_position(p: int) -> int {
    if p < 8 {
        p
    } else if p < 13 {
        p - 1
    } else if p < 18 {
        p - 2
    } else if p < 23 {
        p - 3
    } else {
        p - 4
    }
}

/// The `k`-th 4-bit digit of a 128-bit UUID, most significant first.
pub open spec fn uuid_nibble(bits: u128, k: int) -> u128 {
    (bits >> ((124 - 4 * k) as u128)) & 0xf
}

/// Hyphenated lower-case text of a UUID: 8-4-4-4-12 hexadecimal digits.
pub open spec fn uuid_text(bits: u128) -> Seq<char> {
    Seq::new(
        36,
        |p: int|
            if p == 8 || p == 13 || p == 18 || p == 23 {
                '-'
            } else {
                hex_lower(uuid_nibble(bits, uuid_digit_of_position(p)))
            },
    )
}

/// Whether 128 bits carry the version and variant fields of a random (version 4) UUID.
pub open spec fn is_random_uuid(bits: u128) -> bool {
    &&& (bits >> 76u128) & 0xf == 4
    &&& (bits >> 62u128) & 0x3 == 2
}

/// Calls `uuid::Uuid::new_v4`. Claimed: the 128 bits returned carry the
/// version 4 and RFC 4122 variant fields, which `new_v4` sets after drawing
/// the other bits at random. Nothing is claimed of the random bits.
#[verifier::external_body]
fn random_uuid_bits() -> (bits: u128)
    ensures
        is_random_uuid(bits),
{
    uuid::Uuid::new_v4().as_u128()
}

/// Calls `Display` of `uuid::Uuid` on the UUID with the given bits. Claimed:
/// the text is the 36-character hyphenated lower-case form.
#[verifier::external_body]
fn uuid_hyphenated(bits: u128) -> (text: String)
    ensures
        text@ == uuid_text(bits),
{
    uuid::Uuid::from_u128(bits).to_string()
}

/// Stable cross-peer entity identifier. Never changes once assigned.
/// Holds the 128 bits of a UUID; a local entity handle is the wire-unsafe equivalent.
#[derive(Clone, Copy, PartialEq, Eq, Structural, Hash, Debug)]
pub struct WorldEntityId(pub u128);

impl WorldEntityId {
    /// A fresh random identifier (a version 4 UUID).
    pub fn new() -> (id: WorldEntityId)
        ensures
            is_random_uuid(id.0),
    {
        WorldEntityId(random_uuid_bits())
    }

    /// The identifier that holds the given UUID bits.
    pub fn from_uuid(uuid: u128) -> (id: WorldEntityId)
        ensures
            id.0 == uuid,
    {
        WorldEntityId(uuid)
    }

    /// The UUID in its hyphenated lower-case text form.
    pub fn to_string(&self) -> (text: String)
        ensures
            text@ == uuid_text(self.0),
    {
        uuid_hyphenated(self.0)
    }
}

impl Default for WorldEntityId {
    fn default() -> (id: WorldEntityId)
        ensures
            is_random_uuid(id.0),
    {
        WorldEntityId::new()
    }
}

/// Maps world entity identifiers to local entity handles (and back) for one world.
/// A local entity handle is given by its 64-bit encoding.
#[derive(Debug)]
pub struct WorldEntityRegistry {
    to_entity: HashMap<u128, u64>,
    to_world_id: HashMap<u64, u128>,
}

impl WorldEntityRegistry {
    /// The map from world identifier bits to entity handle.
    pub closed spec fn entities(&self) -> Map<u128, u64> {
        self.to_entity@
    }

    /// The map from entity handle to world identifier bits.
    pub closed spec fn world_ids(&self) -> Map<u64, u128> {
        self.to_world_id@
    }

    /// An empty registry.
    pub fn new() -> (reg: WorldEntityRegistry)
        ensures
            reg.entities() == Map::<u128, u64>::empty(),
            reg.world_ids() == Map::<u64, u128>::empty(),
    {
        WorldEntityRegistry { to_entity: HashMap::new(), to_world_id: HashMap::new() }
    }

    /// Records that `world_id` names `entity`, in both directions.
    pub fn register(&mut self, world_id: WorldEntityId, entity: u64)
        ensures
            final(self).entities() == old(self).entities().insert(world_id.0, entity),
            final(self).world_ids() == old(self).world_ids().insert(entity, world_id.0),
    {
        self.to_entity.insert(world_id.0, entity);
        self.to_world_id.insert(entity, world_id.0);
    }

    /// Forgets `world_id` and the entity it named; returns that entity.
    pub fn unregister(&mut self, world_id: &WorldEntityId) -> (removed: Option<u64>)
        ensures
            match removed {
                Some(e) => {
                    &&& old(self).entities().contains_key(world_id.0)
                    &&& e == old(self).entities()[world_id.0]
                    &&& final(self).entities() == old(self).entities().remove(world_id.0)
                    &&& final(self).world_ids() == old(self).world_ids().remove(e)
                },
                None => {
                    &&& !old(self).entities().contains_key(world_id.0)
                    &&& final(self).entities() == old(self).entities()
                    &&& final(self).world_ids() == old(self).world_ids()
                },
            },
    {
        let key = world_id.0;
        if let Some(entity) = self.to_entity.remove(&key) {
            self.to_world_id.remove(&entity);
            Some(entity)
        } else {
            None
        }
    }

    /// Forgets `entity` and the world identifier it had; returns that identifier.
    pub fn unregister_entity(&mut self, entity: &u64) -> (removed: Option<WorldEntityId>)
        ensures
            match removed {
                Some(w) => {
                    &&& old(self).world_ids().contains_key(*entity)
                    &&& w.0 == old(self).world_ids()[*entity]
                    &&& final(self).world_ids() == old(self).world_ids().remove(*entity)
                    &&& final(self).entities() == old(self).entities().remove(w.0)
                },
                None => {
                    &&& !old(self).world_ids().contains_key(*entity)
                    &&& final(self).entities() == old(self).entities()
                    &&& final(self).world_ids() == old(self).world_ids()
                },
            },
    {
        if let Some(bits) = self.to_world_id.remove(entity) {
            self.to_entity.remove(&bits);
            Some(WorldEntityId(bits))
        } else {
            None
        }
    }

    /// The entity that `world_id` names, if registered.
    pub fn get_entity(&self, world_id: &WorldEntityId) -> (e: Option<u64>)
        ensures
            e == (if self.entities().contains_key(world_id.0) {
                Some(self.entities()[world_id.0])
            } else {
                None::<u64>
            }),
    {
        match self.to_entity.get(&world_id.0) {
            Some(e) => Some(*e),
            None => None,
        }
    }

    /// The world identifier of `entity`, if registered.
    pub fn get_world_id(&self, entity: &u64) -> (w: Option<WorldEntityId>)
        ensures
            w == (if self.world_ids().contains_key(*entity) {
                Some(WorldEntityId(self.world_ids()[*entity]))
            } else {
                None::<WorldEntityId>
            }),
    {
        match self.to_world_id.get(entity) {
            Some(b) => Some(WorldEntityId(*b)),
            None => None,
        }
    }

    /// Both maps of a registry are finite.
    pub proof fn lemma_maps_finite(&self)
        ensures
            self.entities().dom().finite(),
            self.world_ids().dom().finite(),
    {
        vstd::std_specs::hash::axiom_hashmap_view_finite_dom(self.to_entity);
        vstd::std_specs::hash::axiom_hashmap_view_finite_dom(self.to_world_id);
    }

    /// Number of registered world identifiers.
    pub fn len(&self) -> (n: usize)
        ensures
            n == self.entities().len(),
            self.entities().dom().finite(),
    {
        proof {
            self.lemma_maps_finite();
        }
        self.to_entity.len()
    }

    /// Whether no world identifier is registered.
    pub fn is_empty(&self) -> (b: bool)
        ensures
            b == (self.entities().len() == 0),
    {
        self.to_entity.is_empty()
    }
}

/// After `register(w, e)` the registry maps both ways: `w` to `e` and `e` to `w`; and
/// unregistering `w` (which removes `w` and the entity it named) restores a registry in
/// which neither was present.
pub proof fn law_register_unregister(r: WorldEntityRegistry, w: u128, e: u64)
    ensures
        r.entities().insert(w, e).contains_key(w) && r.entities().insert(w, e)[w] == e,
        r.world_ids().insert(e, w).contains_key(e) && r.world_ids().insert(e, w)[e] == w,
        !r.entities().contains_key(w) ==> r.entities().insert(w, e).remove(w) == r.entities(),
        !r.world_ids().contains_key(e) ==> r.world_ids().insert(e, w).remove(
            r.entities().insert(w, e)[w],
        ) == r.world_ids(),
{
    assert(!r.entities().contains_key(w) ==> r.entities().insert(w, e).remove(w) =~= r.entities());
    assert(!r.world_ids().contains_key(e) ==> r.world_ids().insert(e, w).remove(e) =~= r.world_ids());
}

/// Unregistering a registered entity whose identifier is registered too removes exactly one
/// pair from each map, so each count drops by one.
pub proof fn law_unregister_entity_count(r: WorldEntityRegistry, e: u64)
    requires
        r.world_ids().contains_key(e),
        r.entities().contains_key(r.world_ids()[e]),
    ensures
        r.world_ids().remove(e).len() == r.world_ids().len() - 1,
        r.entities().remove(r.world_ids()[e]).len() == r.entities().len() - 1,
{
    r.lemma_maps_finite();
}

impl Default for WorldEntityRegistry {
    fn default() -> (reg: WorldEntityRegistry)
        ensures
            reg.entities() == Map::<u128, u64>::empty(),
            reg.world_ids() == Map::<u64, u128>::empty(),
    {
        WorldEntityRegistry::new()
    }
}

} // verus!
