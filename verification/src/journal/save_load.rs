use vstd::prelude::*;

use crate::text::chars_of;
use super::entity_id::{WorldEntityId, is_random_uuid};

verus! {

/// Errors that can occur during save/load operations.
#[derive(Debug)]
pub enum SaveLoadError {
    /// Serialization failed for a component; the message is the encoder's.
    SerializeComponent { type_path: String, message: String },
    /// Deserialization failed for a component; the message is the decoder's.
    DeserializeComponent { type_path: String, message: String },
    /// The type is not in the type registry.
    TypeNotRegistered { type_path: String },
    /// The type has no reflected component data.
    NoReflectComponent { type_path: String },
    /// The entity was not found in the world.
    EntityNotFound,
    /// The world holds no type registry.
    NoTypeRegistry,
}

/// The identifier to save for an entity: the one it carries, else the one registered for
/// it, else a fresh one.
pub fn identifier_for_save(carried: Option<WorldEntityId>, registered: Option<WorldEntityId>) -> (id: WorldEntityId)
    ensures
        match carried {
            Some(c) => id == c,
            None => match registered {
                Some(r) => id == r,
                None => is_random_uuid(id.0),
            },
        },
{
    match carried {
        Some(c) => c,
        None => match registered {
            Some(r) => r,
            None => WorldEntityId::new(),
        },
    }
}

/// Whether `needle` occurs in `hay` as a contiguous run.
pub open spec fn occurs_in(hay: Seq<char>, needle: Seq<char>) -> bool {
    exists|i: int| 0 <= i <= hay.len() - needle.len() && #[trigger] hay.subrange(i, i + needle.len()) == needle
}

/// Whether `needle` occurs in `hay`.
fn contains_text(hay: &Vec<char>, needle: &str) -> (b: bool)
    ensures
        b == occurs_in(hay@, needle@),
{
    let pat = chars_of(needle);
    let m = pat.len();
    if m > hay.len() {
        proof {
            assert forall|i: int| 0 <= i <= hay@.len() - pat@.len() implies #[trigger] hay@.subrange(i, i + pat@.len()) != pat@ by {}
        }
        return false;
    }
    let mut i: usize = 0;
    while i <= hay.len() - m
        invariant
            pat@ == needle@,
            m == pat@.len(),
            m <= hay@.len(),
            i <= hay@.len() - m + 1,
            forall|k: int| 0 <= k < i ==> #[trigger] hay@.subrange(k, k + m) != pat@,
        decreases hay@.len() - m + 1 - i,
    {
        let mut j: usize = 0;
        let mut same = true;
        while j < m
            invariant
                m == pat@.len(),
                i + m <= hay@.len(),
                hay@.len() <= usize::MAX,
                j <= m,
                same == (forall|t: int| 0 <= t < j ==> hay@[i + t] == pat@[t]),
            decreases m - j,
        {
            if hay[i + j] != pat[j] {
                same = false;
            }
            j = j + 1;
        }
        if same {
            proof {
                assert(hay@.subrange(i as int, i + m) =~= pat@);
            }
            return true;
        }
        proof {
            if hay@.subrange(i as int, i + m) == pat@ {
                assert forall|t: int| 0 <= t < m implies hay@[i + t] == pat@[t] by {
                    assert(hay@.subrange(i as int, i + m)[t] == hay@[i + t]);
                }
            }
        }
        i = i + 1;
    }
    false
}

/// Whether a component of this type path is left out of an entity description:
/// hierarchy links (captured by the description's children) and the world
/// identifier (captured by its own field).
pub open spec fn skipped_type_path(p: Seq<char>) -> bool {
    occurs_in(p, "ChildOf"@) || occurs_in(p, "bevy_hierarchy"@) || occurs_in(p, "bevy_ecs::hierarchy"@)
        || occurs_in(p, "WorldEntityId"@)
}

/// Components that are not serialized into a node description.
pub fn should_skip_component(type_path: &str) -> (b: bool)
    ensures
        b == skipped_type_path(type_path@),
{
    let hay = chars_of(type_path);
    contains_text(&hay, "ChildOf") || contains_text(&hay, "bevy_hierarchy") || contains_text(
        &hay,
        "bevy_ecs::hierarchy",
    ) || contains_text(&hay, "WorldEntityId")
}

} // verus!
