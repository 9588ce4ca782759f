use vstd::prelude::*;
use crate::error::DecodeError;
use crate::schema::{Entity, Key, Reference};

verus! {

/// No two loaded keys share an id.
pub open spec fn key_ids_unique(keys: Seq<Key>) -> bool {
    forall|i: int, j: int| 0 <= i < j < keys.len() ==> keys[i].id != keys[j].id
}

/// No two loaded entities share a hash.
pub open spec fn entity_hashes_unique(entities: Seq<Entity>) -> bool {
    forall|i: int, j: int| 0 <= i < j < entities.len() ==> entities[i].hash@ != entities[j].hash@
}

/// Resolves a required key reference against the rows loaded for it; a
/// target that is not there breaks referential integrity.
pub fn resolve_key<'a>(r: &Reference<i32>, keys: &'a Vec<Key>) -> (res: Result<&'a Key, DecodeError>)
    ensures
        res is Ok <==> exists|i: int| 0 <= i < keys@.len() && keys@[i].id == r.key,
        res matches Ok(k) ==> exists|i: int|
            0 <= i < keys@.len() && keys@[i] == *k && keys@[i].id == r.key && forall|j: int|
                0 <= j < i ==> keys@[j].id != r.key,
        res matches Err(e) ==> e == DecodeError::MissingReference,
{
    let mut i: usize = 0;
    while i < keys.len()
        invariant
            i <= keys@.len(),
            forall|j: int| 0 <= j < i ==> keys@[j].id != r.key,
        decreases keys@.len() - i,
    {
        if keys[i].id == r.key {
            return Ok(&keys[i]);
        }
        i = i + 1;
    }
    Err(DecodeError::MissingReference)
}

/// Resolves a required entity reference against the rows loaded for it; a
/// target that is not there breaks referential integrity.
pub fn resolve_entity<'a>(r: &Reference<String>, entities: &'a Vec<Entity>) -> (res: Result<
    &'a Entity,
    DecodeError,
>)
    ensures
        res is Ok <==> exists|i: int| 0 <= i < entities@.len() && entities@[i].hash@ == r.key@,
        res matches Ok(e) ==> exists|i: int|
            0 <= i < entities@.len() && entities@[i] == *e && entities@[i].hash@ == r.key@
                && forall|j: int| 0 <= j < i ==> entities@[j].hash@ != r.key@,
        res matches Err(e) ==> e == DecodeError::MissingReference,
{
    let mut i: usize = 0;
    while i < entities.len()
        invariant
            i <= entities@.len(),
            forall|j: int| 0 <= j < i ==> entities@[j].hash@ != r.key@,
        decreases entities@.len() - i,
    {
        if entities[i].hash == r.key {
            return Ok(&entities[i]);
        }
        i = i + 1;
    }
    Err(DecodeError::MissingReference)
}

/// Resolves an optional entity reference. An absent reference is no value,
/// whatever was loaded, so nothing needs to be fetched for it; a present one
/// whose target is not there is no value too.
pub fn resolve_optional_entity<'a>(r: &Option<Reference<String>>, entities: &'a Vec<Entity>) -> (res:
    Option<&'a Entity>)
    ensures
        r is None ==> res is None,
        r matches Some(rf) ==> {
            &&& res is Some <==> exists|i: int|
                0 <= i < entities@.len() && entities@[i].hash@ == rf.key@
            &&& res matches Some(e) ==> exists|i: int|
                0 <= i < entities@.len() && entities@[i] == *e && entities@[i].hash@ == rf.key@
                    && forall|j: int| 0 <= j < i ==> entities@[j].hash@ != rf.key@
        },
{
    match r {
        None => None,
        Some(rf) => match resolve_entity(rf, entities) {
            Ok(e) => Some(e),
            Err(_) => None,
        },
    }
}

/// With unique ids, a required key reference whose target row is loaded
/// resolves, and the row it resolves to is exactly that target.
pub proof fn lemma_key_reference_resolves_exactly(keys: Seq<Key>, r: Reference<i32>, target: Key)
    requires
        key_ids_unique(keys),
        keys.contains(target),
        target.id == r.key,
    ensures
        exists|i: int| 0 <= i < keys.len() && keys[i].id == r.key,
        forall|k: Key| keys.contains(k) && k.id == r.key ==> k == target,
{
    let t = choose|i: int| 0 <= i < keys.len() && keys[i] == target;
    assert(0 <= t < keys.len() && keys[t].id == r.key);
    assert forall|k: Key| keys.contains(k) && k.id == r.key implies k == target by {
        let j = choose|j: int| 0 <= j < keys.len() && keys[j] == k;
        if j < t {
            assert(keys[j].id != keys[t].id);
        } else if j > t {
            assert(keys[t].id != keys[j].id);
        }
    }
}

/// With unique hashes, a required entity reference whose target row is loaded
/// resolves, and the row it resolves to is exactly that target.
pub proof fn lemma_entity_reference_resolves_exactly(
    entities: Seq<Entity>,
    r: Reference<String>,
    target: Entity,
)
    requires
        entity_hashes_unique(entities),
        entities.contains(target),
        target.hash@ == r.key@,
    ensures
        exists|i: int| 0 <= i < entities.len() && entities[i].hash@ == r.key@,
        forall|e: Entity| entities.contains(e) && e.hash@ == r.key@ ==> e == target,
{
    let t = choose|i: int| 0 <= i < entities.len() && entities[i] == target;
    assert(0 <= t < entities.len() && entities[t].hash@ == r.key@);
    assert forall|e: Entity| entities.contains(e) && e.hash@ == r.key@ implies e == target by {
        let j = choose|j: int| 0 <= j < entities.len() && entities[j] == e;
        if j < t {
            assert(entities[j].hash@ != entities[t].hash@);
        } else if j > t {
            assert(entities[t].hash@ != entities[j].hash@);
        }
    }
}

} // verus!
