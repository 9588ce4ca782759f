use vstd::prelude::*;
use crate::error::QueryError;
use crate::schema::EntityType;
use crate::text::str_equals;

verus! {

/// A not yet executed load of all rows of one entity type's table.
#[derive(Debug, Clone, Copy, PartialEq, Eq, Hash, Structural)]
pub struct LoadQuery {
    pub entity: EntityType,
}

/// The query modifier hook: which entity types a request may load. Every
/// load passes through it once, before any row of that type is fetched.
#[derive(Debug, Clone, Copy, PartialEq, Eq, Hash, Structural)]
pub struct QueryPolicy {
    entity: bool,
    key: bool,
    device: bool,
    signature: bool,
    certifier: bool,
}

impl EntityType {
    /// The name under which the type is exposed to callers.
    pub open spec fn spec_type_name(self) -> Seq<char> {
        match self {
            EntityType::Entity => seq!['E', 'n', 't', 'i', 't', 'y'],
            EntityType::Key => seq!['K', 'e', 'y'],
            EntityType::Device => seq!['D', 'e', 'v', 'i', 'c', 'e'],
            EntityType::Signature => seq!['S', 'i', 'g', 'n', 'a', 't', 'u', 'r', 'e'],
            EntityType::Certifier => seq!['C', 'e', 'r', 't', 'i', 'f', 'i', 'e', 'r'],
        }
    }

    /// The entity type exposed under exactly this name, if any.
    pub fn from_type_name(name: &str) -> (r: Option<EntityType>)
        ensures
            r matches Some(t) ==> t.spec_type_name() == name@,
            r is None ==> forall|t: EntityType| t.spec_type_name() != name@,
    {
        proof {
            reveal_strlit("Entity");
            reveal_strlit("Key");
            reveal_strlit("Device");
            reveal_strlit("Signature");
            reveal_strlit("Certifier");
            assert("Entity"@ =~= EntityType::Entity.spec_type_name());
            assert("Key"@ =~= EntityType::Key.spec_type_name());
            assert("Device"@ =~= EntityType::Device.spec_type_name());
            assert("Signature"@ =~= EntityType::Signature.spec_type_name());
            assert("Certifier"@ =~= EntityType::Certifier.spec_type_name());
        }
        if str_equals(name, "Entity") {
            Some(EntityType::Entity)
        } else if str_equals(name, "Key") {
            Some(EntityType::Key)
        } else if str_equals(name, "Device") {
            Some(EntityType::Device)
        } else if str_equals(name, "Signature") {
            Some(EntityType::Signature)
        } else if str_equals(name, "Certifier") {
            Some(EntityType::Certifier)
        } else {
            None
        }
    }

    /// The base query for the type, before the hook sees it.
    pub fn base_query(&self) -> (r: LoadQuery)
        ensures
            r == (LoadQuery { entity: *self }),
    {
        LoadQuery { entity: *self }
    }
}

impl QueryPolicy {
    pub closed spec fn allows(self, t: EntityType) -> bool {
        match t {
            EntityType::Entity => self.entity,
            EntityType::Key => self.key,
            EntityType::Device => self.device,
            EntityType::Signature => self.signature,
            EntityType::Certifier => self.certifier,
        }
    }

    /// What the hook does to a query: hands it back unchanged where the type
    /// is allowed, refuses it otherwise.
    pub open spec fn spec_modify(self, query: LoadQuery) -> Result<LoadQuery, QueryError> {
        if self.allows(query.entity) {
            Ok(query)
        } else {
            Err(QueryError::AccessDenied(query.entity))
        }
    }

    /// The policy that lets every entity type through.
    pub fn allow_all() -> (r: QueryPolicy)
        ensures
            forall|t: EntityType| r.allows(t),
    {
        QueryPolicy { entity: true, key: true, device: true, signature: true, certifier: true }
    }

    /// The same policy, with loads of `t` refused.
    pub fn deny(self, t: EntityType) -> (r: QueryPolicy)
        ensures
            forall|u: EntityType| r.allows(u) == (u != t && self.allows(u)),
    {
        let mut r = self;
        match t {
            EntityType::Entity => r.entity = false,
            EntityType::Key => r.key = false,
            EntityType::Device => r.device = false,
            EntityType::Signature => r.signature = false,
            EntityType::Certifier => r.certifier = false,
        }
        r
    }

    pub fn allows_type(&self, t: EntityType) -> (r: bool)
        ensures
            r == self.allows(t),
    {
        match t {
            EntityType::Entity => self.entity,
            EntityType::Key => self.key,
            EntityType::Device => self.device,
            EntityType::Signature => self.signature,
            EntityType::Certifier => self.certifier,
        }
    }

    /// The hook itself, invoked with the base query of one entity type.
    pub fn modify_query(&self, query: LoadQuery) -> (r: Result<LoadQuery, QueryError>)
        ensures
            r == self.spec_modify(query),
    {
        if self.allows_type(query.entity) {
            Ok(query)
        } else {
            Err(QueryError::AccessDenied(query.entity))
        }
    }
}

/// The entity types of a request, each once, in order of first mention.
pub open spec fn distinct_types(s: Seq<EntityType>) -> Seq<EntityType>
    decreases s.len(),
{
    if s.len() == 0 {
        Seq::empty()
    } else {
        let d = distinct_types(s.drop_last());
        if d.contains(s.last()) {
            d
        } else {
            d.push(s.last())
        }
    }
}

fn contains_type(v: &Vec<EntityType>, t: EntityType) -> (r: bool)
    ensures
        r == v@.contains(t),
{
    let mut i: usize = 0;
    while i < v.len()
        invariant
            i <= v@.len(),
            forall|j: int| 0 <= j < i ==> v@[j] != t,
        decreases v@.len() - i,
    {
        if v[i] == t {
            return true;
        }
        i = i + 1;
    }
    false
}

impl QueryPolicy {
    /// Runs the hook over the entity types a request touches: once per
    /// distinct type, in order of first mention, before anything is fetched.
    /// A refused type fails only its own load.
    pub fn prepare_loads(&self, requested: &Vec<EntityType>) -> (r: Vec<
        Result<LoadQuery, QueryError>,
    >)
        ensures
            r@.len() == distinct_types(requested@).len(),
            forall|i: int|
                0 <= i < r@.len() ==> #[trigger] r@[i] == self.spec_modify(
                    LoadQuery { entity: distinct_types(requested@)[i] },
                ),
    {
        let mut seen: Vec<EntityType> = Vec::new();
        let mut out: Vec<Result<LoadQuery, QueryError>> = Vec::new();
        let mut i: usize = 0;
        while i < requested.len()
            invariant
                i <= requested@.len(),
                seen@ == distinct_types(requested@.take(i as int)),
                out@.len() == seen@.len(),
                forall|j: int|
                    0 <= j < out@.len() ==> #[trigger] out@[j] == self.spec_modify(
                        LoadQuery { entity: seen@[j] },
                    ),
            decreases requested@.len() - i,
        {
            let t = requested[i];
            proof {
                assert(requested@.take(i + 1).drop_last() =~= requested@.take(i as int));
                assert(requested@.take(i + 1).last() == t);
            }
            if !contains_type(&seen, t) {
                let q = self.modify_query(t.base_query());
                seen.push(t);
                out.push(q);
            }
            i = i + 1;
        }
        assert(requested@.take(requested@.len() as int) =~= requested@);
        out
    }
}

/// The hook runs once for each entity type that a request touches: the list
/// it runs over mentions no type twice, holds exactly the requested types,
/// and is as long as the set of them.
pub proof fn lemma_one_hook_call_per_type(s: Seq<EntityType>)
    ensures
        distinct_types(s).no_duplicates(),
        distinct_types(s).to_set() == s.to_set(),
        distinct_types(s).len() == s.to_set().len(),
    decreases s.len(),
{
    let d = distinct_types(s);
    if s.len() > 0 {
        let rest = s.drop_last();
        lemma_one_hook_call_per_type(rest);
        let dr = distinct_types(rest);
        assert forall|x: EntityType| s.contains(x) <==> rest.contains(x) || x == s.last() by {
            if s.contains(x) && x != s.last() {
                let k = choose|k: int| 0 <= k < s.len() && s[k] == x;
                assert(rest[k] == x);
            }
            if rest.contains(x) {
                let k = choose|k: int| 0 <= k < rest.len() && rest[k] == x;
                assert(s[k] == x);
            }
            if x == s.last() {
                assert(s[s.len() - 1] == x);
            }
        }
        assert(dr.to_set().contains(s.last()) == dr.contains(s.last()));
        if !dr.contains(s.last()) {
            assert forall|x: EntityType| d.contains(x) <==> dr.contains(x) || x == s.last() by {
                if d.contains(x) && x != s.last() {
                    let k = choose|k: int| 0 <= k < d.len() && d[k] == x;
                    assert(dr[k] == x);
                }
                if dr.contains(x) {
                    let k = choose|k: int| 0 <= k < dr.len() && dr[k] == x;
                    assert(d[k] == x);
                }
                if x == s.last() {
                    assert(d[d.len() - 1] == x);
                }
            }
        }
        assert forall|x: EntityType| d.contains(x) <==> s.contains(x) by {
            assert(dr.to_set().contains(x) == dr.contains(x));
            assert(rest.to_set().contains(x) == rest.contains(x));
        }
        assert forall|x: EntityType| #[trigger] d.to_set().contains(x) <==> s.to_set().contains(x) by {
            assert(d.to_set().contains(x) == d.contains(x));
            assert(s.to_set().contains(x) == s.contains(x));
        }
        assert(d.to_set() =~= s.to_set());
    } else {
        assert(d.to_set() =~= s.to_set());
    }
    d.unique_seq_to_set();
}

} // verus!
