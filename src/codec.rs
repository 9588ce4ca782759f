use vstd::prelude::*;
use crate::error::DecodeError;
use crate::text::str_equals;

verus! {

/// The algorithm of a stored key.
#[derive(Debug, Clone, Copy, PartialEq, Eq, Hash, Structural)]
pub enum KeyAlgo {
    FOO,
    BAR,
}

/// The lifecycle status of a stored entity revision.
#[derive(Debug, Clone, Copy, PartialEq, Eq, Hash, Structural)]
pub enum EntityStatus {
    OLD,
    CURRENT,
    DRAFT,
}

impl KeyAlgo {
    /// The canonical text of a variant: its name.
    pub open spec fn name(self) -> Seq<char> {
        match self {
            KeyAlgo::FOO => seq!['F', 'O', 'O'],
            KeyAlgo::BAR => seq!['B', 'A', 'R'],
        }
    }

    /// The variant whose canonical text is exactly `s`, if any.
    pub open spec fn parse(s: Seq<char>) -> Option<KeyAlgo> {
        if s == KeyAlgo::FOO.name() {
            Some(KeyAlgo::FOO)
        } else if s == KeyAlgo::BAR.name() {
            Some(KeyAlgo::BAR)
        } else {
            None
        }
    }

    pub fn from_str(text: &str) -> (r: Option<Self>)
        ensures
            r == KeyAlgo::parse(text@),
    {
        proof {
            reveal_strlit("FOO");
            reveal_strlit("BAR");
            assert("FOO"@ =~= KeyAlgo::FOO.name());
            assert("BAR"@ =~= KeyAlgo::BAR.name());
        }
        if str_equals(text, "FOO") {
            Some(KeyAlgo::FOO)
        } else if str_equals(text, "BAR") {
            Some(KeyAlgo::BAR)
        } else {
            None
        }
    }

    pub fn to_str(&self) -> (r: &'static str)
        ensures
            r@ == self.name(),
    {
        proof {
            reveal_strlit("FOO");
            reveal_strlit("BAR");
            assert("FOO"@ =~= KeyAlgo::FOO.name());
            assert("BAR"@ =~= KeyAlgo::BAR.name());
        }
        match self {
            KeyAlgo::FOO => "FOO",
            KeyAlgo::BAR => "BAR",
        }
    }

    /// Storage form of the variant: its canonical text.
    pub fn encode(&self) -> (r: String)
        ensures
            r@ == self.name(),
    {
        String::from_str(self.to_str())
    }

    /// Reads a stored text back; text that names no variant is a data
    /// integrity failure carrying that text.
    pub fn decode(raw: &str) -> (r: Result<Self, DecodeError>)
        ensures
            match KeyAlgo::parse(raw@) {
                Some(v) => r == Ok::<KeyAlgo, DecodeError>(v),
                None => r matches Err(DecodeError::InvalidEnumValue(s)) && s@ == raw@,
            },
    {
        match KeyAlgo::from_str(raw) {
            Some(v) => Ok(v),
            None => Err(DecodeError::InvalidEnumValue(String::from_str(raw))),
        }
    }
}

impl EntityStatus {
    /// The canonical text of a variant: its name.
    pub open spec fn name(self) -> Seq<char> {
        match self {
            EntityStatus::OLD => seq!['O', 'L', 'D'],
            EntityStatus::CURRENT => seq!['C', 'U', 'R', 'R', 'E', 'N', 'T'],
            EntityStatus::DRAFT => seq!['D', 'R', 'A', 'F', 'T'],
        }
    }

    /// The variant whose canonical text is exactly `s`, if any.
    pub open spec fn parse(s: Seq<char>) -> Option<EntityStatus> {
        if s == EntityStatus::OLD.name() {
            Some(EntityStatus::OLD)
        } else if s == EntityStatus::CURRENT.name() {
            Some(EntityStatus::CURRENT)
        } else if s == EntityStatus::DRAFT.name() {
            Some(EntityStatus::DRAFT)
        } else {
            None
        }
    }

    pub fn from_str(text: &str) -> (r: Option<Self>)
        ensures
            r == EntityStatus::parse(text@),
    {
        proof {
            reveal_strlit("OLD");
            reveal_strlit("CURRENT");
            reveal_strlit("DRAFT");
            assert("OLD"@ =~= EntityStatus::OLD.name());
            assert("CURRENT"@ =~= EntityStatus::CURRENT.name());
            assert("DRAFT"@ =~= EntityStatus::DRAFT.name());
        }
        if str_equals(text, "OLD") {
            Some(EntityStatus::OLD)
        } else if str_equals(text, "CURRENT") {
            Some(EntityStatus::CURRENT)
        } else if str_equals(text, "DRAFT") {
            Some(EntityStatus::DRAFT)
        } else {
            None
        }
    }

    pub fn to_str(&self) -> (r: &'static str)
        ensures
            r@ == self.name(),
    {
        proof {
            reveal_strlit("OLD");
            reveal_strlit("CURRENT");
            reveal_strlit("DRAFT");
            assert("OLD"@ =~= EntityStatus::OLD.name());
            assert("CURRENT"@ =~= EntityStatus::CURRENT.name());
            assert("DRAFT"@ =~= EntityStatus::DRAFT.name());
        }
        match self {
            EntityStatus::OLD => "OLD",
            EntityStatus::CURRENT => "CURRENT",
            EntityStatus::DRAFT => "DRAFT",
        }
    }

    /// Storage form of the variant: its canonical text.
    pub fn encode(&self) -> (r: String)
        ensures
            r@ == self.name(),
    {
        String::from_str(self.to_str())
    }

    /// Reads a stored text back; text that names no variant is a data
    /// integrity failure carrying that text.
    pub fn decode(raw: &str) -> (r: Result<Self, DecodeError>)
        ensures
            match EntityStatus::parse(raw@) {
                Some(v) => r == Ok::<EntityStatus, DecodeError>(v),
                None => r matches Err(DecodeError::InvalidEnumValue(s)) && s@ == raw@,
            },
    {
        match EntityStatus::from_str(raw) {
            Some(v) => Ok(v),
            None => Err(DecodeError::InvalidEnumValue(String::from_str(raw))),
        }
    }
}

/// Reading back the canonical text of any key algorithm gives that algorithm.
pub proof fn lemma_key_algo_round_trip(v: KeyAlgo)
    ensures
        KeyAlgo::parse(v.name()) == Some(v),
{
}

/// Text that is no key algorithm's canonical name reads as no algorithm.
pub proof fn lemma_key_algo_rejects_other_text(s: Seq<char>)
    requires
        forall|v: KeyAlgo| s != v.name(),
    ensures
        KeyAlgo::parse(s) is None,
{
    assert(s != KeyAlgo::FOO.name());
    assert(s != KeyAlgo::BAR.name());
}

/// Distinct key algorithms have distinct canonical texts.
pub proof fn lemma_key_algo_names_injective(a: KeyAlgo, b: KeyAlgo)
    requires
        a.name() == b.name(),
    ensures
        a == b,
{
    lemma_key_algo_round_trip(a);
    lemma_key_algo_round_trip(b);
}

/// Reading back the canonical text of any status gives that status.
pub proof fn lemma_entity_status_round_trip(v: EntityStatus)
    ensures
        EntityStatus::parse(v.name()) == Some(v),
{
    assert(EntityStatus::OLD.name() != EntityStatus::CURRENT.name());
    assert(EntityStatus::CURRENT.name() != EntityStatus::DRAFT.name());
    assert(EntityStatus::OLD.name() != EntityStatus::DRAFT.name());
}

/// Text that is no status's canonical name reads as no status.
pub proof fn lemma_entity_status_rejects_other_text(s: Seq<char>)
    requires
        forall|v: EntityStatus| s != v.name(),
    ensures
        EntityStatus::parse(s) is None,
{
    assert(s != EntityStatus::OLD.name());
    assert(s != EntityStatus::CURRENT.name());
    assert(s != EntityStatus::DRAFT.name());
}

/// Distinct statuses have distinct canonical texts.
pub proof fn lemma_entity_status_names_injective(a: EntityStatus, b: EntityStatus)
    requires
        a.name() == b.name(),
    ensures
        a == b,
{
    lemma_entity_status_round_trip(a);
    lemma_entity_status_round_trip(b);
}

} // verus!
