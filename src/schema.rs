use vstd::prelude::*;
use crate::codec::{EntityStatus, KeyAlgo};
use crate::error::DecodeError;

verus! {

/// The closed set of entity types that the schema exposes.
#[derive(Debug, Clone, Copy, PartialEq, Eq, Hash, Structural)]
pub enum EntityType {
    Entity,
    Key,
    Device,
    Signature,
    Certifier,
}

/// The storage type of a column.
#[derive(Debug, Clone, Copy, PartialEq, Eq, Hash, Structural)]
pub enum ColumnKind {
    Integer,
    Text,
    Timestamp,
    NullableText,
}

/// A point in time without a time zone: whole seconds since the Unix epoch
/// and the nanoseconds past that second. The nanoseconds may run into a
/// second second, to represent a leap second.
#[derive(Debug, Clone, Copy, PartialEq, Eq, Hash, Structural)]
pub struct Timestamp {
    pub secs: i64,
    pub nanos: u32,
}

/// One stored column value as the relational engine hands it back.
#[derive(Debug, Clone, PartialEq, Eq)]
pub enum SqlValue {
    Null,
    Integer(i32),
    Text(String),
    Timestamp(Timestamp),
}

/// A single-valued reference: the key of another entity, resolved by lookup.
#[derive(Debug, Clone, PartialEq, Eq, Hash)]
pub struct Reference<K> {
    pub key: K,
}

/// A versioned entity, keyed by its hash.
#[derive(Debug, Clone, PartialEq, Eq, Hash)]
pub struct Entity {
    pub hash: String,
    pub parent: String,
    pub revision: i32,
    pub timestamp: Timestamp,
    pub status: EntityStatus,
    pub name: String,
    pub info: Option<String>,
}

/// A cryptographic key, keyed by its id.
#[derive(Debug, Clone, PartialEq, Eq, Hash)]
pub struct Key {
    pub id: i32,
    pub data: String,
    pub algo: KeyAlgo,
}

/// A device, keyed by the key it refers to.
#[derive(Debug, Clone, PartialEq, Eq, Hash)]
pub struct Device {
    pub key: Reference<i32>,
    pub address: Option<String>,
}

/// A signature made with a key over an entity, optionally by another entity;
/// keyed by (key, hash).
#[derive(Debug, Clone, PartialEq, Eq, Hash)]
pub struct Signature {
    pub key: Reference<i32>,
    pub hash: Reference<String>,
    pub data: String,
    pub by: Option<Reference<String>>,
}

/// One entity certifying another; keyed by (certifier, entity).
#[derive(Debug, Clone, PartialEq, Eq, Hash)]
pub struct Certifier {
    pub certifier: Reference<String>,
    pub entity: Reference<String>,
}

impl EntityType {
    pub open spec fn spec_table_name(self) -> Seq<char> {
        match self {
            EntityType::Entity => seq!['e', 'n', 't', 'i', 't', 'i', 'e', 's'],
            EntityType::Key => seq!['k', 'e', 'y', 's'],
            EntityType::Device => seq!['d', 'e', 'v', 'i', 'c', 'e', 's'],
            EntityType::Signature => seq!['s', 'i', 'g', 'n', 'a', 't', 'u', 'r', 'e', 's'],
            EntityType::Certifier => seq!['c', 'e', 'r', 't', 'i', 'f', 'i', 'e', 'r', 's'],
        }
    }

    /// The declared column kinds of the type's table, in column order.
    pub open spec fn columns(self) -> Seq<ColumnKind> {
        match self {
            EntityType::Entity => seq![
                ColumnKind::Text,
                ColumnKind::Text,
                ColumnKind::Integer,
                ColumnKind::Timestamp,
                ColumnKind::Text,
                ColumnKind::Text,
                ColumnKind::NullableText,
            ],
            EntityType::Key => seq![ColumnKind::Integer, ColumnKind::Text, ColumnKind::Text],
            EntityType::Device => seq![ColumnKind::Integer, ColumnKind::NullableText],
            EntityType::Signature => seq![
                ColumnKind::Integer,
                ColumnKind::Text,
                ColumnKind::Text,
                ColumnKind::NullableText,
            ],
            EntityType::Certifier => seq![ColumnKind::Text, ColumnKind::Text],
        }
    }

    /// How many leading columns form the primary key.
    pub open spec fn spec_primary_key_len(self) -> nat {
        match self {
            EntityType::Signature | EntityType::Certifier => 2,
            _ => 1,
        }
    }

    pub fn table_name(&self) -> (r: &'static str)
        ensures
            r@ == self.spec_table_name(),
    {
        proof {
            reveal_strlit("entities");
            reveal_strlit("keys");
            reveal_strlit("devices");
            reveal_strlit("signatures");
            reveal_strlit("certifiers");
            assert("entities"@ =~= EntityType::Entity.spec_table_name());
            assert("keys"@ =~= EntityType::Key.spec_table_name());
            assert("devices"@ =~= EntityType::Device.spec_table_name());
            assert("signatures"@ =~= EntityType::Signature.spec_table_name());
            assert("certifiers"@ =~= EntityType::Certifier.spec_table_name());
        }
        match self {
            EntityType::Entity => "entities",
            EntityType::Key => "keys",
            EntityType::Device => "devices",
            EntityType::Signature => "signatures",
            EntityType::Certifier => "certifiers",
        }
    }

    pub fn column_kinds(&self) -> (r: Vec<ColumnKind>)
        ensures
            r@ == self.columns(),
    {
        let r = match self {
            EntityType::Entity => vec![
                ColumnKind::Text,
                ColumnKind::Text,
                ColumnKind::Integer,
                ColumnKind::Timestamp,
                ColumnKind::Text,
                ColumnKind::Text,
                ColumnKind::NullableText,
            ],
            EntityType::Key => vec![ColumnKind::Integer, ColumnKind::Text, ColumnKind::Text],
            EntityType::Device => vec![ColumnKind::Integer, ColumnKind::NullableText],
            EntityType::Signature => vec![
                ColumnKind::Integer,
                ColumnKind::Text,
                ColumnKind::Text,
                ColumnKind::NullableText,
            ],
            EntityType::Certifier => vec![ColumnKind::Text, ColumnKind::Text],
        };
        assert(r@ =~= self.columns());
        r
    }

    pub fn primary_key_len(&self) -> (r: usize)
        ensures
            r == self.spec_primary_key_len(),
    {
        match self {
            EntityType::Signature | EntityType::Certifier => 2,
            _ => 1,
        }
    }
}

impl Timestamp {
    /// The nanoseconds part stays below two seconds.
    pub open spec fn wf(self) -> bool {
        self.nanos < 2_000_000_000
    }

    /// The timestamp of these parts, if the nanoseconds part is in range.
    pub fn new(secs: i64, nanos: u32) -> (r: Option<Timestamp>)
        ensures
            nanos < 2_000_000_000 ==> r == Some(Timestamp { secs, nanos }),
            nanos >= 2_000_000_000 ==> r is None,
            r matches Some(t) ==> t.wf(),
    {
        if nanos < 2_000_000_000 {
            Some(Timestamp { secs, nanos })
        } else {
            None
        }
    }
}

impl SqlValue {
    /// Whether the value may stand in a column of the given kind; a
    /// timestamp must be well formed.
    pub open spec fn spec_fits(self, kind: ColumnKind) -> bool {
        match kind {
            ColumnKind::Integer => self is Integer,
            ColumnKind::Text => self is Text,
            ColumnKind::Timestamp => self matches SqlValue::Timestamp(t) && t.wf(),
            ColumnKind::NullableText => self is Text || self is Null,
        }
    }

    pub fn fits(&self, kind: ColumnKind) -> (r: bool)
        ensures
            r == self.spec_fits(kind),
    {
        match kind {
            ColumnKind::Integer => matches!(self, SqlValue::Integer(_)),
            ColumnKind::Text => matches!(self, SqlValue::Text(_)),
            ColumnKind::Timestamp => match self {
                SqlValue::Timestamp(t) => t.nanos < 2_000_000_000,
                _ => false,
            },
            ColumnKind::NullableText => matches!(self, SqlValue::Text(_) | SqlValue::Null),
        }
    }
}

/// Whether column `i` of the row is the first one whose value does not fit
/// its declared kind.
pub open spec fn first_misfit(row: Seq<SqlValue>, kinds: Seq<ColumnKind>, i: int) -> bool {
    &&& 0 <= i < row.len()
    &&& !row[i].spec_fits(kinds[i])
    &&& forall|j: int| 0 <= j < i ==> row[j].spec_fits(kinds[j])
}

/// The structural error of a row against the declared column kinds, if any:
/// a wrong column count first, else the first column of the wrong kind.
pub open spec fn shape_error(row: Seq<SqlValue>, kinds: Seq<ColumnKind>) -> Option<DecodeError> {
    if row.len() != kinds.len() {
        Some(DecodeError::ColumnCount(row.len() as usize))
    } else if exists|i: int| first_misfit(row, kinds, i) {
        Some(DecodeError::ColumnType((choose|i: int| first_misfit(row, kinds, i)) as usize))
    } else {
        None
    }
}

/// Checks a row's column count and column kinds against a table's declaration.
pub fn check_shape(row: &Vec<SqlValue>, kinds: &Vec<ColumnKind>) -> (r: Result<(), DecodeError>)
    ensures
        match shape_error(row@, kinds@) {
            Some(e) => r == Err::<(), DecodeError>(e),
            None => r is Ok,
        },
        r is Ok ==> forall|i: int| 0 <= i < row@.len() ==> row@[i].spec_fits(kinds@[i]),
{
    if row.len() != kinds.len() {
        return Err(DecodeError::ColumnCount(row.len()));
    }
    let mut i: usize = 0;
    while i < row.len()
        invariant
            row@.len() == kinds@.len(),
            i <= row@.len(),
            forall|j: int| 0 <= j < i ==> row@[j].spec_fits(kinds@[j]),
        decreases row@.len() - i,
    {
        if !row[i].fits(kinds[i]) {
            proof {
                assert(first_misfit(row@, kinds@, i as int));
                let c = choose|c: int| first_misfit(row@, kinds@, c);
                assert(first_misfit(row@, kinds@, c));
                if c < i {
                    assert(row@[c].spec_fits(kinds@[c]));
                } else if c > i {
                    assert(row@[i as int].spec_fits(kinds@[i as int]));
                }
                assert(c == i);
            }
            return Err(DecodeError::ColumnType(i));
        }
        i = i + 1;
    }
    assert(!exists|c: int| first_misfit(row@, kinds@, c));
    Ok(())
}

/// The text held by a nullable text column.
pub open spec fn nullable_text(v: SqlValue) -> Option<String> {
    match v {
        SqlValue::Text(s) => Some(s),
        _ => None,
    }
}

fn text_at(row: &Vec<SqlValue>, i: usize) -> (r: String)
    requires
        i < row@.len(),
        row@[i as int] is Text,
    ensures
        r == row@[i as int]->Text_0,
{
    match &row[i] {
        SqlValue::Text(s) => s.clone(),
        _ => {
            proof {
                assert(false);
            }
            String::new()
        },
    }
}

fn integer_at(row: &Vec<SqlValue>, i: usize) -> (r: i32)
    requires
        i < row@.len(),
        row@[i as int] is Integer,
    ensures
        r == row@[i as int]->Integer_0,
{
    match &row[i] {
        SqlValue::Integer(n) => *n,
        _ => {
            proof {
                assert(false);
            }
            0
        },
    }
}

fn timestamp_at(row: &Vec<SqlValue>, i: usize) -> (r: Timestamp)
    requires
        i < row@.len(),
        row@[i as int] is Timestamp,
    ensures
        r == row@[i as int]->Timestamp_0,
{
    match &row[i] {
        SqlValue::Timestamp(t) => *t,
        _ => {
            proof {
                assert(false);
            }
            Timestamp { secs: 0, nanos: 0 }
        },
    }
}

fn nullable_text_at(row: &Vec<SqlValue>, i: usize) -> (r: Option<String>)
    requires
        i < row@.len(),
    ensures
        r == nullable_text(row@[i as int]),
{
    match &row[i] {
        SqlValue::Text(s) => Some(s.clone()),
        _ => None,
    }
}

/// The entity a row of `entities` decodes to, or why it does not.
pub open spec fn entity_from_row(row: Seq<SqlValue>) -> Result<Entity, DecodeError> {
    match shape_error(row, EntityType::Entity.columns()) {
        Some(e) => Err(e),
        None => match EntityStatus::parse(row[4]->Text_0@) {
            Some(status) => Ok(
                Entity {
                    hash: row[0]->Text_0,
                    parent: row[1]->Text_0,
                    revision: row[2]->Integer_0,
                    timestamp: row[3]->Timestamp_0,
                    status,
                    name: row[5]->Text_0,
                    info: nullable_text(row[6]),
                },
            ),
            None => Err(DecodeError::InvalidEnumValue(row[4]->Text_0)),
        },
    }
}

/// The key a row of `keys` decodes to, or why it does not.
pub open spec fn key_from_row(row: Seq<SqlValue>) -> Result<Key, DecodeError> {
    match shape_error(row, EntityType::Key.columns()) {
        Some(e) => Err(e),
        None => match KeyAlgo::parse(row[2]->Text_0@) {
            Some(algo) => Ok(Key { id: row[0]->Integer_0, data: row[1]->Text_0, algo }),
            None => Err(DecodeError::InvalidEnumValue(row[2]->Text_0)),
        },
    }
}

/// The device a row of `devices` decodes to, or why it does not.
pub open spec fn device_from_row(row: Seq<SqlValue>) -> Result<Device, DecodeError> {
    match shape_error(row, EntityType::Device.columns()) {
        Some(e) => Err(e),
        None => Ok(
            Device { key: Reference { key: row[0]->Integer_0 }, address: nullable_text(row[1]) },
        ),
    }
}

/// The signature a row of `signatures` decodes to, or why it does not.
pub open spec fn signature_from_row(row: Seq<SqlValue>) -> Result<Signature, DecodeError> {
    match shape_error(row, EntityType::Signature.columns()) {
        Some(e) => Err(e),
        None => Ok(
            Signature {
                key: Reference { key: row[0]->Integer_0 },
                hash: Reference { key: row[1]->Text_0 },
                data: row[2]->Text_0,
                by: match nullable_text(row[3]) {
                    Some(h) => Some(Reference { key: h }),
                    None => None,
                },
            },
        ),
    }
}

/// The certification a row of `certifiers` decodes to, or why it does not.
pub open spec fn certifier_from_row(row: Seq<SqlValue>) -> Result<Certifier, DecodeError> {
    match shape_error(row, EntityType::Certifier.columns()) {
        Some(e) => Err(e),
        None => Ok(
            Certifier {
                certifier: Reference { key: row[0]->Text_0 },
                entity: Reference { key: row[1]->Text_0 },
            },
        ),
    }
}

impl Entity {
    pub fn from_row(row: &Vec<SqlValue>) -> (r: Result<Entity, DecodeError>)
        ensures
            r == entity_from_row(row@),
            r matches Ok(e) ==> e.timestamp.wf(),
    {
        let kinds = EntityType::Entity.column_kinds();
        if let Err(e) = check_shape(row, &kinds) {
            return Err(e);
        }
        let raw = text_at(row, 4);
        match EntityStatus::from_str(raw.as_str()) {
            Some(status) => Ok(
                Entity {
                    hash: text_at(row, 0),
                    parent: text_at(row, 1),
                    revision: integer_at(row, 2),
                    timestamp: timestamp_at(row, 3),
                    status,
                    name: text_at(row, 5),
                    info: nullable_text_at(row, 6),
                },
            ),
            None => Err(DecodeError::InvalidEnumValue(raw)),
        }
    }
}

impl Key {
    pub fn from_row(row: &Vec<SqlValue>) -> (r: Result<Key, DecodeError>)
        ensures
            r == key_from_row(row@),
    {
        let kinds = EntityType::Key.column_kinds();
        if let Err(e) = check_shape(row, &kinds) {
            return Err(e);
        }
        let raw = text_at(row, 2);
        match KeyAlgo::from_str(raw.as_str()) {
            Some(algo) => Ok(Key { id: integer_at(row, 0), data: text_at(row, 1), algo }),
            None => Err(DecodeError::InvalidEnumValue(raw)),
        }
    }
}

impl Device {
    pub fn from_row(row: &Vec<SqlValue>) -> (r: Result<Device, DecodeError>)
        ensures
            r == device_from_row(row@),
    {
        let kinds = EntityType::Device.column_kinds();
        if let Err(e) = check_shape(row, &kinds) {
            return Err(e);
        }
        Ok(
            Device {
                key: Reference { key: integer_at(row, 0) },
                address: nullable_text_at(row, 1),
            },
        )
    }
}

impl Signature {
    pub fn from_row(row: &Vec<SqlValue>) -> (r: Result<Signature, DecodeError>)
        ensures
            r == signature_from_row(row@),
    {
        let kinds = EntityType::Signature.column_kinds();
        if let Err(e) = check_shape(row, &kinds) {
            return Err(e);
        }
        let by = match nullable_text_at(row, 3) {
            Some(h) => Some(Reference { key: h }),
            None => None,
        };
        Ok(
            Signature {
                key: Reference { key: integer_at(row, 0) },
                hash: Reference { key: text_at(row, 1) },
                data: text_at(row, 2),
                by,
            },
        )
    }
}

impl Certifier {
    pub fn from_row(row: &Vec<SqlValue>) -> (r: Result<Certifier, DecodeError>)
        ensures
            r == certifier_from_row(row@),
    {
        let kinds = EntityType::Certifier.column_kinds();
        if let Err(e) = check_shape(row, &kinds) {
            return Err(e);
        }
        Ok(
            Certifier {
                certifier: Reference { key: text_at(row, 0) },
                entity: Reference { key: text_at(row, 1) },
            },
        )
    }
}

impl Signature {
    /// Decodes a loaded result set one row for one value, in order; the first
    /// row that does not decode fails the whole set.
    pub fn from_rows(rows: &Vec<Vec<SqlValue>>) -> (r: Result<Vec<Signature>, DecodeError>)
        ensures
            r is Ok <==> forall|i: int| 0 <= i < rows@.len() ==> signature_from_row(rows@[i]@) is Ok,
            r matches Ok(v) ==> v@.len() == rows@.len() && forall|i: int|
                0 <= i < rows@.len() ==> signature_from_row(#[trigger] rows@[i]@) == Ok::<
                    Signature,
                    DecodeError,
                >(v@[i]),
            r matches Err(e) ==> exists|i: int|
                0 <= i < rows@.len() && signature_from_row(#[trigger] rows@[i]@) == Err::<
                    Signature,
                    DecodeError,
                >(e) && forall|j: int| 0 <= j < i ==> signature_from_row(rows@[j]@) is Ok,
    {
        let mut out: Vec<Signature> = Vec::new();
        let mut i: usize = 0;
        while i < rows.len()
            invariant
                i <= rows@.len(),
                out@.len() == i,
                forall|j: int|
                    0 <= j < i ==> signature_from_row(#[trigger] rows@[j]@) == Ok::<
                        Signature,
                        DecodeError,
                    >(out@[j]),
            decreases rows@.len() - i,
        {
            match Signature::from_row(&rows[i]) {
                Ok(sig) => out.push(sig),
                Err(e) => {
                    return Err(e);
                },
            }
            i = i + 1;
        }
        Ok(out)
    }
}

/// A row with no shape error fits its declared kinds in every column.
proof fn lemma_no_shape_error_fits(row: Seq<SqlValue>, kinds: Seq<ColumnKind>, n: int)
    requires
        shape_error(row, kinds) is None,
        0 <= n <= row.len(),
    ensures
        forall|c: int| 0 <= c < n ==> row[c].spec_fits(kinds[c]),
    decreases n,
{
    if n > 0 {
        lemma_no_shape_error_fits(row, kinds, n - 1);
        if !row[n - 1].spec_fits(kinds[n - 1]) {
            assert(first_misfit(row, kinds, n - 1));
        }
    }
}

/// Rows whose (key, hash) columns differ pairwise decode to signatures whose
/// (key, hash) references differ pairwise: decoding merges no two rows.
pub proof fn lemma_signature_keys_stay_distinct(rows: Seq<Seq<SqlValue>>, sigs: Seq<Signature>)
    requires
        rows.len() == sigs.len(),
        forall|i: int|
            0 <= i < rows.len() ==> signature_from_row(#[trigger] rows[i]) == Ok::<
                Signature,
                DecodeError,
            >(sigs[i]),
        forall|i: int, j: int|
            0 <= i < j < rows.len() ==> rows[i][0] != rows[j][0] || rows[i][1] != rows[j][1],
    ensures
        forall|i: int, j: int|
            0 <= i < j < sigs.len() ==> sigs[i].key != sigs[j].key || sigs[i].hash != sigs[j].hash,
{
    assert forall|i: int, j: int| 0 <= i < j < sigs.len() implies sigs[i].key != sigs[j].key
        || sigs[i].hash != sigs[j].hash by {
        assert(signature_from_row(rows[i]) is Ok);
        assert(signature_from_row(rows[j]) is Ok);
        let kinds = EntityType::Signature.columns();
        lemma_no_shape_error_fits(rows[i], kinds, 4);
        lemma_no_shape_error_fits(rows[j], kinds, 4);
        if rows[i][0] != rows[j][0] {
            assert(sigs[i].key.key == rows[i][0]->Integer_0);
            assert(sigs[j].key.key == rows[j][0]->Integer_0);
        }
        if rows[i][1] != rows[j][1] {
            assert(sigs[i].hash.key == rows[i][1]->Text_0);
            assert(sigs[j].hash.key == rows[j][1]->Text_0);
        }
    }
}

} // verus!
