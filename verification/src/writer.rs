//! The write side: what is handed to the store to create a planet, and
//! what to delete one. A single worker performs the writes, one at a time.

use crate::domain::Planet;
use uuid::Uuid;
use vstd::prelude::*;

verus! {

/// The four attributes of a stored planet.
#[derive(Debug, Clone, Copy, PartialEq, Eq, Structural)]
pub enum Attribute {
    /// The identifier: unique, and the identity of the planet.
    Uuid,
    /// The name: unique, and indexed for full-text search.
    Name,
    /// The climate.
    Climate,
    /// The terrain.
    Terrain,
}

/// The keyword under which the store knows an attribute.
pub open spec fn keyword_of(attribute: Attribute) -> Seq<char> {
    match attribute {
        Attribute::Uuid => ":planet/uuid"@,
        Attribute::Name => ":planet/name"@,
        Attribute::Climate => ":planet/climate"@,
        Attribute::Terrain => ":planet/terrain"@,
    }
}

impl Attribute {
    /// The keyword under which the store knows this attribute.
    pub fn keyword(&self) -> (keyword: &'static str)
        ensures
            keyword@ == keyword_of(*self),
    {
        match self {
            Attribute::Uuid => ":planet/uuid",
            Attribute::Name => ":planet/name",
            Attribute::Climate => ":planet/climate",
            Attribute::Terrain => ":planet/terrain",
        }
    }
}

/// The name that stands for the new planet within the transaction that
/// creates it.
pub const TEMPID: &'static str = "x";

/// The attributes of the store, as it is given them once, when the store is
/// first made.
pub const SCHEMA: &'static str = "[
  {:db/ident :planet/uuid
   :db/valueType :db.type/uuid
   :db/index true
   :db/unique :db.unique/identity
   :db/cardinality :db.cardinality/one}
  {:db/ident :planet/name
   :db/valueType :db.type/string
   :db/index true
   :db/unique :db.unique/value
   :db/fulltext true
   :db/cardinality :db.cardinality/one}
  {:db/ident :planet/climate
   :db/valueType :db.type/string
   :db/cardinality :db.cardinality/one}
  {:db/ident :planet/terrain
   :db/valueType :db.type/string
   :db/cardinality :db.cardinality/one}
]";

/// The query that finds every triple of the planet with a given identifier.
pub const TRIPLES: &'static str = "[:find ?e ?a ?v
 :in ?id
 :where [?e ?a ?v][?e :planet/uuid ?id]]";

/// A value that is stored for an attribute.
pub enum Stored {
    /// An identifier.
    Uuid(u128),
    /// A text.
    Text(String),
}

/// One attribute of the new planet, with its value.
pub struct Assertion {
    pub attribute: Attribute,
    pub value: Stored,
}

/// Whether `terms` creates `planet` under the identifier `id`: its four
/// attributes, each once, the identifier first.
pub open spec fn creates(terms: Seq<Assertion>, id: u128, planet: Planet) -> bool {
    &&& terms.len() == 4
    &&& terms[0].attribute == Attribute::Uuid
    &&& terms[0].value == Stored::Uuid(id)
    &&& terms[1].attribute == Attribute::Name
    &&& terms[1].value == Stored::Text(planet.name)
    &&& terms[2].attribute == Attribute::Climate
    &&& terms[2].value == Stored::Text(planet.climate)
    &&& terms[3].attribute == Attribute::Terrain
    &&& terms[3].value == Stored::Text(planet.terrain)
}

/// The terms of the transaction that creates `planet` under `id`.
pub fn assertions(id: u128, planet: Planet) -> (terms: Vec<Assertion>)
    ensures
        creates(terms@, id, planet),
{
    let mut terms: Vec<Assertion> = Vec::new();
    terms.push(Assertion { attribute: Attribute::Uuid, value: Stored::Uuid(id) });
    terms.push(Assertion { attribute: Attribute::Name, value: Stored::Text(planet.name) });
    terms.push(Assertion { attribute: Attribute::Climate, value: Stored::Text(planet.climate) });
    terms.push(Assertion { attribute: Attribute::Terrain, value: Stored::Text(planet.terrain) });
    terms
}

/// Whether an identifier is marked as a random one: its version is 4, and
/// its variant is the one of RFC 4122.
pub open spec fn is_random(id: u128) -> bool {
    id & 0x0000_0000_0000_F000_C000_0000_0000_0000 == 0x0000_0000_0000_4000_8000_0000_0000_0000
}

/// Calls `Uuid::new_v4`, and `Uuid::as_u128` on what it returns: a random
/// identifier, drawn from the randomness of the operating system. Trusted:
/// whatever is drawn is marked as a random identifier.
#[verifier::external_body]
fn new_uuid() -> (id: u128)
    ensures
        is_random(id),
{
    Uuid::new_v4().as_u128()
}

/// Prepares the creation of a planet: draws a new identifier for it, and
/// gives the terms of the transaction that stores the planet under it.
pub fn create(planet: Planet) -> (prepared: (u128, Vec<Assertion>))
    ensures
        is_random(prepared.0),
        creates(prepared.1@, prepared.0, planet),
{
    let id = new_uuid();
    (id, assertions(id, planet))
}

/// A typed value of the store, as far as a deletion looks at it: a
/// reference to an entity or attribute, or any other value, which is
/// carried through as it is.
pub enum TypedValue<V> {
    Ref(i64),
    Other(V),
}

/// One column of a row that a query returned: a single value, or a
/// collection of them.
pub enum Binding<V> {
    Scalar(TypedValue<V>),
    Collection,
}

/// A triple to take out of the store.
pub struct Retraction<V> {
    pub entity: i64,
    pub attribute: i64,
    pub value: TypedValue<V>,
}

/// Whether a row begins with an entity, an attribute and a value: two
/// references and one more scalar.
pub open spec fn is_triple<V>(row: Seq<Binding<V>>) -> bool {
    &&& row.len() >= 3
    &&& row[0] matches Binding::Scalar(TypedValue::Ref(_))
    &&& row[1] matches Binding::Scalar(TypedValue::Ref(_))
    &&& row[2] is Scalar
}

/// The triple that a row begins with.
pub open spec fn triple_of<V>(row: Seq<Binding<V>>) -> Retraction<V> {
    Retraction {
        entity: row[0]->Scalar_0->Ref_0,
        attribute: row[1]->Scalar_0->Ref_0,
        value: row[2]->Scalar_0,
    }
}

/// Reads the entity, the attribute and the value that a row of the triples
/// query begins with.
pub fn eav<V>(row: Vec<Binding<V>>) -> (triple: Retraction<V>)
    requires
        is_triple(row@),
    ensures
        triple == triple_of(row@),
{
    let ghost given = row@;
    let mut row = row;
    while row.len() > 3
        invariant
            row.len() >= 3,
            given.len() >= 3,
            row@.take(3) == given.take(3),
        decreases row.len(),
    {
        let _ = row.pop();
    }
    assert(row@ == given.take(3));
    let value = row.pop();
    let attribute = row.pop();
    let entity = row.pop();
    match (entity, attribute, value) {
        (
            Some(Binding::Scalar(TypedValue::Ref(entity))),
            Some(Binding::Scalar(TypedValue::Ref(attribute))),
            Some(Binding::Scalar(value)),
        ) => Retraction { entity, attribute, value },
        _ => vstd::pervasive::unreached(),
    }
}

/// Whether `out` takes out exactly the triples that `rows` begin with: one
/// retraction for each row, in the order of the rows.
pub open spec fn retracts<V>(out: Seq<Retraction<V>>, rows: Seq<Vec<Binding<V>>>) -> bool {
    &&& out.len() == rows.len()
    &&& forall|i: int| 0 <= i < rows.len() ==> #[trigger] out[i] == triple_of(rows[i]@)
}

/// The terms of the transaction that deletes a planet, from the rows that
/// the triples query returned for its identifier: a retraction for each
/// triple. For an identifier that no planet has, the query returns no row,
/// and the transaction is empty.
pub fn retractions<V>(rows: Vec<Vec<Binding<V>>>) -> (out: Vec<Retraction<V>>)
    requires
        forall|i: int| 0 <= i < rows.len() ==> is_triple(#[trigger] rows[i]@),
    ensures
        retracts(out@, rows@),
{
    let ghost given = rows@;
    let ghost n = given.len() as int;
    let mut rows = rows;
    let mut stack: Vec<Vec<Binding<V>>> = Vec::new();
    while rows.len() > 0
        invariant
            n == given.len(),
            rows.len() + stack.len() == n,
            forall|i: int| 0 <= i < rows.len() ==> #[trigger] rows[i] == given[i],
            forall|j: int| 0 <= j < stack.len() ==> #[trigger] stack[j] == given[n - 1 - j],
        decreases rows.len(),
    {
        match rows.pop() {
            Some(row) => stack.push(row),
            None => {},
        }
    }
    let mut out: Vec<Retraction<V>> = Vec::new();
    while stack.len() > 0
        invariant
            n == given.len(),
            out.len() + stack.len() == n,
            forall|i: int| 0 <= i < n ==> is_triple(#[trigger] given[i]@),
            forall|j: int| 0 <= j < stack.len() ==> #[trigger] stack[j] == given[n - 1 - j],
            forall|i: int| 0 <= i < out.len() ==> #[trigger] out[i] == triple_of(given[i]@),
        decreases stack.len(),
    {
        match stack.pop() {
            Some(row) => out.push(eav(row)),
            None => {},
        }
    }
    out
}

} // verus!
