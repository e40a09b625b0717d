//! The genealogy graph: Person nodes, the directed relationship edges
//! between them, and the statements that create them in the graph store.
//!
//! Each statement carries, beside its Cypher text and parameters, the edges
//! it creates when every node it matches exists; the store model below
//! says what running a statement does to the graph.
use vstd::prelude::*;
use vstd::multiset::Multiset;
use crate::ids::{user_id_text, uuid_text};

verus! {

/// A person in the family graph.
#[derive(Debug)]
pub struct Person {
    /// Chosen by the client, unique among all persons.
    pub id: String,
    pub name: String,
    pub birth_date: String,
    /// "male", "female" or "other".
    pub gender: String,
    /// The user who recorded this person.
    pub created_by_user_id: u128,
}

/// The kind of a directed edge.
#[derive(Debug, Clone, Copy, PartialEq, Eq, Structural)]
pub enum Relation {
    ParentOf,
    MarriedTo,
    SiblingOf,
}

/// A directed edge between two persons, by id.
#[derive(Debug)]
pub struct Edge {
    pub from: String,
    pub relation: Relation,
    pub to: String,
}

/// A statement for the graph store.
#[derive(Debug)]
pub struct GraphQuery {
    pub text: String,
    /// Named parameters, all passed as text.
    pub params: Vec<(String, String)>,
    /// The edges created when both matched persons exist.
    pub edges: Vec<Edge>,
}

/// An edge as the model sees it.
pub type EdgeView = (Seq<char>, Relation, Seq<char>);

pub open spec fn edge_view(e: Edge) -> EdgeView {
    (e.from@, e.relation, e.to@)
}

/// The edges a statement creates, in the model's terms.
pub open spec fn created_edges(q: GraphQuery) -> Seq<EdgeView> {
    q.edges@.map_values(|e: Edge| edge_view(e))
}

/// The edges of linking `a` to `b`: one edge for a parent, one in each
/// direction for a marriage or for siblings.
pub open spec fn link_edges(relation: Relation, a: Seq<char>, b: Seq<char>) -> Seq<EdgeView> {
    match relation {
        Relation::ParentOf => seq![(a, relation, b)],
        _ => seq![(a, relation, b), (b, relation, a)],
    }
}

/// The edges of the graph after a linking statement ran: its edges are
/// added when both ends exist, and nothing changes otherwise.
pub open spec fn after_link(persons: Set<Seq<char>>, edges: Multiset<EdgeView>, a: Seq<char>, b: Seq<char>, created: Seq<EdgeView>) -> Multiset<EdgeView> {
    if persons.contains(a) && persons.contains(b) {
        edges.add(created.to_multiset())
    } else {
        edges
    }
}

pub const CREATE_PERSON: &'static str = "CREATE (:Person {id: $id, name: $name, birth_date: $birth_date, gender: $gender, created_by_user_id: $created_by_user_id})";

pub const LINK_PARENT: &'static str = "MATCH (parent:Person {id: $parent_id}), (child:Person {id: $child_id}) CREATE (parent)-[:PARENT_OF]->(child)";

pub const LINK_MARRIAGE: &'static str = "MATCH (p1:Person {id: $person1_id}), (p2:Person {id: $person2_id}) CREATE (p1)-[:MARRIED_TO]->(p2), (p2)-[:MARRIED_TO]->(p1)";

pub const LINK_SIBLINGS: &'static str = "MATCH (p1:Person {id: $person1_id}), (p2:Person {id: $person2_id}) CREATE (p1)-[:SIBLING_OF]->(p2), (p2)-[:SIBLING_OF]->(p1)";

pub const PERSON_ID_UNIQUE: &'static str = "CREATE CONSTRAINT IF NOT EXISTS FOR (p:Person) REQUIRE p.id IS UNIQUE";

pub const PERSON_CREATOR_INDEX: &'static str = "CREATE INDEX IF NOT EXISTS FOR (p:Person) ON (p.created_by_user_id)";

fn param(k: &str, v: &str) -> (r: (String, String))
    ensures
        r.0@ == k@,
        r.1@ == v@,
{
    (k.to_owned(), v.to_owned())
}

fn edge(from: &str, relation: Relation, to: &str) -> (r: Edge)
    ensures
        edge_view(r) == (from@, relation, to@),
{
    Edge { from: from.to_owned(), relation, to: to.to_owned() }
}

fn link(text: &str, key1: &str, key2: &str, relation: Relation, a: &str, b: &str) -> (r: GraphQuery)
    ensures
        r.text@ == text@,
        r.params@.len() == 2,
        r.params@[0].0@ == key1@ && r.params@[0].1@ == a@,
        r.params@[1].0@ == key2@ && r.params@[1].1@ == b@,
        created_edges(r) == link_edges(relation, a@, b@),
{
    let mut params: Vec<(String, String)> = Vec::new();
    params.push(param(key1, a));
    params.push(param(key2, b));
    let mut edges: Vec<Edge> = Vec::new();
    edges.push(edge(a, relation, b));
    if relation != Relation::ParentOf {
        edges.push(edge(b, relation, a));
    }
    let r = GraphQuery { text: text.to_owned(), params, edges };
    assert(created_edges(r) =~= link_edges(relation, a@, b@));
    r
}

impl Person {
    /// The statement that inserts this person with all its attributes; the
    /// store refuses it when the id is taken.
    pub fn create(person: &Person) -> (r: GraphQuery)
        ensures
            r.text@ == CREATE_PERSON@,
            r.params@.len() == 5,
            r.params@[0].0@ == "id"@ && r.params@[0].1@ == person.id@,
            r.params@[1].0@ == "name"@ && r.params@[1].1@ == person.name@,
            r.params@[2].0@ == "birth_date"@ && r.params@[2].1@ == person.birth_date@,
            r.params@[3].0@ == "gender"@ && r.params@[3].1@ == person.gender@,
            r.params@[4].0@ == "created_by_user_id"@ && r.params@[4].1@ == uuid_text(person.created_by_user_id),
            r.edges@.len() == 0,
    {
        let creator = user_id_text(person.created_by_user_id);
        let mut params: Vec<(String, String)> = Vec::new();
        params.push(param("id", person.id.as_str()));
        params.push(param("name", person.name.as_str()));
        params.push(param("birth_date", person.birth_date.as_str()));
        params.push(param("gender", person.gender.as_str()));
        params.push(param("created_by_user_id", creator.as_str()));
        GraphQuery { text: CREATE_PERSON.to_owned(), params, edges: Vec::new() }
    }

    /// The statement that records `parent_id` as a parent of `child_id`:
    /// one edge, created only when both persons exist.
    pub fn link_parent(parent_id: &str, child_id: &str) -> (r: GraphQuery)
        ensures
            r.text@ == LINK_PARENT@,
            r.params@.len() == 2,
            r.params@[0].0@ == "parent_id"@ && r.params@[0].1@ == parent_id@,
            r.params@[1].0@ == "child_id"@ && r.params@[1].1@ == child_id@,
            created_edges(r) == seq![(parent_id@, Relation::ParentOf, child_id@)],
    {
        link(LINK_PARENT, "parent_id", "child_id", Relation::ParentOf, parent_id, child_id)
    }

    /// The statement that marries two persons: an edge each way.
    pub fn link_marriage(person1_id: &str, person2_id: &str) -> (r: GraphQuery)
        ensures
            r.text@ == LINK_MARRIAGE@,
            r.params@.len() == 2,
            r.params@[0].0@ == "person1_id"@ && r.params@[0].1@ == person1_id@,
            r.params@[1].0@ == "person2_id"@ && r.params@[1].1@ == person2_id@,
            created_edges(r) == link_edges(Relation::MarriedTo, person1_id@, person2_id@),
    {
        link(LINK_MARRIAGE, "person1_id", "person2_id", Relation::MarriedTo, person1_id, person2_id)
    }

    /// The statement that makes two persons siblings: an edge each way.
    pub fn link_siblings(person1_id: &str, person2_id: &str) -> (r: GraphQuery)
        ensures
            r.text@ == LINK_SIBLINGS@,
            r.params@.len() == 2,
            r.params@[0].0@ == "person1_id"@ && r.params@[0].1@ == person1_id@,
            r.params@[1].0@ == "person2_id"@ && r.params@[1].1@ == person2_id@,
            created_edges(r) == link_edges(Relation::SiblingOf, person1_id@, person2_id@),
    {
        link(LINK_SIBLINGS, "person1_id", "person2_id", Relation::SiblingOf, person1_id, person2_id)
    }
}

/// Linking two existing persons by marriage or as siblings leaves an edge
/// in each direction between them.
pub proof fn lemma_symmetric_link(persons: Set<Seq<char>>, edges: Multiset<EdgeView>, relation: Relation, a: Seq<char>, b: Seq<char>)
    requires
        relation != Relation::ParentOf,
        persons.contains(a),
        persons.contains(b),
    ensures
        after_link(persons, edges, a, b, link_edges(relation, a, b)).count((a, relation, b)) >= 1,
        after_link(persons, edges, a, b, link_edges(relation, a, b)).count((b, relation, a)) >= 1,
{
    let s = link_edges(relation, a, b);
    assert(s[0] == (a, relation, b));
    assert(s[1] == (b, relation, a));
    s.to_multiset_ensures();
    assert(s.contains((a, relation, b)));
    assert(s.contains((b, relation, a)));
}

/// What the schema holds on Person nodes.
#[derive(Debug, Clone, Copy, PartialEq, Eq, Structural)]
pub enum SchemaItem {
    /// No two persons share an id.
    UniquePersonId,
    /// An index on `created_by_user_id`.
    PersonCreatorIndex,
}

/// A schema statement and the item it ensures.
#[derive(Debug)]
pub struct SchemaStatement {
    pub item: SchemaItem,
    pub text: String,
}

/// The schema after statements that each create their item unless it is
/// already there.
pub open spec fn after_schema(schema: Set<SchemaItem>, items: Seq<SchemaItem>) -> Set<SchemaItem>
    decreases items.len(),
{
    if items.len() == 0 {
        schema
    } else {
        after_schema(schema.insert(items[0]), items.drop_first())
    }
}

pub open spec fn schema_items(stmts: Seq<SchemaStatement>) -> Seq<SchemaItem> {
    stmts.map_values(|s: SchemaStatement| s.item)
}

/// The statements that install the uniqueness of Person ids and the index
/// on their creator, each only where it is missing.
pub fn init_schema() -> (r: Vec<SchemaStatement>)
    ensures
        r@.len() == 2,
        r@[0].item == SchemaItem::UniquePersonId && r@[0].text@ == PERSON_ID_UNIQUE@,
        r@[1].item == SchemaItem::PersonCreatorIndex && r@[1].text@ == PERSON_CREATOR_INDEX@,
        schema_items(r@) == seq![SchemaItem::UniquePersonId, SchemaItem::PersonCreatorIndex],
{
    let mut r: Vec<SchemaStatement> = Vec::new();
    r.push(SchemaStatement { item: SchemaItem::UniquePersonId, text: PERSON_ID_UNIQUE.to_owned() });
    r.push(SchemaStatement { item: SchemaItem::PersonCreatorIndex, text: PERSON_CREATOR_INDEX.to_owned() });
    assert(schema_items(r@) =~= seq![SchemaItem::UniquePersonId, SchemaItem::PersonCreatorIndex]);
    r
}

proof fn lemma_after_schema_contents(schema: Set<SchemaItem>, items: Seq<SchemaItem>)
    ensures
        after_schema(schema, items) == schema + items.to_set(),
    decreases items.len(),
{
    if items.len() == 0 {
        assert(items.to_set() =~= Set::empty());
        assert(schema + items.to_set() =~= schema);
    } else {
        lemma_after_schema_contents(schema.insert(items[0]), items.drop_first());
        assert(items.to_set() =~= items.drop_first().to_set().insert(items[0])) by {
            assert forall|x: SchemaItem| items.to_set().contains(x) <==> items.drop_first().to_set().insert(items[0]).contains(x) by {
                if items.contains(x) && x != items[0] {
                    let i = choose|i: int| 0 <= i < items.len() && items[i] == x;
                    assert(items.drop_first()[i - 1] == x);
                }
                if items.drop_first().contains(x) {
                    let i = choose|i: int| 0 <= i < items.drop_first().len() && items.drop_first()[i] == x;
                    assert(items[i + 1] == x);
                }
                assert(items[0] == items[0]);
                assert(items.contains(items[0]));
            }
        }
        assert(schema.insert(items[0]) + items.drop_first().to_set() =~= schema + items.to_set());
    }
}

/// Running the schema statements a second time changes nothing: the schema
/// after two runs is the schema after one.
pub proof fn lemma_init_schema_idempotent(schema: Set<SchemaItem>, items: Seq<SchemaItem>)
    ensures
        after_schema(after_schema(schema, items), items) == after_schema(schema, items),
{
    lemma_after_schema_contents(schema, items);
    lemma_after_schema_contents(after_schema(schema, items), items);
    assert(after_schema(schema, items) + items.to_set() =~= after_schema(schema, items));
}

} // verus!
