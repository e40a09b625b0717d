use server::graph::{init_schema, Person, Relation, SchemaItem, LINK_MARRIAGE, PERSON_CREATOR_INDEX, PERSON_ID_UNIQUE};

fn edges(q: &server::graph::GraphQuery) -> Vec<(String, Relation, String)> {
    q.edges.iter().map(|e| (e.from.clone(), e.relation, e.to.clone())).collect()
}

#[test]
fn marriage_links_both_ways() {
    let q = Person::link_marriage("a", "b");
    assert_eq!(q.text, LINK_MARRIAGE);
    assert_eq!(q.params, vec![("person1_id".to_string(), "a".to_string()), ("person2_id".to_string(), "b".to_string())]);
    assert_eq!(edges(&q), vec![("a".to_string(), Relation::MarriedTo, "b".to_string()), ("b".to_string(), Relation::MarriedTo, "a".to_string())]);
}

#[test]
fn siblings_link_both_ways() {
    let q = Person::link_siblings("a", "b");
    assert!(q.text.contains("SIBLING_OF"));
    assert_eq!(edges(&q), vec![("a".to_string(), Relation::SiblingOf, "b".to_string()), ("b".to_string(), Relation::SiblingOf, "a".to_string())]);
}

#[test]
fn parent_link_one_way() {
    let q = Person::link_parent("p", "c");
    assert!(q.text.contains("PARENT_OF"));
    assert_eq!(q.params, vec![("parent_id".to_string(), "p".to_string()), ("child_id".to_string(), "c".to_string())]);
    assert_eq!(edges(&q), vec![("p".to_string(), Relation::ParentOf, "c".to_string())]);
}

#[test]
fn create_person_params() {
    let p = Person {
        id: "p-1".to_string(),
        name: "Ann".to_string(),
        birth_date: "1950-01-02".to_string(),
        gender: "female".to_string(),
        created_by_user_id: 0x67e5504410b1426f9247bb680e5fe0c8,
    };
    let q = Person::create(&p);
    assert!(q.text.starts_with("CREATE (:Person"));
    assert_eq!(q.params.len(), 5);
    assert_eq!(q.params[0], ("id".to_string(), "p-1".to_string()));
    assert_eq!(q.params[4], ("created_by_user_id".to_string(), "67e55044-10b1-426f-9247-bb680e5fe0c8".to_string()));
    assert!(q.edges.is_empty());
}

#[test]
fn schema_statements_create_only_if_missing() {
    let s = init_schema();
    assert_eq!(s.len(), 2);
    assert_eq!(s[0].item, SchemaItem::UniquePersonId);
    assert_eq!(s[0].text, PERSON_ID_UNIQUE);
    assert_eq!(s[1].item, SchemaItem::PersonCreatorIndex);
    assert_eq!(s[1].text, PERSON_CREATOR_INDEX);
    assert!(s.iter().all(|st| st.text.contains("IF NOT EXISTS")));
    let again = init_schema();
    assert_eq!(again.len(), 2);
}
