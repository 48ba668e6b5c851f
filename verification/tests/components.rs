use person_registry::builder::{build_update_pairs, Field, FieldValue, UpdatePatch};
use person_registry::date::{days_in_month, Date};
use person_registry::parentage::ParentageLinker;
use person_registry::Error;

#[test]
fn builder_emits_supplied_fields_in_stable_order() {
    let patch = UpdatePatch {
        first_name: Some("Ada".to_string()),
        guardian_id: Some(7),
        is_alive: Some(false),
        ..UpdatePatch::default()
    };
    let pairs = build_update_pairs(&patch);
    assert_eq!(pairs.len(), 3);
    assert_eq!(pairs[0].field, Field::FirstName);
    assert_eq!(pairs[0].value, FieldValue::Text("Ada".to_string()));
    assert_eq!(pairs[1].field, Field::IsAlive);
    assert_eq!(pairs[1].value, FieldValue::Flag(false));
    assert_eq!(pairs[2].field, Field::GuardianId);
    assert_eq!(pairs[2].value, FieldValue::Id(7));
}

#[test]
fn builder_emits_nothing_for_an_empty_patch() {
    let pairs = build_update_pairs(&UpdatePatch::empty());
    assert!(pairs.is_empty());
    assert!(UpdatePatch::empty().is_empty());
}

#[test]
fn builder_emits_every_field_when_all_are_supplied() {
    let patch = UpdatePatch {
        first_name: Some("Ada".to_string()),
        last_name: Some("Lovelace".to_string()),
        birth_date: Some(Date { year: 1815, month: 12, day: 10 }),
        is_alive: Some(true),
        current_sex: Some("F".to_string()),
        current_alias: Some("Countess".to_string()),
        guardian_id: Some(3),
    };
    let pairs = build_update_pairs(&patch);
    let fields: Vec<Field> = pairs.iter().map(|a| a.field).collect();
    assert_eq!(
        fields,
        vec![
            Field::FirstName,
            Field::LastName,
            Field::BirthDate,
            Field::IsAlive,
            Field::CurrentSex,
            Field::CurrentAlias,
            Field::GuardianId,
        ]
    );
}

#[test]
fn linker_rejects_a_second_attempt_for_the_same_person() {
    let mut linker = ParentageLinker::new();
    let first = linker.link_once(5, 1, Some("biological mother".to_string()), None, None);
    assert!(first.is_ok());
    let second = linker.link_once(5, 2, Some("biological father".to_string()), None, None);
    assert_eq!(second, Err(Error::Validation));
    assert_eq!(linker.entries().len(), 1);
    assert_eq!(linker.entries()[0].first_parent_id, 1);
}

#[test]
fn linker_rejects_unpaired_second_parent() {
    let mut linker = ParentageLinker::new();
    let r = linker.link_once(5, 1, Some("biological mother".to_string()), Some(2), None);
    assert_eq!(r, Err(Error::Validation));
    let r = linker.link_once(
        5,
        1,
        Some("biological mother".to_string()),
        None,
        Some("biological father".to_string()),
    );
    assert_eq!(r, Err(Error::Validation));
    assert!(linker.entries().is_empty());
}

#[test]
fn dates_follow_the_gregorian_rules() {
    assert!(Date::new(2024, 2, 29).is_some());
    assert!(Date::new(2023, 2, 29).is_none());
    assert!(Date::new(1900, 2, 29).is_none());
    assert!(Date::new(2000, 2, 29).is_some());
    assert!(Date::new(2024, 4, 31).is_none());
    assert!(Date::new(2024, 13, 1).is_none());
    assert!(Date::new(2024, 1, 0).is_none());
    assert_eq!(days_in_month(2024, 2), 29);
    assert_eq!(days_in_month(2100, 2), 28);
    assert_eq!(days_in_month(2024, 11), 30);
}

#[test]
fn date_order_is_lexicographic() {
    let a = Date { year: 2023, month: 12, day: 31 };
    let b = Date { year: 2024, month: 1, day: 1 };
    let c = Date { year: 2024, month: 1, day: 2 };
    assert!(a.on_or_before(&b));
    assert!(b.on_or_before(&c));
    assert!(!c.on_or_before(&a));
    assert!(b.on_or_before(&b));
}
