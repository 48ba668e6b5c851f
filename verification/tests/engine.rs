use person_registry::builder::UpdatePatch;
use person_registry::date::Date;
use person_registry::ledger::AttrValue;
use person_registry::person::CreateRequest;
use person_registry::registry::Registry;
use person_registry::Error;

fn day(year: u32, month: u32, d: u32) -> Date {
    Date { year, month, day: d }
}

fn blank_request() -> CreateRequest {
    CreateRequest {
        first_name: None,
        last_name: None,
        birth_date: None,
        is_alive: true,
        current_sex: None,
        current_alias: None,
        first_parent_id: None,
        first_parent_relationship: None,
        second_parent_id: None,
        second_parent_relationship: None,
        guardian_id: None,
    }
}

#[test]
fn create_seeds_history_and_append_on_presence() {
    let mut reg = Registry::new();
    let today = day(2024, 5, 1);
    let req = CreateRequest {
        first_name: Some("Ada".to_string()),
        current_sex: Some("F".to_string()),
        ..blank_request()
    };
    let id = reg.create(&req, today).unwrap();
    assert_eq!(id, 1);

    let people = reg.people();
    assert_eq!(people.len(), 1);
    assert_eq!(people[0].person_id, 1);
    assert_eq!(people[0].first_name, Some("Ada".to_string()));
    assert_eq!(people[0].current_sex, Some("F".to_string()));
    assert!(people[0].is_alive);

    let names = reg.name_history();
    assert_eq!(names.len(), 1);
    assert_eq!(names[0].person_id, 1);
    assert_eq!(names[0].value, AttrValue::Text("Ada".to_string()));
    assert_eq!(names[0].start_date, today);

    let sexes = reg.sex_history();
    assert_eq!(sexes.len(), 1);
    assert_eq!(sexes[0].value, AttrValue::Text("F".to_string()));
    assert_eq!(sexes[0].start_date, today);

    // Updating with the same sex value appends a second record anyway:
    // history grows on presence in the patch, not on value change.
    let patch = UpdatePatch { current_sex: Some("F".to_string()), ..UpdatePatch::default() };
    reg.update(1, &patch, today).unwrap();
    let sexes = reg.sex_history();
    assert_eq!(sexes.len(), 2);
    assert_eq!(sexes[0].value, AttrValue::Text("F".to_string()));
    assert_eq!(sexes[1].value, AttrValue::Text("F".to_string()));
    assert_eq!(sexes[1].start_date, today);
    assert!(sexes[0].history_id < sexes[1].history_id);
}

#[test]
fn empty_patch_is_a_noop() {
    let mut reg = Registry::new();
    let today = day(2024, 5, 1);
    let req = CreateRequest { first_name: Some("Ada".to_string()), ..blank_request() };
    reg.create(&req, today).unwrap();

    let people_before = reg.people().clone();
    let names_before = reg.name_history().clone();

    let r = reg.update(1, &UpdatePatch::empty(), day(2024, 6, 1));
    assert!(r.is_ok());
    assert_eq!(reg.people(), &people_before);
    assert_eq!(reg.name_history(), &names_before);
    assert_eq!(reg.sex_history().len(), 0);
    assert_eq!(reg.alias_history().len(), 0);
    assert_eq!(reg.guardian_history().len(), 0);

    // An empty patch on a missing identity is also a no-op, not an error.
    assert!(reg.update(99, &UpdatePatch::empty(), day(2024, 6, 1)).is_ok());
}

#[test]
fn history_is_append_only_and_date_ordered() {
    let mut reg = Registry::new();
    reg.create(&blank_request(), day(2024, 1, 1)).unwrap();

    let aliases = ["Countess", "Enchantress", "AAL"];
    for (k, alias) in aliases.iter().enumerate() {
        let before = reg.alias_history().clone();
        let patch =
            UpdatePatch { current_alias: Some(alias.to_string()), ..UpdatePatch::default() };
        reg.update(1, &patch, day(2024, 2, 1 + k as u32)).unwrap();
        let after = reg.alias_history();
        // The prior records are exactly the prefix of the new ones.
        assert_eq!(after.len(), before.len() + 1);
        assert_eq!(&after[..before.len()], &before[..]);
        assert_eq!(after[after.len() - 1].value, AttrValue::Text(alias.to_string()));
    }
    let all = reg.alias_history();
    assert_eq!(all.len(), 3);
    for w in all.windows(2) {
        assert!(w[0].start_date.on_or_before(&w[1].start_date));
        assert!(w[0].history_id < w[1].history_id);
    }
    // The projection caches the greatest-ordered record's value.
    assert_eq!(reg.find(1).unwrap().current_alias, Some("AAL".to_string()));
}

#[test]
fn create_with_first_parent_writes_one_parentage_row() {
    let mut reg = Registry::new();
    let today = day(2024, 3, 3);
    let mother = reg.create(&blank_request(), today).unwrap();
    let req = CreateRequest {
        first_name: Some("Child".to_string()),
        first_parent_id: Some(mother),
        first_parent_relationship: Some("biological mother".to_string()),
        ..blank_request()
    };
    let child = reg.create(&req, today).unwrap();

    let rows = reg.parentage_rows();
    assert_eq!(rows.len(), 1);
    assert_eq!(rows[0].person_id, child);
    assert_eq!(rows[0].first_parent_id, mother);
    assert_eq!(rows[0].first_parent_relationship, Some("biological mother".to_string()));
    assert_eq!(rows[0].second_parent_id, None);
    assert_eq!(rows[0].second_parent_relationship, None);
}

#[test]
fn create_rejects_unpaired_parent_label() {
    let mut reg = Registry::new();
    let today = day(2024, 3, 3);
    // A relationship label without its parent identity.
    let req = CreateRequest {
        first_parent_relationship: Some("biological mother".to_string()),
        ..blank_request()
    };
    assert_eq!(reg.create(&req, today), Err(Error::Validation));
    // A parent identity without its relationship label.
    let req = CreateRequest { first_parent_id: Some(1), ..blank_request() };
    assert_eq!(reg.create(&req, today), Err(Error::Validation));
    // A second-parent label without the second parent.
    let req = CreateRequest {
        first_parent_id: Some(1),
        first_parent_relationship: Some("biological mother".to_string()),
        second_parent_relationship: Some("biological father".to_string()),
        ..blank_request()
    };
    assert_eq!(reg.create(&req, today), Err(Error::Validation));
    // Nothing was written by any rejected attempt.
    assert_eq!(reg.people().len(), 0);
    assert_eq!(reg.parentage_rows().len(), 0);
    assert_eq!(reg.name_history().len(), 0);
}

#[test]
fn disjoint_updates_both_apply() {
    let mut reg = Registry::new();
    let today = day(2024, 7, 1);
    reg.create(&blank_request(), today).unwrap();

    let patch_a = UpdatePatch { first_name: Some("Ada".to_string()), ..UpdatePatch::default() };
    let patch_b =
        UpdatePatch { current_alias: Some("Countess".to_string()), ..UpdatePatch::default() };
    reg.update(1, &patch_a, today).unwrap();
    reg.update(1, &patch_b, today).unwrap();

    let p = reg.find(1).unwrap();
    assert_eq!(p.first_name, Some("Ada".to_string()));
    assert_eq!(p.current_alias, Some("Countess".to_string()));
    assert_eq!(reg.name_history().len(), 1);
    assert_eq!(reg.alias_history().len(), 1);
}

#[test]
fn update_missing_identity_is_not_found() {
    let mut reg = Registry::new();
    let patch = UpdatePatch { last_name: Some("Lovelace".to_string()), ..UpdatePatch::default() };
    assert_eq!(reg.update(42, &patch, day(2024, 1, 1)), Err(Error::NotFound));
    assert_eq!(reg.name_history().len(), 0);
}

#[test]
fn guardian_update_touches_projection_and_guardian_ledger_only() {
    let mut reg = Registry::new();
    let today = day(2024, 8, 8);
    let guardian = reg.create(&blank_request(), today).unwrap();
    let ward = reg.create(&blank_request(), today).unwrap();

    let patch = UpdatePatch { guardian_id: Some(guardian), ..UpdatePatch::default() };
    reg.update(ward, &patch, today).unwrap();

    assert_eq!(reg.find(ward).unwrap().guardian_id, Some(guardian));
    let gh = reg.guardian_history();
    assert_eq!(gh.len(), 1);
    assert_eq!(gh[0].person_id, ward);
    assert_eq!(gh[0].value, AttrValue::Id(guardian));
    // Guardianship is never written to the parentage relation.
    assert_eq!(reg.parentage_rows().len(), 0);
}

#[test]
fn delete_removes_projection_and_keeps_history() {
    let mut reg = Registry::new();
    let today = day(2024, 9, 9);
    let req = CreateRequest { first_name: Some("Ada".to_string()), ..blank_request() };
    let id = reg.create(&req, today).unwrap();

    assert!(reg.delete(id));
    assert_eq!(reg.people().len(), 0);
    // The audit trail is retained.
    assert_eq!(reg.name_history().len(), 1);
    // Deleting a missing identity is indistinguishable from success.
    assert!(!reg.delete(id));
}

#[test]
fn identities_ascend_and_are_never_reused() {
    let mut reg = Registry::new();
    let today = day(2024, 1, 1);
    let a = reg.create(&blank_request(), today).unwrap();
    let b = reg.create(&blank_request(), today).unwrap();
    assert!(reg.delete(b));
    let c = reg.create(&blank_request(), today).unwrap();
    assert!(a < b && b < c);
    let people = reg.people();
    assert_eq!(people.len(), 2);
    assert!(people[0].person_id < people[1].person_id);
}

#[test]
fn projection_matches_ledger_after_a_sequence() {
    let mut reg = Registry::new();
    let mut d = 1;
    let req = CreateRequest {
        first_name: Some("Ada".to_string()),
        current_sex: Some("F".to_string()),
        ..blank_request()
    };
    reg.create(&req, day(2024, 1, d)).unwrap();
    reg.create(&blank_request(), day(2024, 1, d)).unwrap();
    for name in ["A", "B", "C"] {
        d += 1;
        let patch = UpdatePatch { first_name: Some(name.to_string()), ..UpdatePatch::default() };
        reg.update(1, &patch, day(2024, 1, d)).unwrap();
    }
    let patch = UpdatePatch { first_name: Some("X".to_string()), ..UpdatePatch::default() };
    reg.update(2, &patch, day(2024, 1, d)).unwrap();

    for p in reg.people().iter() {
        // The current name equals the value of that person's last record
        // in the name ledger (the greatest (start_date, history_id)).
        let derived = reg
            .name_history()
            .iter()
            .filter(|r| r.person_id == p.person_id)
            .last()
            .map(|r| r.value.clone());
        let cached = p.first_name.clone().map(AttrValue::Text);
        assert_eq!(derived, cached);
    }
    assert_eq!(reg.find(1).unwrap().first_name, Some("C".to_string()));
    assert_eq!(reg.find(2).unwrap().first_name, Some("X".to_string()));
}
