use sidereth::deadline::{
    ApplicabilityStatus, CivilDate, Deadline, DeadlineRegistry, DeadlineStatus, DeadlineType,
    Obligation,
};

fn date() -> CivilDate {
    CivilDate::new(2026, 1, 31).unwrap()
}

fn deadline() -> Deadline {
    Deadline {
        deadline_id: "d-1".into(),
        procedure_id: "p-1".into(),
        name: "Response deadline".into(),
        deadline_type: DeadlineType::Response,
        anchor_date: date(),
        duration_days: 28,
        due_date: CivilDate::new(2026, 2, 28).unwrap(),
        status: DeadlineStatus::Planned,
        source_refs: vec!["src-1".into()],
    }
}

fn obligation() -> Obligation {
    Obligation {
        obligation_id: "o-1".into(),
        deadline_id: "d-1".into(),
        description: "Provide the required response".into(),
        applicability: ApplicabilityStatus::Unverified,
        source_refs: vec!["src-1".into()],
    }
}

#[test]
fn calendar_addition_handles_month_end() {
    assert_eq!(
        date().checked_add_days(28),
        Some(CivilDate::new(2026, 2, 28).unwrap())
    );
}

#[test]
fn leap_day_is_valid() {
    assert_eq!(
        CivilDate::new(2028, 2, 29).unwrap().checked_add_days(1),
        Some(CivilDate::new(2028, 3, 1).unwrap())
    );
}

#[test]
fn invalid_date_is_rejected() {
    assert_eq!(CivilDate::new(2026, 2, 29), Err("invalid civil date"));
}

#[test]
fn inconsistent_due_date_is_rejected() {
    let mut value = deadline();
    value.due_date = CivilDate::new(2026, 3, 1).unwrap();
    assert_eq!(
        value.validate(),
        Err("deadline due date does not match duration")
    );
}

#[test]
fn deadline_missing_source_is_rejected() {
    let mut value = deadline();
    value.source_refs.clear();
    assert_eq!(
        value.validate(),
        Err("deadline source references are required")
    );
}

#[test]
fn deadline_duplicate_ids_are_rejected() {
    let mut registry = DeadlineRegistry::default();
    registry.insert(deadline(), vec![]).unwrap();
    assert_eq!(
        registry.insert(deadline(), vec![]),
        Err("duplicate deadline id")
    );
}

#[test]
fn obligation_mismatch_is_rejected() {
    let mut value = obligation();
    value.deadline_id = "other".into();
    let mut registry = DeadlineRegistry::default();
    assert_eq!(
        registry.insert(deadline(), vec![value]),
        Err("obligation belongs to another deadline")
    );
}

#[test]
fn invalid_status_transition_is_rejected() {
    let mut registry = DeadlineRegistry::default();
    registry.insert(deadline(), vec![]).unwrap();
    assert_eq!(
        registry.transition(&"d-1".into(), DeadlineStatus::Satisfied),
        Err("invalid deadline status transition")
    );
}

#[test]
fn status_transition_is_deterministic() {
    let mut registry = DeadlineRegistry::default();
    registry.insert(deadline(), vec![]).unwrap();
    assert!(registry
        .transition(&"d-1".into(), DeadlineStatus::Due)
        .is_ok());
    assert_eq!(
        registry.get_deadline(&"d-1".into()).unwrap().status,
        DeadlineStatus::Due
    );
}

#[test]
fn ids_are_sorted() {
    let mut registry = DeadlineRegistry::default();
    let mut second = deadline();
    second.deadline_id = "d-2".into();
    registry.insert(second, vec![]).unwrap();
    registry.insert(deadline(), vec![]).unwrap();
    assert_eq!(registry.deadline_ids(), vec!["d-1", "d-2"]);
}

#[test]
fn applicability_is_not_a_lawfulness_conclusion() {
    let item = obligation();
    assert_eq!(item.applicability, ApplicabilityStatus::Unverified);
    assert!(item.validate().is_ok());
}

#[test]
fn adding_days_crosses_year_and_century_boundaries() {
    let new_year = CivilDate::new(1999, 12, 31).unwrap();
    assert_eq!(new_year.checked_add_days(1), Some(CivilDate::new(2000, 1, 1).unwrap()));
    let leap_century = CivilDate::new(2000, 2, 28).unwrap();
    assert_eq!(leap_century.checked_add_days(1), Some(CivilDate::new(2000, 2, 29).unwrap()));
    let plain_century = CivilDate::new(1900, 2, 28).unwrap();
    assert_eq!(plain_century.checked_add_days(1), Some(CivilDate::new(1900, 3, 1).unwrap()));
    let before_epoch = CivilDate::new(-1, 12, 31).unwrap();
    assert_eq!(before_epoch.checked_add_days(1), Some(CivilDate::new(0, 1, 1).unwrap()));
}

#[test]
fn adding_zero_days_is_identity_and_additions_compose() {
    let d = CivilDate::new(2026, 1, 31).unwrap();
    assert_eq!(d.checked_add_days(0), Some(d));
    let a = d.checked_add_days(100).unwrap().checked_add_days(265).unwrap();
    assert_eq!(Some(a), d.checked_add_days(365));
}

#[test]
fn addition_past_the_last_representable_year_is_none() {
    let last = CivilDate::new(i32::MAX, 12, 31).unwrap();
    assert_eq!(last.checked_add_days(1), None);
    assert_eq!(last.checked_add_days(0), Some(last));
}

#[test]
fn obligations_are_listed_per_deadline_in_id_order() {
    let mut registry = DeadlineRegistry::default();
    let mut second = obligation();
    second.obligation_id = "o-2".into();
    registry.insert(deadline(), vec![second, obligation()]).unwrap();
    let listed: Vec<String> = registry
        .obligations_for(&"d-1".into())
        .iter()
        .map(|o| o.obligation_id.clone())
        .collect();
    assert_eq!(listed, vec!["o-1", "o-2"]);
    assert!(registry.obligations_for(&"d-2".into()).is_empty());
    assert!(registry.get_obligation(&"o-2".into()).is_some());
}

#[test]
fn adding_days_composes_and_keeps_order() {
    let d = CivilDate::new(2027, 12, 30).unwrap();
    assert_eq!(d.checked_add_days(0), Some(d));
    let first = d.checked_add_days(40).unwrap();
    assert_eq!(first, CivilDate::new(2028, 2, 8).unwrap());
    assert_eq!(first.checked_add_days(25), d.checked_add_days(65));
    assert_eq!(d.checked_add_days(65), Some(CivilDate::new(2028, 3, 4).unwrap()));
    let earlier = d.checked_add_days(3).unwrap();
    let later = d.checked_add_days(4).unwrap();
    assert_eq!(earlier, CivilDate::new(2028, 1, 2).unwrap());
    assert_eq!(later, CivilDate::new(2028, 1, 3).unwrap());
}

#[test]
fn epoch_round_trips() {
    let epoch = CivilDate::new(1970, 1, 1).unwrap();
    assert_eq!(epoch.checked_add_days(365), Some(CivilDate::new(1971, 1, 1).unwrap()));
    assert_eq!(epoch.checked_add_days(0), Some(epoch));
}
