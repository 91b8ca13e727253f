use ilet_sync::decimal::{Decimal, MAX_MANTISSA};
use ilet_sync::domain::nightscout::{
    documents_of, has_negative_dose, iLet_to_ns, try_iLet_to_ns,
};
use ilet_sync::models::ilet::iLetData;
use ilet_sync::models::nightscout::{DocumentBase, NSDocs, Treatment};

fn dec(mantissa: i128, scale: u32) -> Decimal {
    Decimal::new(mantissa, scale).unwrap()
}

fn sample(total: Decimal, basal: Decimal, meal_dose: u8, bgm: i16, cgm: i16) -> iLetData {
    iLetData {
        serial_number: "BB-0001".to_string(),
        app_adjusted_time: "2024-03-19T16:05:00".to_string(),
        app_local_time: "2024-03-19T16:04:10".to_string(),
        step_index: 4711,
        cgm_value: cgm,
        basal_insulin_delivered: basal,
        total_insulin_delivered: total,
        glucagon_delivered: dec(0, 0),
        body_mass: 70,
        meal_type: 1,
        meal_dose,
        meal_size: 2,
        cf: 0,
        bR1: dec(5, 1),
        bR2: dec(5, 1),
        bR3: dec(5, 1),
        bR4: dec(5, 1),
        mdi: dec(0, 0),
        breakfast: dec(0, 0),
        lunch: dec(0, 0),
        dinner: dec(0, 0),
        cgm_target: 110,
        bgm_value: bgm,
    }
}

fn expected(event: &str, insulin: Decimal, glucose: &str, source: &str) -> Treatment {
    Treatment {
        base: DocumentBase {
            identifier: None,
            date: "2024-03-19T16:04:10".to_string(),
            utc_offset: None,
            app: "iLetSync-Web".to_string(),
            device: Some("iLet".to_string()),
            _id: None,
            srv_created: None,
            subject: None,
            srv_modified: None,
            modified_by: None,
            is_valid: None,
            is_read_only: None,
        },
        event_type: Some(event.to_string()),
        glucose: Some(glucose.to_string()),
        glucose_type: Some(source.to_string()),
        units: Some("mg/dl".to_string()),
        carbs: None,
        protein: None,
        fat: None,
        insulin: Some(insulin),
        duration: None,
        pre_bolus: None,
        split_now: None,
        split_ext: None,
        percent: None,
        absolute: None,
        target_top: None,
        target_bottom: None,
        profile: None,
        reason: None,
        notes: None,
        entered_by: None,
    }
}

fn treatment(slot: &Option<NSDocs>) -> &Treatment {
    match slot {
        Some(NSDocs::TreatmentDoc(t)) => t,
        _ => panic!("not a treatment"),
    }
}

fn parts(d: &Option<Decimal>) -> (i128, u32) {
    let d = d.unwrap();
    (d.mantissa(), d.scale())
}

#[test]
fn food_bolus_with_sensor_glucose() {
    let docs = iLet_to_ns(sample(dec(25, 1), dec(10, 1), 3, -1, 120));
    assert_eq!(
        docs,
        [
            Some(NSDocs::TreatmentDoc(expected("Basal", dec(10, 1), "120", "Sensor"))),
            Some(NSDocs::TreatmentDoc(expected("Food Bolus", dec(15, 1), "120", "Sensor"))),
        ]
    );
    assert_eq!(parts(&treatment(&docs[0]).insulin), (10, 1));
    assert_eq!(parts(&treatment(&docs[1]).insulin), (15, 1));
}

#[test]
fn basal_only_with_manual_glucose() {
    let docs = iLet_to_ns(sample(dec(8, 1), dec(8, 1), 0, 95, 130));
    assert_eq!(
        docs,
        [Some(NSDocs::TreatmentDoc(expected("Basal", dec(8, 1), "95", "Manual"))), None]
    );
    assert_eq!(parts(&treatment(&docs[0]).insulin), (8, 1));
}

#[test]
fn nothing_delivered_nothing_made() {
    let docs = iLet_to_ns(sample(dec(0, 0), dec(0, 0), 0, -1, 100));
    assert_eq!(docs, [None, None]);
}

#[test]
fn zero_total_gives_nothing_whatever_else_is_set() {
    for total in [dec(0, 0), dec(0, 1), dec(0, 28)] {
        for basal in [dec(0, 0), dec(10, 1), dec(-3, 2)] {
            for meal_dose in [0u8, 1, 255] {
                let docs = iLet_to_ns(sample(total, basal, meal_dose, 95, 120));
                assert_eq!(docs, [None, None]);
            }
        }
    }
}

#[test]
fn all_basal_gives_one_document() {
    for (total, basal) in [(dec(8, 1), dec(8, 1)), (dec(8, 1), dec(80, 2)), (dec(-5, 0), dec(-50, 1))]
    {
        let docs = iLet_to_ns(sample(total, basal, 0, -1, 101));
        assert!(docs[1].is_none());
        let t = treatment(&docs[0]);
        assert_eq!(t.event_type, Some("Basal".to_string()));
        assert_eq!(parts(&t.insulin), (basal.mantissa(), basal.scale()));
    }
}

#[test]
fn all_basal_gives_one_document_even_with_a_meal_dose() {
    let docs = iLet_to_ns(sample(dec(8, 1), dec(8, 1), 4, -1, 101));
    assert_eq!(
        docs,
        [Some(NSDocs::TreatmentDoc(expected("Basal", dec(8, 1), "101", "Sensor"))), None]
    );
}

#[test]
fn automated_bolus_is_total_less_basal() {
    let docs = iLet_to_ns(sample(dec(25, 1), dec(10, 1), 0, -1, 120));
    assert_eq!(treatment(&docs[0]).event_type, Some("Basal".to_string()));
    let bolus = treatment(&docs[1]);
    assert_eq!(bolus.event_type, Some("Automated Bolus".to_string()));
    assert_eq!(parts(&bolus.insulin), (15, 1));
}

#[test]
fn bolus_amount_keeps_the_finer_scale() {
    let docs = iLet_to_ns(sample(dec(3, 0), dec(125, 2), 0, -1, 120));
    assert_eq!(parts(&treatment(&docs[1]).insulin), (175, 2));
}

#[test]
fn food_bolus_for_any_meal_dose() {
    for meal_dose in [1u8, 2, 3, 100, 255] {
        let docs = iLet_to_ns(sample(dec(25, 1), dec(10, 1), meal_dose, -1, 120));
        assert_eq!(treatment(&docs[1]).event_type, Some("Food Bolus".to_string()));
    }
}

#[test]
fn near_equal_amounts_are_not_equal() {
    let total = dec(10_000_000_000_000_000_000_000_000_001, 28);
    let basal = dec(1, 0);
    let docs = iLet_to_ns(sample(total, basal, 0, -1, 120));
    let bolus = treatment(&docs[1]);
    assert_eq!(bolus.event_type, Some("Automated Bolus".to_string()));
    assert_eq!(parts(&bolus.insulin), (1, 28));
}

#[test]
fn sensor_glucose_where_no_manual_reading() {
    let docs = iLet_to_ns(sample(dec(25, 1), dec(10, 1), 0, -1, 400));
    for slot in docs.iter() {
        let t = treatment(slot);
        assert_eq!(t.glucose_type, Some("Sensor".to_string()));
        assert_eq!(t.glucose, Some("400".to_string()));
        assert_eq!(t.units, Some("mg/dl".to_string()));
    }
}

#[test]
fn manual_glucose_where_there_is_a_reading() {
    for bgm in [0i16, 1, 95, 400, -2, i16::MAX, i16::MIN] {
        let docs = iLet_to_ns(sample(dec(25, 1), dec(10, 1), 0, bgm, 120));
        for slot in docs.iter() {
            let t = treatment(slot);
            assert_eq!(t.glucose_type, Some("Manual".to_string()));
            assert_eq!(t.glucose, Some(bgm.to_string()));
        }
    }
}

#[test]
fn only_the_manual_sentinel_is_looked_at() {
    let docs = iLet_to_ns(sample(dec(8, 1), dec(8, 1), 0, -1, -1));
    let t = treatment(&docs[0]);
    assert_eq!(t.glucose_type, Some("Sensor".to_string()));
    assert_eq!(t.glucose, Some("-1".to_string()));
    let docs = iLet_to_ns(sample(dec(8, 1), dec(8, 1), 0, 88, -1));
    let t = treatment(&docs[0]);
    assert_eq!(t.glucose_type, Some("Manual".to_string()));
    assert_eq!(t.glucose, Some("88".to_string()));
}

#[test]
fn negative_bolus_is_passed_through() {
    let docs = iLet_to_ns(sample(dec(10, 1), dec(25, 1), 0, -1, 120));
    let bolus = treatment(&docs[1]);
    assert_eq!(bolus.event_type, Some("Automated Bolus".to_string()));
    assert_eq!(parts(&bolus.insulin), (-15, 1));
    assert!(!has_negative_dose(docs[0].as_ref().unwrap()));
    assert!(has_negative_dose(docs[1].as_ref().unwrap()));
}

#[test]
fn negative_dose_is_told_from_the_others() {
    for slot in iLet_to_ns(sample(dec(25, 1), dec(10, 1), 0, -1, 120)).iter() {
        assert!(!has_negative_dose(slot.as_ref().unwrap()));
    }
    let docs = iLet_to_ns(sample(dec(-8, 1), dec(-8, 1), 0, -1, 120));
    assert!(has_negative_dose(docs[0].as_ref().unwrap()));
    let mut unset = expected("Basal", dec(-8, 1), "120", "Sensor");
    unset.insulin = None;
    assert!(!has_negative_dose(&NSDocs::TreatmentDoc(unset)));
}

#[test]
fn same_sample_same_documents() {
    for (total, basal, meal_dose, bgm) in [
        (dec(25, 1), dec(10, 1), 3u8, -1i16),
        (dec(8, 1), dec(8, 1), 0, 95),
        (dec(0, 0), dec(0, 0), 0, -1),
        (dec(10, 1), dec(25, 1), 0, 60),
    ] {
        let record = sample(total, basal, meal_dose, bgm, 120);
        let first = iLet_to_ns(record.clone());
        let second = iLet_to_ns(record);
        assert_eq!(first, second);
    }
}

#[test]
fn envelope_is_dated_and_tagged() {
    let docs = iLet_to_ns(sample(dec(25, 1), dec(10, 1), 0, -1, 120));
    for slot in docs.iter() {
        let doc = slot.as_ref().unwrap();
        let base = doc.base();
        assert_eq!(base.date, "2024-03-19T16:04:10");
        assert_eq!(base.app, "iLetSync-Web");
        assert_eq!(base.device, Some("iLet".to_string()));
        assert_eq!(base.identifier, None);
        assert_eq!(base._id, None);
        assert_eq!(base.srv_created, None);
        assert_eq!(base.srv_modified, None);
        assert_eq!(base.is_valid, None);
    }
}

#[test]
fn documents_of_reads_the_bolus_it_is_given() {
    let record = sample(dec(25, 1), dec(10, 1), 0, -1, 120);
    let docs = documents_of(&record, dec(42, 0));
    assert_eq!(parts(&treatment(&docs[1]).insulin), (42, 0));
    assert_eq!(treatment(&docs[1]).event_type, Some("Automated Bolus".to_string()));
    assert_eq!(parts(&treatment(&docs[0]).insulin), (10, 1));
}

#[test]
fn documents_of_reads_no_bolus_where_there_is_none() {
    let all_basal = sample(dec(8, 1), dec(8, 1), 0, -1, 120);
    assert_eq!(
        documents_of(&all_basal, dec(42, 0)),
        [Some(NSDocs::TreatmentDoc(expected("Basal", dec(8, 1), "120", "Sensor"))), None]
    );
    let nothing = sample(dec(0, 0), dec(8, 1), 0, -1, 120);
    assert_eq!(documents_of(&nothing, dec(42, 0)), [None, None]);
}

#[test]
fn try_gives_what_the_transformation_gives() {
    let record = sample(dec(25, 1), dec(10, 1), 3, -1, 120);
    assert_eq!(try_iLet_to_ns(record.clone()), Some(iLet_to_ns(record)));
    let record = sample(dec(0, 0), dec(10, 1), 3, -1, 120);
    assert_eq!(try_iLet_to_ns(record), Some([None, None]));
}

#[test]
fn try_gives_none_where_the_bolus_overflows() {
    let record = sample(dec(MAX_MANTISSA, 0), dec(-MAX_MANTISSA, 0), 0, -1, 120);
    assert_eq!(try_iLet_to_ns(record), None);
}

#[test]
fn try_needs_no_bolus_where_there_is_none() {
    let record = sample(dec(0, 0), dec(-MAX_MANTISSA, 0), 0, -1, 120);
    assert_eq!(try_iLet_to_ns(record), Some([None, None]));
    let record = sample(dec(MAX_MANTISSA, 0), dec(MAX_MANTISSA, 0), 0, -1, 120);
    assert!(try_iLet_to_ns(record).unwrap()[1].is_none());
}

#[test]
fn rules_hold_of_any_sample() {
    let amounts = [
        dec(0, 0),
        dec(0, 3),
        dec(8, 1),
        dec(80, 2),
        dec(25, 1),
        dec(-15, 1),
        dec(MAX_MANTISSA, 0),
        dec(-MAX_MANTISSA, 0),
    ];
    for total in amounts {
        for basal in amounts {
            for meal_dose in [0u8, 3] {
                for bgm in [-1i16, 95] {
                    let record = sample(total, basal, meal_dose, bgm, 120);
                    let difference = total.checked_sub(basal);
                    let bolus = !total.is_zero() && total != basal;
                    let docs = match try_iLet_to_ns(record) {
                        Some(docs) => docs,
                        None => {
                            assert!(bolus && difference.is_none());
                            continue;
                        }
                    };
                    assert!(!bolus || difference.is_some());
                    if total.is_zero() {
                        assert_eq!(docs, [None, None]);
                        continue;
                    }
                    let (glucose, source) = if bgm == -1 { ("120", "Sensor") } else { ("95", "Manual") };
                    assert_eq!(
                        docs[0],
                        Some(NSDocs::TreatmentDoc(expected("Basal", basal, glucose, source)))
                    );
                    assert_eq!(parts(&treatment(&docs[0]).insulin), (basal.mantissa(), basal.scale()));
                    if !bolus {
                        assert_eq!(docs[1], None);
                        continue;
                    }
                    let amount = difference.unwrap();
                    let event = if meal_dose == 0 { "Automated Bolus" } else { "Food Bolus" };
                    assert_eq!(
                        docs[1],
                        Some(NSDocs::TreatmentDoc(expected(event, amount, glucose, source)))
                    );
                    assert_eq!(
                        parts(&treatment(&docs[1]).insulin),
                        (amount.mantissa(), amount.scale())
                    );
                }
            }
        }
    }
}

#[test]
fn equal_samples_give_equal_outcomes() {
    let overflowing = sample(dec(MAX_MANTISSA, 0), dec(-MAX_MANTISSA, 0), 0, -1, 120);
    assert_eq!(try_iLet_to_ns(overflowing.clone()), try_iLet_to_ns(overflowing));
    let ordinary = sample(dec(25, 1), dec(10, 1), 3, 95, 120);
    let copy = sample(dec(25, 1), dec(10, 1), 3, 95, 120);
    let first = try_iLet_to_ns(ordinary);
    let between = try_iLet_to_ns(sample(dec(8, 1), dec(8, 1), 0, -1, 120));
    let second = try_iLet_to_ns(copy);
    assert!(between.is_some());
    assert_eq!(first, second);
    assert!(first.is_some());
}
