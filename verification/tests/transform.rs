use chrono::DateTime;
use mqtt_workers::clock::Timestamp;
use mqtt_workers::config::get_list_size;
use mqtt_workers::payload::{
    clone_records, AggregatedData, Outbound, Profile, Request, ServiceRecord, ServiceResponse,
};
use mqtt_workers::transform::{
    build_services, description, duplicate, generate_services, respond, service_name,
    service_record, DUPLICATES, MAX_LIST_SIZE,
};

fn profile(name: &str, email: &str) -> Profile {
    Profile { name: name.to_string(), email: email.to_string() }
}

fn record(tag: &str) -> ServiceRecord {
    ServiceRecord {
        id: format!("id{}", tag),
        service_name: format!("name{}", tag),
        date: format!("date{}", tag),
        description: format!("about{}", tag),
    }
}

fn check_generated(records: &Vec<ServiceRecord>, profile: &Profile, count: usize) {
    assert_eq!(records.len(), count);
    let mut previous: Option<DateTime<chrono::FixedOffset>> = None;
    for (i, r) in records.iter().enumerate() {
        assert_eq!(r.service_name, format!("{}_svc_{}", profile.name, i));
        assert_eq!(r.description, format!("Service {} for {}", i, profile.email));
        assert_eq!(r.id.chars().count(), 8);
        assert!(r.id.chars().all(|c| c.is_ascii_alphanumeric()));
        let date = DateTime::parse_from_rfc3339(&r.date).unwrap();
        if let Some(p) = previous {
            assert!(date <= p);
            assert_eq!(p - date, chrono::Duration::days(1));
        }
        previous = Some(date);
    }
}

#[test]
fn service_name_follows_the_template() {
    assert_eq!(service_name("alice", 0), "alice_svc_0");
    assert_eq!(service_name("alice", 4), "alice_svc_4");
    assert_eq!(service_name("bob", 12), "bob_svc_12");
    assert_eq!(service_name("", 7), "_svc_7");
    assert_eq!(service_name("Zo\u{eb}", 100), "Zo\u{eb}_svc_100");
}

#[test]
fn description_follows_the_template() {
    assert_eq!(description("a@x.com", 0), "Service 0 for a@x.com");
    assert_eq!(description("a@x.com", 4), "Service 4 for a@x.com");
    assert_eq!(description("b@x.com", 31), "Service 31 for b@x.com");
    assert_eq!(description("", 2), "Service 2 for ");
}

#[test]
fn service_record_is_built_from_its_parts() {
    let alice = profile("alice", "a@x.com");
    let now = Timestamp { secs: 1_700_000_000, nanos: 0 };
    let r = service_record(&alice, 0, now, "Ab3dEf9h".to_string());
    assert_eq!(
        r,
        ServiceRecord {
            id: "Ab3dEf9h".to_string(),
            service_name: "alice_svc_0".to_string(),
            date: "2023-11-14T22:13:20+00:00".to_string(),
            description: "Service 0 for a@x.com".to_string(),
        }
    );
}

#[test]
fn service_record_is_dated_one_day_earlier_per_index() {
    let alice = profile("alice", "a@x.com");
    let now = Timestamp { secs: 1_700_000_000, nanos: 0 };
    let expected = [
        "2023-11-14T22:13:20+00:00",
        "2023-11-13T22:13:20+00:00",
        "2023-11-12T22:13:20+00:00",
        "2023-11-11T22:13:20+00:00",
    ];
    for (i, date) in expected.iter().enumerate() {
        let r = service_record(&alice, i, now, "00000000".to_string());
        assert_eq!(r.date, *date);
        assert_eq!(r.service_name, format!("alice_svc_{}", i));
        assert_eq!(r.description, format!("Service {} for a@x.com", i));
    }
    let far = service_record(&alice, 366, now, "00000000".to_string());
    assert_eq!(far.date, "2022-11-13T22:13:20+00:00");
}

#[test]
fn service_record_keeps_the_fraction_of_the_second() {
    let alice = profile("alice", "a@x.com");
    let now = Timestamp { secs: 86_400, nanos: 123_000_000 };
    let r = service_record(&alice, 1, now, "abcdefgh".to_string());
    assert_eq!(r.date, "1970-01-01T00:00:00.123+00:00");
}

#[test]
fn service_record_dates_agree_with_chrono() {
    let bob = profile("bob", "b@x.com");
    let now = Timestamp { secs: 1_234_567_890, nanos: 987_654_321 };
    let base = DateTime::from_timestamp(now.secs, now.nanos).unwrap();
    for i in [0usize, 1, 2, 59, 400, 100_000] {
        let r = service_record(&bob, i, now, "abcdefgh".to_string());
        assert_eq!(r.date, (base - chrono::Duration::days(i as i64)).to_rfc3339());
    }
}

#[test]
fn service_record_at_the_first_dated_day() {
    let bob = profile("bob", "b@x.com");
    let now = Timestamp { secs: 0, nanos: 0 };
    let r = service_record(&bob, MAX_LIST_SIZE - 1, now, "abcdefgh".to_string());
    assert_eq!(r.date, "-262143-01-01T00:00:00+00:00");
    assert_eq!(r.service_name, "bob_svc_96465292");
}

#[test]
fn build_services_from_an_instant_and_identifiers() {
    let alice = profile("alice", "a@x.com");
    let now = Timestamp { secs: 1_709_251_200, nanos: 0 };
    let ids = vec!["aaaaaaa1".to_string(), "bbbbbbb2".to_string(), "ccccccc3".to_string()];
    let records = build_services(&alice, now, ids);
    assert_eq!(
        records,
        vec![
            ServiceRecord {
                id: "aaaaaaa1".to_string(),
                service_name: "alice_svc_0".to_string(),
                date: "2024-03-01T00:00:00+00:00".to_string(),
                description: "Service 0 for a@x.com".to_string(),
            },
            ServiceRecord {
                id: "bbbbbbb2".to_string(),
                service_name: "alice_svc_1".to_string(),
                date: "2024-02-29T00:00:00+00:00".to_string(),
                description: "Service 1 for a@x.com".to_string(),
            },
            ServiceRecord {
                id: "ccccccc3".to_string(),
                service_name: "alice_svc_2".to_string(),
                date: "2024-02-28T00:00:00+00:00".to_string(),
                description: "Service 2 for a@x.com".to_string(),
            },
        ]
    );
}

#[test]
fn build_services_without_identifiers() {
    let alice = profile("alice", "a@x.com");
    let now = Timestamp { secs: 1_709_251_200, nanos: 0 };
    assert_eq!(build_services(&alice, now, vec![]), vec![]);
}

#[test]
fn build_services_dates_never_grow_with_the_index() {
    let bob = profile("bob", "b@x.com");
    let now = Timestamp { secs: 1_000_000_000, nanos: 5_000 };
    let ids: Vec<String> = (0..40).map(|i| format!("id{:06}", i)).collect();
    let records = build_services(&bob, now, ids);
    check_generated(&records, &bob, 40);
    let first = DateTime::parse_from_rfc3339(&records[0].date).unwrap();
    assert_eq!(first.timestamp(), 1_000_000_000);
    assert_eq!(first.timestamp_subsec_nanos(), 5_000);
    for (i, r) in records.iter().enumerate() {
        let date = DateTime::parse_from_rfc3339(&r.date).unwrap();
        assert_eq!(date.timestamp(), 1_000_000_000 - 86_400 * i as i64);
        assert_eq!(r.id, format!("id{:06}", i));
    }
}

#[test]
fn generate_services_yields_the_count_asked_for() {
    let carol = profile("carol", "c@x.com");
    for count in [0usize, 1, 2, 5, 17, 100] {
        let records = generate_services(&carol, count);
        check_generated(&records, &carol, count);
    }
}

#[test]
fn generate_services_dates_the_first_record_now() {
    let carol = profile("carol", "c@x.com");
    let before = chrono::Utc::now();
    let records = generate_services(&carol, 3);
    let after = chrono::Utc::now();
    let first = DateTime::parse_from_rfc3339(&records[0].date).unwrap();
    assert!(before <= first && first <= after);
    assert!(records[0].date.ends_with("+00:00"));
    let third = DateTime::parse_from_rfc3339(&records[2].date).unwrap();
    assert_eq!(first - third, chrono::Duration::days(2));
}

#[test]
fn generate_services_draws_fresh_identifiers() {
    let carol = profile("carol", "c@x.com");
    let records = generate_services(&carol, 50);
    let first = &records[0].id;
    assert!(records.iter().any(|r| &r.id != first));
}

#[test]
fn scenario_default_count_for_alice() {
    let alice = profile("alice", "a@x.com");
    let count = get_list_size(None);
    let records = generate_services(&alice, count);
    assert_eq!(records.len(), 5);
    let names: Vec<&str> = records.iter().map(|r| r.service_name.as_str()).collect();
    assert_eq!(
        names,
        vec!["alice_svc_0", "alice_svc_1", "alice_svc_2", "alice_svc_3", "alice_svc_4"]
    );
    let descriptions: Vec<&str> = records.iter().map(|r| r.description.as_str()).collect();
    assert_eq!(
        descriptions,
        vec![
            "Service 0 for a@x.com",
            "Service 1 for a@x.com",
            "Service 2 for a@x.com",
            "Service 3 for a@x.com",
            "Service 4 for a@x.com",
        ]
    );
    check_generated(&records, &alice, 5);
}

#[test]
fn scenario_count_zero_for_bob() {
    let bob = profile("bob", "b@x.com");
    let count = get_list_size(Some("0"));
    assert_eq!(count, 0);
    let response = respond(&bob, count);
    assert_eq!(response, ServiceResponse { email: "b@x.com".to_string(), services: vec![] });
}

#[test]
fn respond_pairs_the_email_with_the_records() {
    let alice = profile("alice", "a@x.com");
    let response = respond(&alice, 4);
    assert_eq!(response.email, "a@x.com");
    check_generated(&response.services, &alice, 4);
}

#[test]
fn duplicate_gives_two_equal_copies() {
    let data = AggregatedData {
        profile: profile("dave", "d@x.com"),
        services: vec![record("1"), record("2"), record("3")],
    };
    let copies = duplicate(&data);
    assert_eq!(DUPLICATES, 2);
    assert_eq!(copies.len(), 2);
    assert_eq!(copies[0], data);
    assert_eq!(copies[1], data);
    assert_eq!(copies[0], copies[1]);
}

#[test]
fn duplicate_of_a_record_without_services() {
    let data = AggregatedData { profile: profile("", ""), services: vec![] };
    let copies = duplicate(&data);
    assert_eq!(copies, vec![data.clone(), data]);
}

#[test]
fn clones_keep_every_field() {
    let p = profile("erin", "e@x.com");
    assert_eq!(p.clone(), p);
    let r = record("x");
    assert_eq!(r.clone(), r);
    let records = vec![record("1"), record("2")];
    assert_eq!(clone_records(&records), records);
    assert_eq!(clone_records(&vec![]), vec![]);
    let data = AggregatedData { profile: p, services: records };
    assert_eq!(data.clone(), data);
}

#[test]
fn requests_and_outbound_records_compare_by_content() {
    let a = Request::Profile(profile("a", "a@x.com"));
    let b = Request::Profile(profile("a", "a@x.com"));
    assert_eq!(a, b);
    let c = Outbound::Services(ServiceResponse { email: "a@x.com".to_string(), services: vec![] });
    let d = Outbound::Aggregated(AggregatedData {
        profile: profile("a", "a@x.com"),
        services: vec![],
    });
    assert_ne!(c, d);
}
