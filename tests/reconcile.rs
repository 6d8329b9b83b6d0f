use helm_nuke::crd::{HelmNukeSpec, HelmNukeStatus};
use helm_nuke::reconcile::{
    complete, decide, error_policy, expiry_step, find_annotation, next_visit, ReconcileError, Step,
    RELEASE_NAMESPACE_ANNOTATION, RELEASE_NAME_ANNOTATION,
};
use helm_nuke::time::{
    checked_extend, checked_shift, count_digits, is_not_after, Span, Timestamp,
};

const T0: i64 = 1_700_000_000;

fn at(secs: i64) -> Timestamp {
    Timestamp { secs, nanos: 0 }
}

fn spec(ttl: &str) -> HelmNukeSpec {
    HelmNukeSpec { ttl: ttl.to_string() }
}

fn stored(text: &str) -> Option<HelmNukeStatus> {
    Some(HelmNukeStatus { expiration_timestamp: Some(text.to_string()) })
}

fn annotations(name: Option<&str>, namespace: Option<&str>) -> Vec<(String, String)> {
    let mut v = vec![("app".to_string(), "demo".to_string())];
    if let Some(n) = name {
        v.push((RELEASE_NAME_ANNOTATION.to_string(), n.to_string()));
    }
    if let Some(ns) = namespace {
        v.push((RELEASE_NAMESPACE_ANNOTATION.to_string(), ns.to_string()));
    }
    v
}

fn secs(s: u64) -> Span {
    Span { secs: s, nanos: 0 }
}

#[test]
fn one_hour_ttl_from_creation_to_removal() {
    let both = annotations(Some("web"), Some("prod"));
    let first = decide(&spec("1h"), &None, &both, at(T0)).unwrap();
    assert_eq!(
        first,
        Step::PersistExpiration {
            status: HelmNukeStatus {
                expiration_timestamp: Some("2023-11-14T23:13:20+00:00".to_string())
            },
            requeue: secs(3610),
        }
    );
    assert_eq!(complete(&first, Ok(())), Ok(secs(3610)));
    let status = match &first {
        Step::PersistExpiration { status, .. } => Some(status.clone()),
        _ => None,
    };
    let second = decide(&spec("1h"), &status, &both, at(T0 + 3610)).unwrap();
    assert_eq!(
        second,
        Step::Uninstall { release_name: "web".to_string(), release_namespace: "prod".to_string() }
    );
    assert_eq!(complete(&second, Ok(())), Ok(secs(180)));
    assert_eq!(next_visit(&complete(&second, Ok(()))), secs(180));
}

#[test]
fn unparsable_ttl_is_retryable() {
    let r = decide(&spec("notaduration"), &None, &annotations(Some("a"), Some("b")), at(T0));
    assert_eq!(r, Err(ReconcileError::ConfigError));
    let outcome: Result<Span, ReconcileError> = Err(r.unwrap_err());
    assert_eq!(next_visit(&outcome), secs(30));
    // nothing was written: the next pass still starts from an empty status
    let again = decide(&spec("notaduration"), &None, &annotations(None, None), at(T0 + 30));
    assert_eq!(again, Err(ReconcileError::ConfigError));
}

#[test]
fn expired_without_namespace_annotation_is_kept() {
    let r = decide(
        &spec("1h"),
        &stored("2023-11-14T23:13:20+00:00"),
        &annotations(Some("web"), None),
        at(T0 + 7200),
    )
    .unwrap();
    assert_eq!(r, Step::MissingMetadata { requeue: secs(180) });
    assert_eq!(complete(&r, Ok(())), Ok(secs(180)));
    let other = decide(&spec("5m"), &None, &annotations(None, None), at(T0)).unwrap();
    assert_eq!(complete(&other, Ok(())), Ok(secs(310)));
}

#[test]
fn expired_without_name_annotation_is_kept() {
    let r = decide(
        &spec("1h"),
        &stored("2023-11-14T23:13:20+00:00"),
        &annotations(None, Some("prod")),
        at(T0 + 7200),
    );
    assert_eq!(r, Ok(Step::MissingMetadata { requeue: secs(180) }));
}

#[test]
fn pending_expiration_waits_and_repeats() {
    let both = annotations(Some("web"), Some("prod"));
    let st = stored("2023-11-14T23:13:20+00:00");
    let a = decide(&spec("1h"), &st, &both, at(T0 + 10)).unwrap();
    let b = decide(&spec("1h"), &st, &both, at(T0 + 11)).unwrap();
    assert_eq!(a, Step::Wait { requeue: secs(180) });
    assert_eq!(a, b);
    assert_eq!(complete(&a, Ok(())), complete(&b, Ok(())));
}

#[test]
fn expiration_equal_to_now_counts_as_expired() {
    let r = decide(
        &spec("1h"),
        &stored("2023-11-14T23:13:20+00:00"),
        &annotations(Some("web"), Some("prod")),
        at(T0 + 3600),
    );
    assert_eq!(
        r,
        Ok(Step::Uninstall {
            release_name: "web".to_string(),
            release_namespace: "prod".to_string()
        })
    );
    let just_before = decide(
        &spec("1h"),
        &stored("2023-11-14T23:13:20+00:00"),
        &annotations(Some("web"), Some("prod")),
        at(T0 + 3599),
    );
    assert_eq!(just_before, Ok(Step::Wait { requeue: secs(180) }));
}

#[test]
fn stored_timestamp_keeps_its_offset() {
    // 23:13:20+00:00 written with another offset
    let r = decide(
        &spec("1h"),
        &stored("2023-11-15T01:13:20+02:00"),
        &annotations(Some("web"), Some("prod")),
        at(T0 + 3599),
    );
    assert_eq!(r, Ok(Step::Wait { requeue: secs(180) }));
}

#[test]
fn status_without_timestamp_initializes() {
    let st = Some(HelmNukeStatus { expiration_timestamp: None });
    let r = decide(&spec("30m"), &st, &annotations(Some("a"), Some("b")), at(T0));
    assert_eq!(
        r,
        Ok(Step::PersistExpiration {
            status: HelmNukeStatus {
                expiration_timestamp: Some("2023-11-14T22:43:20+00:00".to_string())
            },
            requeue: secs(1810),
        })
    );
}

#[test]
fn zero_ttl_initializes_without_removal() {
    let r = decide(&spec("0"), &None, &annotations(Some("a"), Some("b")), at(T0));
    assert_eq!(
        r,
        Ok(Step::PersistExpiration {
            status: HelmNukeStatus {
                expiration_timestamp: Some("2023-11-14T22:13:20+00:00".to_string())
            },
            requeue: secs(10),
        })
    );
}

#[test]
fn fractional_ttl_carries_into_seconds() {
    let now = Timestamp { secs: T0, nanos: 700_000_000 };
    let r = decide(&spec("1500ms"), &None, &Vec::new(), now);
    assert_eq!(
        r,
        Ok(Step::PersistExpiration {
            status: HelmNukeStatus {
                expiration_timestamp: Some("2023-11-14T22:13:22.200+00:00".to_string())
            },
            requeue: Span { secs: 11, nanos: 500_000_000 },
        })
    );
}

#[test]
fn bad_stored_timestamp_is_an_error() {
    let r = decide(&spec("1h"), &stored("yesterday"), &annotations(Some("a"), Some("b")), at(T0));
    assert_eq!(r, Err(ReconcileError::TimestampError));
}

#[test]
fn expiration_beyond_the_calendar_is_a_config_error() {
    let r = decide(&spec("1h"), &None, &Vec::new(), at(1_000_000_000_000_000));
    assert_eq!(r, Err(ReconcileError::ConfigError));
    let r = decide(&spec("1s"), &None, &Vec::new(), at(i64::MAX));
    assert_eq!(r, Err(ReconcileError::ConfigError));
}

#[test]
fn failed_work_becomes_an_error() {
    let persist = decide(&spec("1h"), &None, &Vec::new(), at(T0)).unwrap();
    assert_eq!(
        complete(&persist, Err("connection refused".to_string())),
        Err(ReconcileError::TransientIoError("connection refused".to_string()))
    );
    let remove = Step::Uninstall { release_name: "a".to_string(), release_namespace: "b".to_string() };
    let r = complete(&remove, Err("release: not found".to_string()));
    assert_eq!(r, Err(ReconcileError::UninstallError("release: not found".to_string())));
    assert_eq!(next_visit(&r), secs(30));
}

#[test]
fn error_policy_is_uniform() {
    for e in [
        ReconcileError::ConfigError,
        ReconcileError::TimestampError,
        ReconcileError::TransientIoError("x".to_string()),
        ReconcileError::UninstallError("y".to_string()),
    ] {
        assert_eq!(error_policy(&e), secs(30));
    }
}

#[test]
fn annotation_lookup() {
    let v = vec![
        ("k".to_string(), "1".to_string()),
        ("j".to_string(), "2".to_string()),
        ("k".to_string(), "3".to_string()),
    ];
    assert_eq!(find_annotation(&v, "k"), Some("3".to_string()));
    assert_eq!(find_annotation(&v, "j"), Some("2".to_string()));
    assert_eq!(find_annotation(&v, "x"), None);
    assert_eq!(find_annotation(&Vec::new(), "k"), None);
}

#[test]
fn time_arithmetic() {
    assert_eq!(
        checked_shift(Timestamp { secs: 5, nanos: 999_999_999 }, Span { secs: 1, nanos: 2 }),
        Some(Timestamp { secs: 7, nanos: 1 })
    );
    assert_eq!(checked_shift(at(i64::MAX), secs(1)), None);
    assert_eq!(checked_shift(at(-10), secs(3)), Some(at(-7)));
    assert_eq!(checked_extend(secs(5), 10), Some(secs(15)));
    assert_eq!(checked_extend(secs(u64::MAX - 3), 10), None);
    assert!(is_not_after(at(3), at(3)));
    assert!(is_not_after(Timestamp { secs: 3, nanos: 1_500_000_000 }, at(4)));
    assert!(!is_not_after(Timestamp { secs: 3, nanos: 2 }, Timestamp { secs: 3, nanos: 1 }));
}

#[test]
fn ttl_that_would_overflow_the_parser_is_a_config_error() {
    let r = decide(&spec("18446744073709551615s 500ms 500ms"), &None, &Vec::new(), at(T0));
    assert_eq!(r, Err(ReconcileError::ConfigError));
    let r = decide(&spec("100000000000ns"), &None, &Vec::new(), at(T0));
    assert_eq!(r, Err(ReconcileError::ConfigError));
}

#[test]
fn ttl_with_the_most_digits_is_accepted() {
    let r = decide(&spec("99999999999ns"), &None, &Vec::new(), at(T0));
    assert_eq!(
        r,
        Ok(Step::PersistExpiration {
            status: HelmNukeStatus {
                expiration_timestamp: Some("2023-11-14T22:14:59.999999999+00:00".to_string())
            },
            requeue: Span { secs: 109, nanos: 999_999_999 },
        })
    );
}

#[test]
fn digit_counting() {
    assert_eq!(count_digits(""), 0);
    assert_eq!(count_digits("1h 30m"), 3);
    assert_eq!(count_digits("4.25µs"), 3);
    assert_eq!(count_digits("hours"), 0);
}

#[test]
fn expiry_step_on_parsed_instants() {
    let both = annotations(Some("web"), Some("prod"));
    let exp = Timestamp { secs: T0, nanos: 5 };
    assert_eq!(
        expiry_step(exp, &both, Timestamp { secs: T0, nanos: 4 }),
        Step::Wait { requeue: secs(180) }
    );
    assert_eq!(
        expiry_step(exp, &both, Timestamp { secs: T0, nanos: 5 }),
        Step::Uninstall { release_name: "web".to_string(), release_namespace: "prod".to_string() }
    );
    assert_eq!(
        expiry_step(exp, &annotations(None, None), at(T0 + 1)),
        Step::MissingMetadata { requeue: secs(180) }
    );
}
