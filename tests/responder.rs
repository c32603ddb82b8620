use error_responder::{
    classify, diagnostic, respond, CustomError, FailureSignal, RejectionFindings,
};

fn all_signals() -> Vec<FailureSignal> {
    vec![
        FailureSignal::NotFound,
        FailureSignal::MalformedBody,
        FailureSignal::InvalidQuery,
        FailureSignal::StorageFailure,
        FailureSignal::MethodNotAllowed,
        FailureSignal::InvalidQueryString,
        FailureSignal::Unclassified("Rejection(Unknown)".to_string()),
    ]
}

fn no_findings(detail: &str) -> RejectionFindings {
    RejectionFindings {
        not_found: false,
        body_deserialize: false,
        custom: None,
        method_not_allowed: false,
        invalid_query: false,
        detail: detail.to_string(),
    }
}

#[test]
fn every_variant_maps_to_its_table_entry() {
    let expected: Vec<(u16, &str)> = vec![
        (404, "Not Found"),
        (400, "Invalid Body"),
        (400, "Please check your params"),
        (500, "Failed to query DB"),
        (405, "Method Not Allowed"),
        (400, "Please check your params"),
        (500, "Internal Server Error"),
    ];
    for (signal, (status, message)) in all_signals().iter().zip(expected) {
        let r = respond(signal);
        assert_eq!(r.status(), status);
        assert_eq!(r.message(), message);
    }
}

#[test]
fn responding_twice_gives_identical_bytes() {
    for signal in all_signals() {
        let a = respond(&signal);
        let b = respond(&signal);
        assert_eq!(a.status(), b.status());
        assert_eq!(a.body().as_bytes(), b.body().as_bytes());
    }
}

#[test]
fn body_is_object_with_only_a_message_member() {
    for signal in all_signals() {
        let r = respond(&signal);
        let body = r.body();
        let inner = body
            .strip_prefix("{\"message\":\"")
            .and_then(|rest| rest.strip_suffix("\"}"))
            .expect("framed as a single message member");
        assert_eq!(inner, r.message());
        assert!(!inner.contains('"') && !inner.contains('\\'));
        assert!(inner.chars().all(|c| c as u32 >= 0x20));
    }
}

#[test]
fn not_found_scenario() {
    let r = respond(&FailureSignal::NotFound);
    assert_eq!(r.status(), 404);
    assert_eq!(r.body(), "{\"message\":\"Not Found\"}");
}

#[test]
fn storage_failure_scenario() {
    let r = respond(&FailureSignal::StorageFailure);
    assert_eq!(r.status(), 500);
    assert_eq!(r.body(), "{\"message\":\"Failed to query DB\"}");
}

#[test]
fn method_not_allowed_scenario() {
    let r = respond(&FailureSignal::MethodNotAllowed);
    assert_eq!(r.status(), 405);
    assert_eq!(r.body(), "{\"message\":\"Method Not Allowed\"}");
}

#[test]
fn unclassified_scenario_hides_detail() {
    let detail = "Rejection([SecretTable(\"users\"), Timeout { ms: 3000 }])";
    let r = respond(&FailureSignal::Unclassified(detail.to_string()));
    assert_eq!(r.status(), 500);
    assert_eq!(r.body(), "{\"message\":\"Internal Server Error\"}");
    assert!(!r.body().contains("SecretTable"));
    let other = respond(&FailureSignal::Unclassified(String::new()));
    assert_eq!(r.body(), other.body());
}

#[test]
fn unclassified_emits_exactly_one_diagnostic_line() {
    let signal = FailureSignal::Unclassified("Rejection(Unknown)".to_string());
    let line = diagnostic(&signal).expect("a diagnostic line");
    assert_eq!(line, "unhandled error: Rejection(Unknown)");
    assert_eq!(line.lines().count(), 1);
}

#[test]
fn classified_variants_emit_no_diagnostic() {
    for signal in all_signals() {
        let is_unclassified = matches!(signal, FailureSignal::Unclassified(_));
        assert_eq!(diagnostic(&signal).is_some(), is_unclassified);
    }
}

#[test]
fn the_two_invalid_query_variants_answer_alike() {
    let app = respond(&FailureSignal::InvalidQuery);
    let transport = respond(&FailureSignal::InvalidQueryString);
    assert_eq!(app.status(), transport.status());
    assert_eq!(app.body(), transport.body());
}

#[test]
fn classify_prefers_not_found_over_everything() {
    let f = RejectionFindings {
        not_found: true,
        body_deserialize: true,
        custom: Some(CustomError::DBError),
        method_not_allowed: true,
        invalid_query: true,
        detail: String::new(),
    };
    assert!(matches!(classify(f), FailureSignal::NotFound));
}

#[test]
fn classify_prefers_malformed_body_over_custom_errors() {
    let mut f = no_findings("");
    f.body_deserialize = true;
    f.custom = Some(CustomError::InvalidQuery);
    assert!(matches!(classify(f), FailureSignal::MalformedBody));
}

#[test]
fn classify_maps_custom_errors() {
    let mut f = no_findings("");
    f.custom = Some(CustomError::InvalidQuery);
    f.method_not_allowed = true;
    assert!(matches!(classify(f), FailureSignal::InvalidQuery));
    let mut g = no_findings("");
    g.custom = Some(CustomError::DBError);
    g.invalid_query = true;
    assert!(matches!(classify(g), FailureSignal::StorageFailure));
}

#[test]
fn classify_prefers_method_over_query_string() {
    let mut f = no_findings("");
    f.method_not_allowed = true;
    f.invalid_query = true;
    assert!(matches!(classify(f), FailureSignal::MethodNotAllowed));
    let mut g = no_findings("");
    g.invalid_query = true;
    assert!(matches!(classify(g), FailureSignal::InvalidQueryString));
}

#[test]
fn classify_falls_back_to_unclassified_with_detail() {
    match classify(no_findings("Rejection(Custom)")) {
        FailureSignal::Unclassified(d) => assert_eq!(d, "Rejection(Custom)"),
        other => panic!("unexpected {:?}", other),
    }
}
