use qarax::hooks::{
    after_failed_delivery, delivery_headers, hook_applies, http_failure_text, missing_hook_text,
    request_failure_text, webhook_signature, HookFilter, RetryDecision,
};
use qarax::model::HookScope;

#[test]
fn signature_is_hmac_sha256_hex() {
    assert_eq!(
        webhook_signature(Some("Jefe"), "what do ya want for nothing?").as_deref(),
        Some("sha256=5bdcc146bf60754e6a042426089575c75a003f089d2739839dec58b964ec3843")
    );
    assert_eq!(webhook_signature(None, "{}"), None);
}

#[test]
fn delivery_headers_with_and_without_signature() {
    let h = delivery_headers(Some("sha256=ab".to_string()));
    assert_eq!(
        h,
        vec![
            ("Content-Type".to_string(), "application/json".to_string()),
            ("X-Qarax-Event".to_string(), "vm.status_changed".to_string()),
            ("X-Qarax-Signature".to_string(), "sha256=ab".to_string()),
        ]
    );
    assert_eq!(delivery_headers(None).len(), 2);
}

#[test]
fn failed_deliveries_back_off_then_give_up() {
    assert_eq!(after_failed_delivery(0, 5), RetryDecision::RetryAfter(5));
    assert_eq!(after_failed_delivery(1, 5), RetryDecision::RetryAfter(30));
    assert_eq!(after_failed_delivery(2, 5), RetryDecision::RetryAfter(120));
    assert_eq!(after_failed_delivery(3, 5), RetryDecision::RetryAfter(600));
    assert_eq!(after_failed_delivery(4, 5), RetryDecision::GiveUp);
    assert_eq!(after_failed_delivery(4, 10), RetryDecision::RetryAfter(1800));
    assert_eq!(after_failed_delivery(7, 10), RetryDecision::RetryAfter(1800));
    assert_eq!(after_failed_delivery(-1, 10), RetryDecision::RetryAfter(1800));
}

#[test]
fn delivery_error_texts() {
    assert_eq!(http_failure_text(503, "busy"), "HTTP 503: busy");
    assert_eq!(request_failure_text("timed out"), "request error: timed out");
    assert_eq!(missing_hook_text("no rows"), "hook not found: no rows");
}


fn filter(scope: HookScope, scope_value: Option<&str>, events: &[&str], active: bool) -> HookFilter {
    HookFilter {
        scope,
        scope_value: scope_value.map(|s| s.to_string()),
        events: events.iter().map(|s| s.to_string()).collect(),
        active,
    }
}

#[test]
fn hooks_fire_by_scope_and_event() {
    let vm = "67e55044-10b1-426f-9247-bb680e5fe0c8";
    let tags = vec!["web".to_string(), "prod".to_string()];
    assert!(hook_applies(&filter(HookScope::Global, None, &[], true), vm, &tags, "running"));
    assert!(!hook_applies(&filter(HookScope::Global, None, &[], false), vm, &tags, "running"));
    assert!(hook_applies(&filter(HookScope::Vm, Some(vm), &["running"], true), vm, &tags, "running"));
    assert!(!hook_applies(&filter(HookScope::Vm, Some(vm), &["shutdown"], true), vm, &tags, "running"));
    assert!(!hook_applies(&filter(HookScope::Vm, Some("other"), &[], true), vm, &tags, "running"));
    assert!(hook_applies(&filter(HookScope::Tag, Some("prod"), &[], true), vm, &tags, "paused"));
    assert!(!hook_applies(&filter(HookScope::Tag, Some("db"), &[], true), vm, &tags, "paused"));
}
