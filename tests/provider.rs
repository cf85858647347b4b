use spaw::dispatch::{build_notification, DispatchPlan, Gateway};
use spaw::provider::{provider_endpoint, provider_payload};

fn plan(category: Option<&str>) -> DispatchPlan {
    DispatchPlan {
        endpoint: Gateway::Sandbox,
        topic: "com.example.app".to_string(),
        payload: build_notification("hi", "dev123", category),
    }
}

#[test]
fn endpoint_maps_to_a2() {
    assert!(matches!(provider_endpoint(Gateway::Sandbox), a2::Endpoint::Sandbox));
    assert!(matches!(provider_endpoint(Gateway::Production), a2::Endpoint::Production));
}

#[test]
fn payload_carries_the_plan() {
    let plan = plan(None);
    let payload = provider_payload(&plan).ok().unwrap();
    assert_eq!(payload.device_token, "dev123");
    assert_eq!(payload.options.apns_topic, Some("com.example.app"));
    let json = serde_json::to_value(&payload).unwrap();
    let aps = &json["aps"];
    assert_eq!(aps["alert"]["body"], "hi");
    assert_eq!(aps["alert"]["title"], "消息");
    assert_eq!(aps["sound"], "default");
    assert_eq!(aps["badge"], 1);
    assert_eq!(aps["category"], "QUICK_ACTIONS_CATEGORY");
    assert_eq!(aps["mutable-content"], 1);
    assert_eq!(json["text_to_copy"], "hi");
}

#[test]
fn payload_keeps_request_category() {
    let plan = plan(Some("REPLY"));
    let payload = provider_payload(&plan).ok().unwrap();
    let json = serde_json::to_value(&payload).unwrap();
    assert_eq!(json["aps"]["category"], "REPLY");
}
