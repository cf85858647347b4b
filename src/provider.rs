//! The provider's side of a plan: a2's endpoint and notification payload.
use vstd::prelude::*;
use crate::dispatch::{DispatchPlan, Gateway};
use a2::request::notification::NotificationBuilder;

verus! {

#[verifier::external_type_specification]
pub struct ExEndpoint(a2::Endpoint);

#[verifier::external_type_specification]
#[verifier::external_body]
pub struct ExBuilder<'a>(a2::DefaultNotificationBuilder<'a>);

#[verifier::external_type_specification]
#[verifier::external_body]
pub struct ExPayload<'a>(a2::request::payload::Payload<'a>);

#[verifier::external_type_specification]
#[verifier::external_body]
pub struct ExError(a2::Error);

/// The a2 gateway for an endpoint.
pub fn provider_endpoint(e: Gateway) -> (r: a2::Endpoint)
    ensures
        e == Gateway::Sandbox ==> r == a2::Endpoint::Sandbox,
        e == Gateway::Production ==> r == a2::Endpoint::Production,
{
    match e {
        Gateway::Sandbox => a2::Endpoint::Sandbox,
        Gateway::Production => a2::Endpoint::Production,
    }
}

/// Relies on `DefaultNotificationBuilder::new`.
#[verifier::external_body]
fn builder_new<'a>() -> a2::DefaultNotificationBuilder<'a> {
    a2::DefaultNotificationBuilder::new()
}

/// Relies on `DefaultNotificationBuilder::set_body`.
#[verifier::external_body]
fn with_body<'a>(b: a2::DefaultNotificationBuilder<'a>, body: &'a str) -> a2::DefaultNotificationBuilder<'a> {
    b.set_body(body)
}

/// Relies on `DefaultNotificationBuilder::set_title`.
#[verifier::external_body]
fn with_title<'a>(b: a2::DefaultNotificationBuilder<'a>, title: &'a str) -> a2::DefaultNotificationBuilder<'a> {
    b.set_title(title)
}

/// Relies on `DefaultNotificationBuilder::set_sound`.
#[verifier::external_body]
fn with_sound<'a>(b: a2::DefaultNotificationBuilder<'a>, sound: &'a str) -> a2::DefaultNotificationBuilder<'a> {
    b.set_sound(sound)
}

/// Relies on `DefaultNotificationBuilder::set_badge`.
#[verifier::external_body]
fn with_badge<'a>(b: a2::DefaultNotificationBuilder<'a>, badge: u32) -> a2::DefaultNotificationBuilder<'a> {
    b.set_badge(badge)
}

/// Relies on `DefaultNotificationBuilder::set_category`.
#[verifier::external_body]
fn with_category<'a>(b: a2::DefaultNotificationBuilder<'a>, category: &'a str) -> a2::DefaultNotificationBuilder<'a> {
    b.set_category(category)
}

/// Relies on `DefaultNotificationBuilder::set_mutable_content`.
#[verifier::external_body]
fn with_mutable_content<'a>(b: a2::DefaultNotificationBuilder<'a>) -> a2::DefaultNotificationBuilder<'a> {
    b.set_mutable_content()
}

/// Relies on `NotificationBuilder::build` of the default builder, with the
/// topic as the only option set.
#[verifier::external_body]
fn build_payload<'a>(b: a2::DefaultNotificationBuilder<'a>, device_token: &'a str, topic: &'a str) -> a2::request::payload::Payload<'a> {
    b.build(device_token, a2::NotificationOptions { apns_topic: Some(topic), ..Default::default() })
}

/// Relies on `Payload::add_custom_data`, which files a string under a root key.
#[verifier::external_body]
fn add_field<'a>(p: &mut a2::request::payload::Payload<'a>, key: &'a str, value: &'a String) -> Result<(), a2::Error> {
    p.add_custom_data(key, value).map(|_| ())
}

/// The a2 payload for a plan: every field of the planned notification, the
/// custom fields in order, and the plan's topic.
pub fn provider_payload<'a>(plan: &'a DispatchPlan) -> Result<a2::request::payload::Payload<'a>, a2::Error> {
    let p = &plan.payload;
    let mut b = builder_new();
    b = with_body(b, p.body.as_str());
    b = with_sound(b, p.sound.as_str());
    b = with_title(b, p.title.as_str());
    b = with_badge(b, p.badge);
    b = with_category(b, p.category.as_str());
    if p.mutable_content {
        b = with_mutable_content(b);
    }
    let mut payload = build_payload(b, p.device_token.as_str(), plan.topic.as_str());
    let mut i: usize = 0;
    while i < p.custom_fields.len()
        decreases p.custom_fields.len() - i,
    {
        let field = &p.custom_fields[i];
        match add_field(&mut payload, field.0.as_str(), &field.1) {
            Ok(()) => {},
            Err(e) => return Err(e),
        }
        i = i + 1;
    }
    Ok(payload)
}

} // verus!
