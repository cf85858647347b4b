//! The dispatch pipeline: from a push request to a notification for the
//! provider, and from the provider's answer to a reply.
use vstd::prelude::*;
use crate::config::SPawConfig;
use crate::registry::{resolve, text_view, Registry, StorageError};

verus! {

/// Which provider gateway a notification goes to.
#[derive(PartialEq, Eq, Structural, Clone, Copy, Debug)]
pub enum Gateway {
    Sandbox,
    Production,
}

/// A push request.
#[derive(Debug)]
pub struct PushInfo {
    pub user_token: Option<String>,
    pub message: String,
    pub sandbox: bool,
    pub category: Option<String>,
}

/// A message handed in for immediate delivery to a known device.
#[derive(Debug)]
pub struct PushMessage {
    pub device_token: String,
    pub body: String,
}

/// A notification in the provider's shape.
#[derive(Debug)]
pub struct NotificationPayload {
    pub device_token: String,
    pub title: String,
    pub body: String,
    pub sound: String,
    pub badge: u32,
    pub category: String,
    pub mutable_content: bool,
    /// Extra fields for the receiving app, as (key, value) pairs.
    pub custom_fields: Vec<(String, String)>,
}

/// Everything the sending step needs.
#[derive(Debug)]
pub struct DispatchPlan {
    pub endpoint: Gateway,
    pub topic: String,
    pub payload: NotificationPayload,
}

/// Why a dispatch ended without a notification being delivered.
#[derive(Debug)]
pub enum DispatchError {
    /// No user token was given.
    MissingUser,
    /// No device token, or an empty one, is registered for the user.
    DeviceNotFound,
    /// The registry could not be read.
    Storage(StorageError),
    /// The signing key file could not be read.
    KeyUnreadable(String),
    /// The provider client could not be set up from the credentials.
    ClientSetup(String),
    /// The provider did not accept the notification.
    Upstream(String),
}

/// The reply to a push request.
#[derive(Debug)]
pub struct PushResponse {
    pub success: bool,
    pub message: String,
}

pub open spec fn default_category() -> Seq<char> {
    "QUICK_ACTIONS_CATEGORY"@
}

/// The key under which the message text travels in the custom fields.
pub open spec fn copy_key() -> Seq<char> {
    "text_to_copy"@
}

/// `p` is the notification built for `message` to `device` under `category`.
pub open spec fn is_notification(
    p: NotificationPayload,
    message: Seq<char>,
    device: Seq<char>,
    category: Option<Seq<char>>,
) -> bool {
    &&& p.device_token@ == device
    &&& p.title@ == "消息"@
    &&& p.body@ == message
    &&& p.sound@ == "default"@
    &&& p.badge == 1
    &&& p.category@ == match category {
        Some(c) => c,
        None => default_category(),
    }
    &&& p.mutable_content
    &&& p.custom_fields@.len() == 1
    &&& p.custom_fields@[0].0@ == copy_key()
    &&& p.custom_fields@[0].1@ == message
}

/// The gateway that the request's flag selects.
pub fn endpoint_for(sandbox: bool) -> (r: Gateway)
    ensures
        r == (if sandbox { Gateway::Sandbox } else { Gateway::Production }),
{
    if sandbox {
        Gateway::Sandbox
    } else {
        Gateway::Production
    }
}

/// Builds the notification: the message as body and as a custom field, the
/// default sound, a badge of one, the given category or the default one, and
/// mutable content.
pub fn build_notification(message: &str, device_token: &str, category: Option<&str>) -> (r: NotificationPayload)
    ensures
        is_notification(
            r,
            message@,
            device_token@,
            match category {
                Some(c) => Some(c@),
                None => None,
            },
        ),
{
    let category = match category {
        Some(c) => c.to_owned(),
        None => "QUICK_ACTIONS_CATEGORY".to_owned(),
    };
    let mut custom_fields: Vec<(String, String)> = Vec::new();
    custom_fields.push(("text_to_copy".to_owned(), message.to_owned()));
    NotificationPayload {
        device_token: device_token.to_owned(),
        title: "消息".to_owned(),
        body: message.to_owned(),
        sound: "default".to_owned(),
        badge: 1,
        category,
        mutable_content: true,
        custom_fields,
    }
}

impl DispatchError {
    /// The HTTP status that reports this error.
    pub fn status(&self) -> (r: u16)
        ensures
            r == match self {
                DispatchError::MissingUser => 400u16,
                DispatchError::DeviceNotFound => 404u16,
                _ => 500u16,
            },
    {
        match self {
            DispatchError::MissingUser => 400,
            DispatchError::DeviceNotFound => 404,
            _ => 500,
        }
    }
}

/// The outcome of planning a push for `user`, whose lookup in the registry
/// gives `found`: not found exactly where nothing or an empty token is found;
/// otherwise the plan for the device found, unless the store failed.
pub open spec fn planned_for(
    r: Result<DispatchPlan, DispatchError>,
    found: Option<Seq<char>>,
    request: PushInfo,
    config: SPawConfig,
) -> bool {
    match r {
        Ok(plan) => {
            &&& found == Some(plan.payload.device_token@)
            &&& plan.payload.device_token@.len() > 0
            &&& is_notification(plan.payload, request.message@, plan.payload.device_token@, text_view(request.category))
            &&& plan.endpoint == (if request.sandbox { Gateway::Sandbox } else { Gateway::Production })
            &&& plan.topic@ == config.topic@
        },
        Err(DispatchError::DeviceNotFound) => found is None || found == Some(Seq::<char>::empty()),
        Err(DispatchError::Storage(_)) => true,
        Err(_) => false,
    }
}

/// Resolves the user's device and builds what the sending step needs.
pub fn plan_dispatch(registry: &Registry, config: &SPawConfig, request: &PushInfo) -> (r: Result<DispatchPlan, DispatchError>)
    ensures
        match request.user_token {
            None => r matches Err(DispatchError::MissingUser),
            Some(u) => planned_for(r, resolve(registry.entries(), u@), *request, *config),
        },
{
    let user = match &request.user_token {
        Some(u) => u,
        None => return Err(DispatchError::MissingUser),
    };
    let found = registry.lookup(user.as_str());
    plan_from_lookup(found, config, request)
}

/// Builds the plan from what the registry lookup returned.
pub fn plan_from_lookup(found: Result<Option<String>, StorageError>, config: &SPawConfig, request: &PushInfo) -> (r: Result<DispatchPlan, DispatchError>)
    ensures
        match found {
            Err(_) => r matches Err(DispatchError::Storage(_)),
            Ok(f) => !(r matches Err(DispatchError::Storage(_))) && planned_for(r, text_view(f), *request, *config),
        },
{
    let device = match found {
        Ok(Some(d)) => d,
        Ok(None) => return Err(DispatchError::DeviceNotFound),
        Err(e) => return Err(DispatchError::Storage(e)),
    };
    if device.as_str().is_empty() {
        assert(device@ =~= Seq::<char>::empty());
        return Err(DispatchError::DeviceNotFound);
    }
    let category = match &request.category {
        Some(c) => Some(c.as_str()),
        None => None,
    };
    let payload = build_notification(request.message.as_str(), device.as_str(), category);
    Ok(DispatchPlan { endpoint: endpoint_for(request.sandbox), topic: config.topic.clone(), payload })
}

/// Plans a push for the user named in the request path, which takes the place
/// of any user token in the body.
pub fn plan_push_for(registry: &Registry, config: &SPawConfig, user_token: String, request: PushInfo) -> (r: Result<DispatchPlan, DispatchError>)
    ensures
        planned_for(r, resolve(registry.entries(), user_token@), request, *config),
{
    let mut request = request;
    request.user_token = Some(user_token);
    plan_dispatch(registry, config, &request)
}

/// The reply once the provider has answered: its receipt on success, its
/// error otherwise, each already in words.
pub fn push_response(sent: Result<String, String>) -> (r: PushResponse)
    ensures
        r.success == sent is Ok,
        r.message@ == match sent {
            Ok(receipt) => receipt@,
            Err(detail) => detail@,
        },
{
    match sent {
        Ok(receipt) => PushResponse { success: true, message: receipt },
        Err(detail) => PushResponse { success: false, message: detail },
    }
}

impl PushResponse {
    /// The HTTP status that goes with this reply.
    pub fn status(&self) -> (r: u16)
        ensures
            r == (if self.success { 200u16 } else { 500u16 }),
    {
        if self.success {
            200
        } else {
            500
        }
    }
}

/// The acknowledgement of a message handed in for delivery.
pub fn push_message(msg: &PushMessage) -> (r: String)
    ensures
        r@ == "Message received and sent to APNs"@,
{
    "Message received and sent to APNs".to_owned()
}

} // verus!
