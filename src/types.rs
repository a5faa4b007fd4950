//! Records the API sends and receives. They carry data only.
use std::collections::HashMap;
use vstd::prelude::*;

verus! {

/// A point in time in UTC: seconds since the UNIX epoch and the nanoseconds
/// within that second.
#[derive(Debug, Clone, Copy, Default, PartialEq, Eq, Structural)]
pub struct UtcTime {
    pub secs: i64,
    pub nanos: u32,
}

/// Webex Teams room information
#[derive(Debug, Clone, Default)]
pub struct Room {
    /// A unique identifier for the room.
    pub id: String,
    /// A user-friendly name for the room.
    pub title: String,
    /// The room type: `direct` (1:1) or `group`.
    pub room_type: String,
    /// Whether the room is moderated (locked) or not.
    pub is_locked: bool,
    /// The ID for the team with which this room is associated.
    pub team_id: Option<String>,
    /// The date and time of the room's last activity.
    pub last_activity: String,
    /// The ID of the person who created this room.
    pub creator_id: String,
    /// The date and time the room was created.
    pub created: String,
}

/// API reply holding the room vector
#[derive(Debug, Clone, Default)]
pub struct RoomsReply {
    pub items: Vec<Room>,
}

/// Outgoing message
#[derive(Debug, Clone, Default)]
pub struct MessageOut {
    /// The parent message to reply to.
    pub parent_id: Option<String>,
    /// The room ID of the message.
    pub room_id: Option<String>,
    /// The person ID of the recipient when sending a private 1:1 message.
    pub to_person_id: Option<String>,
    /// The email address of the recipient when sending a private 1:1 message.
    pub to_person_email: Option<String>,
    /// The message, in plain text. The maximum message length is 7439 bytes.
    pub text: Option<String>,
    /// The message, in Markdown format. The maximum message length is 7439 bytes.
    pub markdown: Option<String>,
    /// The public URL to a binary file to be posted into the room. Only one file is allowed per
    /// message.
    pub files: Option<Vec<String>>,
}

/// Webex Teams message information
#[derive(Debug, Clone, Default)]
pub struct Message {
    /// The unique identifier for the message.
    pub id: Option<String>,
    /// The room ID of the message.
    pub room_id: Option<String>,
    /// The room type: `direct` (1:1) or `group`.
    pub room_type: Option<String>,
    /// The person ID of the recipient when sending a private 1:1 message.
    pub to_person_id: Option<String>,
    /// The email address of the recipient when sending a private 1:1 message.
    pub to_person_email: Option<String>,
    /// The message, in plain text.
    pub text: Option<String>,
    /// The message, in Markdown format.
    pub markdown: Option<String>,
    /// The text content of the message, in HTML format.
    pub html: Option<String>,
    /// Public URLs for files attached to the message.
    pub files: Option<Vec<String>>,
    /// The person ID of the message author.
    pub person_id: Option<String>,
    /// The email address of the message author.
    pub person_email: Option<String>,
    /// People IDs for anyone mentioned in the message.
    pub mentioned_people: Option<Vec<String>>,
    /// Group names for the groups mentioned in the message.
    pub mentioned_groups: Option<Vec<String>>,
    /// The date and time the message was created.
    pub created: Option<String>,
    /// The date and time the message was updated, if it was edited.
    pub updated: Option<String>,
}

/// API Message reply
#[derive(Debug, Clone, Default)]
pub struct MessagesReply {
    pub items: Vec<Message>,
}

/// API Empty reply
#[derive(Debug, Clone, Default)]
pub struct EmptyReply {}

/// API Error
#[derive(Debug, Clone, Default)]
pub struct Error {
    pub description: String,
}

/// Reply listing the devices of a user.
#[derive(Debug, Clone, Default)]
pub struct DevicesReply {
    pub devices: Option<Vec<DeviceData>>,
    pub message: Option<String>,
    pub errors: Option<Vec<Error>>,
    pub tracking_id: Option<String>,
}

/// A registered device.
#[derive(Debug, Clone, Default)]
pub struct DeviceData {
    pub url: Option<String>,
    pub ws_url: Option<String>,
    pub services: Option<HashMap<String, String>>,
    pub device_name: Option<String>,
    pub device_type: Option<String>,
    pub localized_model: Option<String>,
    pub capabilities: Option<DeviceCapabilities>,
    pub features: Option<DeviceFeatures>,
    pub creation_time: Option<UtcTime>,
    pub modification_time: Option<UtcTime>,
    pub device_settings_string: Option<String>,
    pub show_support_text: Option<bool>,
    pub reporting_site_url: Option<String>,
    pub reporting_site_desc: Option<String>,
    pub is_device_managed: Option<bool>,
    pub client_security_policy: Option<String>,
    pub intranet_inactivity_check_url: Option<String>,
    pub model: Option<String>,
    pub name: Option<String>,
    pub system_name: Option<String>,
    pub system_version: Option<String>,
    pub block_external_communications: Option<bool>,
    pub client_messaging_giphy: Option<String>,
    pub client_messaging_link_preview: Option<String>,
    pub ecm_enabled_for_all_users: Option<bool>,
    pub ecm_supported_storage_providers: Vec<String>,
    pub default_ecm_microsoft_cloud: Option<String>,
    pub ecm_microsoft_tenant: Option<String>,
    pub ecm_screen_capture_feature_allowed: Option<bool>,
    pub ecm_whiteboard_file_data_allowed: Option<bool>,
    pub calling_behavior: Option<String>,
    pub on_premise_pairing_enabled: Option<bool>,
    pub people_insights_enabled: Option<bool>,
    pub allow_self_signed_certificate: Option<bool>,
    pub webex_cross_launch: Option<bool>,
    pub settings: Option<DeviceSettings>,
    pub user_id: Option<String>,
    pub org_id: Option<String>,
}

/// Feature toggles of a device, by who set them.
#[derive(Debug, Clone, Default, PartialEq, Eq)]
pub struct DeviceFeatures {
    pub developer: Option<Vec<DeviceFeatureData>>,
    pub entitlement: Option<Vec<DeviceFeatureData>>,
    pub user: Option<Vec<DeviceFeatureData>>,
}

/// One feature toggle.
#[derive(Debug, Clone, Default, PartialEq, Eq)]
pub struct DeviceFeatureData {
    pub key: Option<String>,
    pub val: Option<String>,
    pub mutable: Option<bool>,
    pub last_modified: Option<String>,
    pub type_field: Option<String>,
    pub deleted_time: Option<i64>,
}

/// What a device can do.
#[derive(Debug, Clone, Default, PartialEq, Eq)]
pub struct DeviceCapabilities {
    pub group_call_supported: bool,
    pub local_notification_supported: bool,
    pub delete_notification_supported: bool,
    pub sdp_supported: bool,
}

/// Settings pushed to a device.
#[derive(Debug, Clone, Default, PartialEq, Eq)]
pub struct DeviceSettings {
    pub reporting_site_url: String,
    pub reporting_site_desc: String,
    pub show_support_text: bool,
    pub webex_cross_launch: bool,
    pub enable_intra_org_teams_call: bool,
    pub mobile_suppress_lock_screen_preview: bool,
    pub mobile_auto_lock_idle_timeout: i64,
    pub disable_meeting_scheduling: bool,
    pub ecm_enabled_for_all_users: bool,
    pub ecm_supported_storage_providers: Vec<String>,
    pub ecm_supported_folder_providers: Vec<String>,
    pub default_ecm_microsoft_cloud: String,
    pub ecm_microsoft_tenant: String,
    pub default_file_upload_location: String,
    pub restrict_accounts_to_email_domain: bool,
    pub ecm_screen_capture_feature_allowed: bool,
    pub ecm_whiteboard_file_data_allowed: bool,
    pub on_premise_pairing_enabled: bool,
    pub calling_behavior: String,
    pub client_messaging_giphy: String,
    pub client_messaging_link_preview: String,
    pub client_security_policy: String,
    pub intranet_inactivity_check_url: String,
    pub people_insights_enabled: bool,
    pub allow_self_signed_certificate: bool,
    pub block_external_communications: bool,
    pub reactions_enabled: bool,
    pub team_guest_member_restriction_enabled: bool,
    pub space_classifications_enabled: bool,
}

/// An authorization message sent over the event channel.
#[derive(Debug, Clone, Default)]
pub struct Authorization {
    pub id: String,
    pub type_: String,
    pub data: AuthToken,
}

/// A bearer token.
#[derive(Debug, Clone, Default)]
pub struct AuthToken {
    pub token: String,
}

/// Type of action that an activity represents.
#[derive(Debug, Clone, Default)]
pub enum Verb {
    #[default]
    Created,
    Updated,
    Deleted,
    /// This verb is only used when a video-call has ended.
    Ended,
}

/// What object an activity is operating on.
#[derive(Debug, Clone, Default, PartialEq, Eq)]
pub enum Resource {
    #[default]
    Messages,
    Memberships,
    Meetings,
    MeetingTranscripts,
    Tabs,
    Rooms,
    AttachmentActions,
    Files,
    FileTranscodings,
}

/// Attachment action details
#[derive(Debug, Clone, Default)]
pub struct AttachmentAction {
    /// A unique identifier for the action.
    pub id: String,
    /// The type of action performed.
    pub action_type: Option<String>,
    /// The parent message the attachment action was performed on.
    pub message_id: Option<String>,
    /// The action's inputs.
    pub inputs: Option<HashMap<String, String>>,
    /// The ID of the person who performed the action.
    pub person_id: Option<String>,
    /// The ID of the room the action was performed within.
    pub room_id: Option<String>,
    /// The date and time the action was created.
    pub created: Option<String>,
}

/// Person information
#[derive(Debug, Clone, Default)]
pub struct Person {
    /// A unique identifier for the person.
    pub id: String,
    /// The email addresses of the person.
    pub emails: Vec<String>,
    /// Phone numbers for the person.
    pub phone_numbers: Vec<PhoneNumber>,
    /// The full name of the person.
    pub display_name: String,
    /// The nickname of the person if configured.
    pub nick_name: String,
    /// The first name of the person.
    pub first_name: String,
    /// The last name of the person.
    pub last_name: String,
    /// The URL to the person's avatar in PNG format.
    pub avatar: String,
    /// The ID of the organization to which this person belongs.
    pub org_id: String,
    /// The date and time the person was created.
    pub created: String,
    /// The date and time of the person's last activity.
    pub last_activity: String,
    /// The current presence status of the person (`active`, `call`, `DoNotDisturb`, ...).
    pub status: String,
    /// The type of person account: `person`, `bot` or `appuser`.
    pub person_type: String,
}

/// Phone number information
#[derive(Debug, Clone, Default)]
pub struct PhoneNumber {
    /// Phone number type
    pub number_type: String,
    /// Phone number
    pub value: String,
}

} // verus!
