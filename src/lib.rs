//! Identifier translation and resource typing for a cloud messaging API.
//!
//! Raw platform identifiers come in two forms: legacy UUID strings and
//! self-describing geo identifiers (`ciscospark://<cluster>/<KIND>/<uuid>`,
//! base64 encoded). This crate converts the first into the second, reads the
//! cluster back out of an encoded identifier, and works out from an inbound
//! event which kind of resource its identifier denotes. The records the API
//! exchanges are plain data alongside.

pub mod encoding;
pub mod event;
pub mod global_id;
pub mod kind;
pub mod path;
pub mod types;

pub use event::{Activity, Actor, Event, EventData, MiscItem, MiscItems, Object, Target, VectorCounters};
pub use global_id::{cluster_from_bytes, decode_cluster, geo_uri_of, GlobalId, IdError, DEFAULT_CLUSTER};
pub use kind::GlobalIdType;
pub use path::path_segment;
pub use types::{
    AttachmentAction, AuthToken, Authorization, DeviceCapabilities, DeviceData, DeviceFeatureData,
    DeviceFeatures, DeviceSettings, DevicesReply, EmptyReply, Error, Message, MessageOut,
    MessagesReply, Person, PhoneNumber, Resource, Room, RoomsReply, UtcTime, Verb,
};
