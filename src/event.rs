use std::collections::HashMap;
use vstd::prelude::*;

use crate::encoding::is_hyphenated_uuid;
use crate::path::{nth_segment, segment_count};
use vstd::utf8::{decode_utf8, valid_utf8};
use crate::encoding::base64_bytes;
use crate::global_id::{
    cluster_fits, cluster_of, cluster_within_limit, decoded_text, geo_uri, lemma_geo_uri_cluster, decode_cluster, encoded_id, GlobalId, IdError, DEFAULT_CLUSTER,
};
use crate::kind::GlobalIdType;

verus! {

/// The person or service behind an activity.
#[derive(Debug, Clone, Default)]
pub struct Actor {
    pub id: String,
    pub object_type: String,
    pub display_name: String,
    pub org_id: Option<String>,
    pub email_address: Option<String>,
    pub entry_uuid: String,
    pub actor_type: Option<String>,
}

/// What an event reports: its type tag and the activity it carries.
#[derive(Debug, Clone, Default)]
pub struct EventData {
    pub event_type: String,
    pub actor: Option<Actor>,
    pub conversation_id: Option<String>,
    pub activity: Option<Activity>,
}

/// One activity in a conversation.
#[derive(Debug, Clone, Default)]
pub struct Activity {
    pub id: String,
    pub object_type: String,
    pub url: String,
    pub published: String,
    pub verb: String,
    pub actor: Actor,
    pub object: Object,
    pub target: Option<Target>,
    pub client_temp_id: Option<String>,
    pub encryption_key_url: Option<String>,
    pub vector_counters: Option<VectorCounters>,
}

/// Per-data-centre counters attached to an activity.
#[derive(Debug, Clone, Default)]
pub struct VectorCounters {
    pub source_dc: String,
    pub counters: HashMap<String, i64>,
}

/// What an activity was aimed at; `global_id` is an encoded identifier that
/// names the target's cluster.
#[derive(Debug, Clone, Default)]
pub struct Target {
    pub id: String,
    pub object_type: String,
    pub url: String,
    pub participants: MiscItems,
    pub activities: MiscItems,
    pub tags: Vec<String>,
    pub global_id: String,
}

/// The object of an activity.
#[derive(Debug, Clone, Default)]
pub struct Object {
    pub object_type: String,
    pub content: Option<String>,
    pub display_name: Option<String>,
    pub mentions: Option<MiscItems>,
    pub inputs: Option<String>,
}

/// A list of loosely typed items.
#[derive(Debug, Clone, Default)]
pub struct MiscItems {
    pub items: Vec<MiscItem>,
}

/// A loosely typed item: an identifier and an object type.
#[derive(Debug, Clone, Default)]
pub struct MiscItem {
    pub id: String,
    pub object_type: String,
}

/// An event as delivered to a device.
#[derive(Debug, Clone, Default)]
pub struct Event {
    pub id: String,
    pub data: EventData,
    pub timestamp: i64,
    pub tracking_id: String,
    pub alert_type: Option<String>,
    pub headers: HashMap<String, String>,
    pub sequence_number: i64,
    pub filter_message: bool,
}

/// The kind of resource an event type tag concerns.
pub open spec fn event_kind(event_type: Seq<char>) -> GlobalIdType {
    if event_type == "conversation.activity"@ {
        GlobalIdType::Message
    } else {
        GlobalIdType::Unknown
    }
}

impl Target {
    /// Turns a `Target` into a cluster - used for message geodata.
    /// `global_id` is expected to be base64 of UTF-8 text of the form
    /// `ciscospark://[cluster]/[type]/[id]`; `None` where it is not.
    pub fn get_cluster(&self) -> (r: Option<String>)
        ensures
            r is Some <==> cluster_of(self.global_id@) is Some,
            r matches Some(c) ==> Some(c@) == cluster_of(self.global_id@),
            self.global_id@.len() == 0 ==> r is None,
            base64_bytes(self.global_id@) is None ==> r is None,
            base64_bytes(self.global_id@) matches Some(b) ==> (!valid_utf8(b) ==> r is None),
            base64_bytes(self.global_id@) matches Some(b) ==> (valid_utf8(b) && segment_count(
                decode_utf8(b),
            ) < 3 ==> r is None),
    {
        decode_cluster(self.global_id.as_str())
    }
}

impl Event {
    /// The cluster hint that the event's activity target gives, if any.
    pub open spec fn cluster_hint(self) -> Option<Seq<char>> {
        match self.data.activity {
            Some(a) => match a.target {
                Some(t) => cluster_of(t.global_id@),
                None => None,
            },
            None => None,
        }
    }

    /// The cluster the event's identifier is placed in: the hint where there
    /// is one that fits, the default otherwise.
    pub open spec fn resolved_cluster(self) -> Seq<char> {
        match self.cluster_hint() {
            Some(c) => if cluster_fits(c) {
                c
            } else {
                DEFAULT_CLUSTER@
            },
            None => DEFAULT_CLUSTER@,
        }
    }

    /// Get the type of resource the event corresponds to
    pub fn activity_type(&self) -> (r: GlobalIdType)
        ensures
            r == event_kind(self.data.event_type@),
    {
        let tag = String::from_str("conversation.activity");
        if self.data.event_type == tag {
            GlobalIdType::Message
        } else {
            GlobalIdType::Unknown
        }
    }

    /// A function to extract a global ID from an activity.
    /// The event's own id is a UUID, which can no longer be used for API requests; this gives
    /// the [`GlobalId`] that works with the updated API. Where the activity has a target, the
    /// cluster comes from the target's global id; otherwise the location is taken to be `us`.
    pub fn get_global_id(&self) -> (r: Result<GlobalId, IdError>)
        ensures
            event_kind(self.data.event_type@) == GlobalIdType::Unknown ==> r == Err::<
                GlobalId,
                IdError,
            >(IdError::InvalidResourceKind),
            event_kind(self.data.event_type@) != GlobalIdType::Unknown ==> (r matches Ok(g)
                && g.kind() == event_kind(self.data.event_type@) && g.encoded() == encoded_id(
                event_kind(self.data.event_type@),
                self.id@,
                self.resolved_cluster(),
            )),
            r matches Ok(g) ==> (is_hyphenated_uuid(self.id@) ==> decoded_text(g.encoded()) == Some(
                geo_uri(self.resolved_cluster(), event_kind(self.data.event_type@), self.id@),
            )),
            r matches Ok(g) ==> (is_hyphenated_uuid(self.id@) && !self.resolved_cluster().contains(
                '/',
            ) ==> cluster_of(g.encoded()) == Some(self.resolved_cluster())),
            r matches Ok(g) ==> (is_hyphenated_uuid(self.id@) && !self.resolved_cluster().contains(
                '/',
            ) ==> (decoded_text(g.encoded()) matches Some(t) && nth_segment(t, 2) == Some(
                self.resolved_cluster(),
            ) && nth_segment(t, 3) == Some(g.kind().tag()) && nth_segment(t, 4) == Some(
                self.id@,
            ))),
    {
        let kind = self.activity_type();
        proof {
            if is_hyphenated_uuid(self.id@) {
                assert(!self.id@.contains('/')) by {
                    if self.id@.contains('/') {
                        let k = choose|k: int| 0 <= k < self.id@.len() && self.id@[k] == '/';
                        assert(self.id@[k] == '/');
                    }
                }
                if !self.resolved_cluster().contains('/') {
                    lemma_geo_uri_cluster(self.resolved_cluster(), kind, self.id@);
                }
            }
        }
        let hint: Option<String> = match &self.data.activity {
            Some(a) => match &a.target {
                Some(t) => t.get_cluster(),
                None => None,
            },
            None => None,
        };
        match hint {
            Some(c) => {
                if cluster_within_limit(c.as_str()) {
                    GlobalId::new_with_cluster(kind, self.id.clone(), Some(c.as_str()))
                } else {
                    GlobalId::new_with_cluster(kind, self.id.clone(), None)
                }
            },
            None => GlobalId::new_with_cluster(kind, self.id.clone(), None),
        }
    }
}

} // verus!
