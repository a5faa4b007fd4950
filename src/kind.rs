use vstd::prelude::*;

verus! {

/// This represents the type of an ID produced by the API, to prevent (for example) message IDs
/// being used for a room ID.
#[derive(Debug, Clone, Copy, PartialEq, Eq, Structural)]
pub enum GlobalIdType {
    /// This GlobalId represents the ID of a message
    Message,
    /// Corresponds to the ID of a person
    Person,
    /// Corresponds to the ID of a room
    Room,
    /// Retrieves a specific attachment
    AttachmentAction,
    /// This GlobalId represents the ID of something not currently recognised, any API requests
    /// with this GlobalId will produce an error.
    Unknown,
}

impl GlobalIdType {
    /// The tag that names this kind inside an encoded identifier.
    pub open spec fn tag(self) -> Seq<char> {
        match self {
            GlobalIdType::Message => "MESSAGE"@,
            GlobalIdType::Person => "PEOPLE"@,
            GlobalIdType::Room => "ROOM"@,
            GlobalIdType::AttachmentAction => "ATTACHMENT_ACTION"@,
            GlobalIdType::Unknown => "<UNKNOWN>"@,
        }
    }

    /// The tag of this kind as text: `MESSAGE`, `PEOPLE`, `ROOM`,
    /// `ATTACHMENT_ACTION`, or `<UNKNOWN>` for the sentinel.
    pub fn as_str(&self) -> (r: &'static str)
        ensures
            r@ == self.tag(),
    {
        match self {
            GlobalIdType::Message => "MESSAGE",
            GlobalIdType::Person => "PEOPLE",
            GlobalIdType::Room => "ROOM",
            GlobalIdType::AttachmentAction => "ATTACHMENT_ACTION",
            GlobalIdType::Unknown => "<UNKNOWN>",
        }
    }
}

} // verus!
