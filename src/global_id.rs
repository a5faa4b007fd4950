use vstd::prelude::*;
use vstd::utf8::{
    decode_utf8, encode_utf8, encode_utf8_decode_utf8, encode_utf8_valid_utf8, valid_utf8,
};

use crate::encoding::{
    base64_bytes, base64_decode, base64_encode, base64_text, is_hyphenated_uuid, parses_as_uuid,
    utf8_string,
};
use crate::kind::GlobalIdType;
use crate::path::{
    lemma_next_slash_at, lemma_segment_needs_slashes, next_slash, nth_segment, path_segment,
    segment_count, segment_from,
};

verus! {

/// The cluster assumed when none is known: every identifier observed so far
/// comes from this region.
pub const DEFAULT_CLUSTER: &'static str = "us";

/// Why an identifier could not be built or used.
#[derive(Debug, Clone, Copy, PartialEq, Eq, Structural)]
pub enum IdError {
    /// An identifier was asked for the `Unknown` kind.
    InvalidResourceKind,
    /// An identifier of one kind was used where another was required:
    /// `(expected, actual)`.
    IdentifierKindMismatch(GlobalIdType, GlobalIdType),
}

/// `ciscospark://<cluster>/<KIND>/<id>`.
pub open spec fn geo_uri(cluster: Seq<char>, kind: GlobalIdType, id: Seq<char>) -> Seq<char> {
    "ciscospark://"@ + cluster + seq!['/'] + kind.tag() + seq!['/'] + id
}

/// The cluster that is used: the hint, or the default when there is none.
pub open spec fn chosen_cluster(hint: Option<&str>) -> Seq<char> {
    match hint {
        Some(c) => c@,
        None => DEFAULT_CLUSTER@,
    }
}

/// A cluster short enough that its geo-URI can always be encoded.
pub open spec fn cluster_fits(cluster: Seq<char>) -> bool {
    cluster.len() <= isize::MAX / 8 - 80
}

/// Whether `cluster` is short enough to be encoded: see [`cluster_fits`].
pub fn cluster_within_limit(cluster: &str) -> (r: bool)
    ensures
        r == cluster_fits(cluster@),
{
    cluster.unicode_len() <= (isize::MAX as usize) / 8 - 80
}

/// The encoded form of `id` as a `kind` identifier in `cluster`: the base64
/// of its geo-URI when `id` is a hyphenated UUID, otherwise `id` itself,
/// taken to be encoded already.
pub open spec fn encoded_id(kind: GlobalIdType, id: Seq<char>, cluster: Seq<char>) -> Seq<char> {
    if is_hyphenated_uuid(id) {
        base64_text(encode_utf8(geo_uri(cluster, kind, id)))
    } else {
        id
    }
}

/// The text that the bytes decode to, when they are UTF-8.
pub open spec fn utf8_text(bytes: Seq<u8>) -> Option<Seq<char>> {
    if valid_utf8(bytes) {
        Some(decode_utf8(bytes))
    } else {
        None
    }
}

/// The text an encoded identifier stands for: its base64 decoded, read as
/// UTF-8.
pub open spec fn decoded_text(encoded: Seq<char>) -> Option<Seq<char>> {
    match base64_bytes(encoded) {
        Some(bytes) => utf8_text(bytes),
        None => None,
    }
}

/// The cluster named in an encoded identifier: the third `/`-segment of the
/// text that its base64 decodes to.
pub open spec fn cluster_of(encoded: Seq<char>) -> Option<Seq<char>> {
    match base64_bytes(encoded) {
        Some(bytes) => cluster_in_bytes(bytes),
        None => None,
    }
}

/// The third `/`-segment of `bytes` read as UTF-8, if they are.
pub open spec fn cluster_in_bytes(bytes: Seq<u8>) -> Option<Seq<char>> {
    match utf8_text(bytes) {
        Some(text) => nth_segment(text, 2),
        None => None,
    }
}

proof fn lemma_utf8_len(s: Seq<char>)
    ensures
        encode_utf8(s).len() <= 4 * s.len(),
    decreases s.len(),
{
    if s.len() > 0 {
        lemma_utf8_len(s.drop_first());
    }
}

/// No kind's tag holds a `/`.
pub proof fn lemma_tag_has_no_slash(kind: GlobalIdType)
    ensures
        !kind.tag().contains('/'),
{
    reveal_strlit("MESSAGE");
    reveal_strlit("PEOPLE");
    reveal_strlit("ROOM");
    reveal_strlit("ATTACHMENT_ACTION");
    reveal_strlit("<UNKNOWN>");
}

/// The cluster of a geo-URI is its third segment, as long as the cluster
/// holds no `/`; with an id that holds none either, the tag and the id are
/// the fourth and fifth.
pub proof fn lemma_geo_uri_cluster(cluster: Seq<char>, kind: GlobalIdType, id: Seq<char>)
    requires
        !cluster.contains('/'),
    ensures
        nth_segment(geo_uri(cluster, kind, id), 2) == Some(cluster),
        nth_segment(geo_uri(cluster, kind, id), 3) == Some(kind.tag()),
        !id.contains('/') ==> nth_segment(geo_uri(cluster, kind, id), 4) == Some(id),
{
    reveal_strlit("ciscospark://");
    lemma_tag_has_no_slash(kind);
    let s = geo_uri(cluster, kind, id);
    let scheme = "ciscospark://"@;
    let tag = kind.tag();
    let e: int = 13 + cluster.len() as int;
    let f: int = e + 1 + tag.len() as int;
    assert(scheme.len() == 13);
    assert(s.len() == f + 1 + id.len());
    assert(forall|k: int| 0 <= k < 11 ==> #[trigger] s[k] == scheme[k]);
    assert(s[11] == '/');
    assert(s[12] == '/');
    assert(s[e] == '/');
    assert(s[f] == '/');
    assert(forall|k: int| 0 <= k < cluster.len() ==> s[13 + k] == #[trigger] cluster[k]);
    assert(forall|k: int| 0 <= k < tag.len() ==> s[e + 1 + k] == #[trigger] tag[k]);
    assert(forall|k: int| 0 <= k < id.len() ==> s[f + 1 + k] == #[trigger] id[k]);
    lemma_next_slash_at(s, 0, 11);
    lemma_next_slash_at(s, 12, 12);
    assert forall|k: int| 13 <= k < e implies s[k] != '/' by {
        assert(s[k] == cluster[k - 13]);
    }
    lemma_next_slash_at(s, 13, e);
    assert forall|k: int| e + 1 <= k < f implies s[k] != '/' by {
        assert(s[k] == tag[k - e - 1]);
    }
    lemma_next_slash_at(s, e + 1, f);
    assert(s.subrange(13, e) =~= cluster);
    assert(s.subrange(e + 1, f) =~= tag);
    assert(segment_from(s, 13, 0) == Some(cluster));
    assert(segment_from(s, 12, 1) == segment_from(s, 13, 0));
    assert(segment_from(s, 0, 2) == segment_from(s, 12, 1));
    assert(segment_from(s, e + 1, 0) == Some(tag));
    assert(segment_from(s, 13, 1) == segment_from(s, e + 1, 0));
    assert(segment_from(s, 12, 2) == segment_from(s, 13, 1));
    assert(segment_from(s, 0, 3) == segment_from(s, 12, 2));
    if !id.contains('/') {
        assert forall|k: int| f + 1 <= k < s.len() implies s[k] != '/' by {
            assert(s[k] == id[k - f - 1]);
        }
        lemma_next_slash_at(s, f + 1, s.len() as int);
        assert(s.subrange(f + 1, s.len() as int) =~= id);
        assert(segment_from(s, f + 1, 0) == Some(id));
        assert(segment_from(s, e + 1, 1) == segment_from(s, f + 1, 0));
        assert(segment_from(s, 13, 2) == segment_from(s, e + 1, 1));
        assert(segment_from(s, 12, 3) == segment_from(s, 13, 2));
        assert(segment_from(s, 0, 4) == segment_from(s, 12, 3));
    }
}

/// Builds `ciscospark://<cluster>/<KIND>/<id>`.
pub fn geo_uri_of(cluster: &str, kind: GlobalIdType, id: &str) -> (r: String)
    ensures
        r@ == geo_uri(cluster@, kind, id@),
{
    let mut s = String::from_str("ciscospark://");
    s.append(cluster);
    s.append("/");
    s.append(kind.as_str());
    s.append("/");
    s.append(id);
    proof {
        reveal_strlit("/");
        assert(s@ =~= geo_uri(cluster@, kind, id@));
    }
    s
}

/// The cluster named in an encoded identifier, read from the UTF-8 bytes its
/// base64 decoded to: their third `/`-delimited segment.
pub fn cluster_from_bytes(bytes: Vec<u8>) -> (r: Option<String>)
    ensures
        r is Some <==> cluster_in_bytes(bytes@) is Some,
        r matches Some(c) ==> Some(c@) == cluster_in_bytes(bytes@),
{
    match utf8_string(bytes) {
        Some(text) => path_segment(text.as_str(), 2),
        None => None,
    }
}

/// The cluster named in an encoded identifier `base64("<scheme>://<cluster>/<KIND>/<id>")`.
/// Gives `None`, rather than an error, when the text is not base64, does not
/// decode to UTF-8, or has fewer than three `/`-delimited segments.
pub fn decode_cluster(encoded: &str) -> (r: Option<String>)
    ensures
        r is Some <==> cluster_of(encoded@) is Some,
        r matches Some(c) ==> Some(c@) == cluster_of(encoded@),
        encoded@.len() == 0 ==> r is None,
        base64_bytes(encoded@) is None ==> r is None,
        base64_bytes(encoded@) matches Some(b) ==> (!valid_utf8(b) ==> r is None),
        base64_bytes(encoded@) matches Some(b) ==> (valid_utf8(b) && segment_count(decode_utf8(b))
            < 3 ==> r is None),
{
    proof {
        if let Some(b) = base64_bytes(encoded@) {
            if valid_utf8(b) && segment_count(decode_utf8(b)) < 3 {
                lemma_segment_needs_slashes(decode_utf8(b), 0, 2);
            }
        }
    }
    match base64_decode(encoded) {
        Some(bytes) => {
            proof {
                if encoded@.len() == 0 {
                    assert(bytes@ =~= Seq::<u8>::empty());
                    assert(decode_utf8(Seq::<u8>::empty()) =~= Seq::<char>::empty());
                    assert(next_slash(Seq::<char>::empty(), 0) == 0);
                }
            }
            cluster_from_bytes(bytes)
        },
        None => None,
    }
}

/// This type is used to hold the ID of a message, room, person etc.
/// It is created from a certain resource type to make it impossible to use a person ID to fetch a
/// message, or vice versa. Its kind is never `Unknown`.
#[derive(Debug)]
pub struct GlobalId {
    id: String,
    type_: GlobalIdType,
}

impl GlobalId {
    #[verifier::type_invariant]
    spec fn known_kind(self) -> bool {
        self.type_ != GlobalIdType::Unknown
    }

    /// The encoded identifier.
    pub closed spec fn encoded(self) -> Seq<char> {
        self.id@
    }

    /// The kind of resource the identifier denotes.
    pub closed spec fn kind(self) -> GlobalIdType {
        self.type_
    }

    /// Create a new ``GlobalId``, with an ID type as well as an API ID (which can be either old
    /// UUID-style, or new base64 URI style), in the default cluster.
    pub fn new(type_: GlobalIdType, id: String) -> (r: Result<Self, IdError>)
        ensures
            type_ == GlobalIdType::Unknown ==> r == Err::<Self, IdError>(IdError::InvalidResourceKind),
            type_ != GlobalIdType::Unknown ==> (r matches Ok(g) && g.kind() == type_
                && g.encoded() == encoded_id(type_, id@, DEFAULT_CLUSTER@)),
            r matches Ok(g) ==> (is_hyphenated_uuid(id@) ==> decoded_text(g.encoded()) == Some(
                geo_uri(DEFAULT_CLUSTER@, type_, id@),
            )),
            r matches Ok(g) ==> (is_hyphenated_uuid(id@) ==> cluster_of(g.encoded()) == Some(
                DEFAULT_CLUSTER@,
            )),
            r matches Ok(g) ==> (!is_hyphenated_uuid(id@) ==> g.encoded() == id@),
    {
        proof {
            reveal_strlit("us");
            assert(DEFAULT_CLUSTER@[0] != '/' && DEFAULT_CLUSTER@[1] != '/');
        }
        Self::new_with_cluster(type_, id, None)
    }

    /// Given an ID and a possible cluster, generate a new geo-ID.
    /// Fails for ``GlobalIdType::Unknown``. A hyphenated 8-4-4-4-12 UUID is
    /// encoded with the given cluster (the default when there is none);
    /// anything else is taken to be encoded already and kept as it is.
    pub fn new_with_cluster(
        type_: GlobalIdType,
        id: String,
        cluster: Option<&str>,
    ) -> (r: Result<Self, IdError>)
        requires
            cluster matches Some(c) ==> cluster_fits(c@),
        ensures
            type_ == GlobalIdType::Unknown ==> r == Err::<Self, IdError>(IdError::InvalidResourceKind),
            type_ != GlobalIdType::Unknown ==> (r matches Ok(g) && g.kind() == type_
                && g.encoded() == encoded_id(type_, id@, chosen_cluster(cluster))),
            r matches Ok(g) ==> (is_hyphenated_uuid(id@) ==> base64_bytes(g.encoded()) == Some(
                encode_utf8(geo_uri(chosen_cluster(cluster), type_, id@)),
            )),
            r matches Ok(g) ==> (is_hyphenated_uuid(id@) ==> decoded_text(g.encoded()) == Some(
                geo_uri(chosen_cluster(cluster), type_, id@),
            )),
            r matches Ok(g) ==> (is_hyphenated_uuid(id@) && !chosen_cluster(cluster).contains('/')
                ==> cluster_of(g.encoded()) == Some(chosen_cluster(cluster))),
            r matches Ok(g) ==> (!is_hyphenated_uuid(id@) ==> g.encoded() == id@),
    {
        if type_ == GlobalIdType::Unknown {
            return Err(IdError::InvalidResourceKind);
        }
        let c: &str = match cluster {
            Some(c) => c,
            None => DEFAULT_CLUSTER,
        };
        let encoded = if parses_as_uuid(id.as_str()) && id.as_str().unicode_len() == 36 {
            let uri = geo_uri_of(c, type_, id.as_str());
            proof {
                reveal_strlit("us");
                reveal_strlit("ciscospark://");
                lemma_utf8_len(uri@);
                assert(type_.tag().len() <= 17) by {
                    reveal_strlit("ATTACHMENT_ACTION");
                    reveal_strlit("MESSAGE");
                    reveal_strlit("PEOPLE");
                    reveal_strlit("ROOM");
                }
                encode_utf8_valid_utf8(uri@);
                encode_utf8_decode_utf8(uri@);
                if !c@.contains('/') {
                    lemma_geo_uri_cluster(c@, type_, id@);
                }
            }
            base64_encode(uri.as_str().as_bytes())
        } else {
            id
        };
        Ok(GlobalId { id: encoded, type_ })
    }

    /// Returns the base64 geo-ID as a ``&str`` for use in API requests.
    pub fn id(&self) -> (r: &str)
        ensures
            r@ == self.encoded(),
    {
        self.id.as_str()
    }

    /// Returns the type of the ID; never `Unknown`.
    pub fn id_type(&self) -> (r: GlobalIdType)
        ensures
            r == self.kind(),
            r != GlobalIdType::Unknown,
    {
        proof {
            use_type_invariant(self);
        }
        self.type_
    }

    /// Succeeds when the identifier is of the `expected` kind, and otherwise
    /// fails with `IdentifierKindMismatch(expected, actual)`.
    pub fn expect_type(&self, expected: GlobalIdType) -> (r: Result<(), IdError>)
        ensures
            r is Ok <==> self.kind() == expected,
            self.kind() != expected ==> r == Err::<(), IdError>(
                IdError::IdentifierKindMismatch(expected, self.kind()),
            ),
    {
        if self.type_ == expected {
            Ok(())
        } else {
            Err(IdError::IdentifierKindMismatch(expected, self.type_))
        }
    }
}

impl Clone for GlobalId {
    fn clone(&self) -> (r: Self)
        ensures
            r.encoded() == self.encoded(),
            r.kind() == self.kind(),
    {
        proof {
            use_type_invariant(self);
        }
        GlobalId { id: self.id.clone(), type_: self.type_ }
    }
}

} // verus!
