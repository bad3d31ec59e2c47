use vstd::prelude::*;
use vstd::utf8::encode_utf8;
use crate::value::{Value, Js, ObjectBuilder, bytes, number, num_js, text, values_js, lemma_array_js};

verus! {

/// A type with a fixed projection into the generic value tree.
///
/// `js` is the model of the projection and `to_js` computes it; the
/// projection never fails.
pub trait ToJS {
    spec fn js(&self) -> Js;

    fn to_js(&self) -> (r: Value)
        ensures
            r@ == self.js(),
    ;
}

impl ToJS for u64 {
    open spec fn js(&self) -> Js {
        num_js(*self as nat)
    }

    fn to_js(&self) -> (r: Value) {
        number(*self)
    }
}

impl ToJS for u32 {
    open spec fn js(&self) -> Js {
        num_js(*self as nat)
    }

    fn to_js(&self) -> (r: Value) {
        number(*self as u64)
    }
}

impl ToJS for String {
    open spec fn js(&self) -> Js {
        Js::Str(self@)
    }

    fn to_js(&self) -> (r: Value) {
        text(self.as_str())
    }
}

/// An absent value is the explicit null; a present one is projected as is.
impl<T: ToJS> ToJS for Option<T> {
    open spec fn js(&self) -> Js {
        match self {
            Some(v) => v.js(),
            None => Js::Null,
        }
    }

    fn to_js(&self) -> (r: Value) {
        match self {
            Some(v) => v.to_js(),
            None => Value::Null,
        }
    }
}

/// The models of the elements of a list, in order.
pub open spec fn items_js<T: ToJS>(s: Seq<T>) -> Seq<Js> {
    s.map_values(|x: T| x.js())
}

/// A list is an array of its projected elements, in order.
impl<T: ToJS> ToJS for Vec<T> {
    open spec fn js(&self) -> Js {
        Js::Arr(items_js(self@))
    }

    fn to_js(&self) -> (r: Value) {
        let mut out: Vec<Value> = Vec::new();
        let mut i: usize = 0;
        while i < self.len()
            invariant
                i <= self@.len(),
                values_js(out@) =~= items_js(self@.subrange(0, i as int)),
            decreases self@.len() - i,
        {
            let v = self[i].to_js();
            let ghost before = out@;
            out.push(v);
            proof {
                assert(out@ =~= before.push(v));
                assert(self@.subrange(0, i + 1) =~= self@.subrange(0, i as int).push(self@[i as int]));
                assert(values_js(out@) =~= values_js(before).push(v@));
                assert(items_js(self@.subrange(0, i + 1)) =~= items_js(self@.subrange(0, i as int)).push(self@[i as int].js()));
            }
            i += 1;
        }
        proof {
            assert(self@.subrange(0, self@.len() as int) =~= self@);
            lemma_array_js(out);
        }
        Value::Array(out)
    }
}

/// A light client's identifier.
#[derive(Debug, Clone, PartialEq, Eq)]
pub struct ClientId(pub String);

impl ToJS for ClientId {
    open spec fn js(&self) -> Js {
        Js::Str(self.0@)
    }

    fn to_js(&self) -> (r: Value) {
        text(self.0.as_str())
    }
}

/// A connection's identifier.
#[derive(Debug, Clone, PartialEq, Eq)]
pub struct ConnectionId(pub String);

impl ToJS for ConnectionId {
    open spec fn js(&self) -> Js {
        Js::Str(self.0@)
    }

    fn to_js(&self) -> (r: Value) {
        text(self.0.as_str())
    }
}

/// A channel's identifier.
#[derive(Debug, Clone, PartialEq, Eq)]
pub struct ChannelId(pub String);

impl ToJS for ChannelId {
    open spec fn js(&self) -> Js {
        Js::Str(self.0@)
    }

    fn to_js(&self) -> (r: Value) {
        text(self.0.as_str())
    }
}

/// A port's identifier.
#[derive(Debug, Clone, PartialEq, Eq)]
pub struct PortId(pub String);

impl ToJS for PortId {
    open spec fn js(&self) -> Js {
        Js::Str(self.0@)
    }

    fn to_js(&self) -> (r: Value) {
        text(self.0.as_str())
    }
}

/// The version string negotiated for a channel.
#[derive(Debug, Clone, PartialEq, Eq)]
pub struct ChannelVersion(pub String);

impl ToJS for ChannelVersion {
    open spec fn js(&self) -> Js {
        Js::Str(self.0@)
    }

    fn to_js(&self) -> (r: Value) {
        text(self.0.as_str())
    }
}

/// The account that signs a message, in its string form.
#[derive(Debug, Clone, PartialEq, Eq)]
pub struct Signer(pub String);

impl ToJS for Signer {
    open spec fn js(&self) -> Js {
        Js::Str(self.0@)
    }

    fn to_js(&self) -> (r: Value) {
        text(self.0.as_str())
    }
}

/// A packet sequence number.
#[derive(Debug, Clone, Copy, PartialEq, Eq)]
pub struct Sequence(pub u64);

impl ToJS for Sequence {
    open spec fn js(&self) -> Js {
        num_js(self.0 as nat)
    }

    fn to_js(&self) -> (r: Value) {
        number(self.0)
    }
}

/// The ordering of a channel.
#[derive(Debug, Clone, Copy, PartialEq, Eq)]
pub enum Order {
    Unspecified,
    Unordered,
    Ordered,
}

impl Order {
    pub open spec fn name(self) -> Seq<char> {
        match self {
            Order::Unspecified => "ORDER_NONE_UNSPECIFIED"@,
            Order::Unordered => "ORDER_UNORDERED"@,
            Order::Ordered => "ORDER_ORDERED"@,
        }
    }

    /// The protocol's name for the ordering.
    pub fn as_str(&self) -> (r: &'static str)
        ensures
            r@ == self.name(),
    {
        match self {
            Order::Unspecified => "ORDER_NONE_UNSPECIFIED",
            Order::Unordered => "ORDER_UNORDERED",
            Order::Ordered => "ORDER_ORDERED",
        }
    }
}

impl ToJS for Order {
    open spec fn js(&self) -> Js {
        Js::Str(self.name())
    }

    fn to_js(&self) -> (r: Value) {
        text(self.as_str())
    }
}

/// A point in a chain's history: a revision number and a height within it.
#[derive(Debug, Clone, Copy, PartialEq, Eq)]
pub struct Height {
    pub revision_number: u64,
    pub revision_height: u64,
}

impl ToJS for Height {
    open spec fn js(&self) -> Js {
        Js::Obj(
            Seq::empty()
                .push(("revisionNumber"@, self.revision_number.js()))
                .push(("revisionHeight"@, self.revision_height.js())),
        )
    }

    fn to_js(&self) -> (r: Value) {
        ObjectBuilder::new()
            .with("revisionNumber", self.revision_number.to_js())
            .with("revisionHeight", self.revision_height.to_js())
            .build()
    }
}

/// The height after which a packet times out, if any.
#[derive(Debug, Clone, Copy, PartialEq, Eq)]
pub enum TimeoutHeight {
    Never,
    At(Height),
}

impl ToJS for TimeoutHeight {
    open spec fn js(&self) -> Js {
        match self {
            TimeoutHeight::Never => Js::Str("never"@),
            TimeoutHeight::At(h) => h.js(),
        }
    }

    fn to_js(&self) -> (r: Value) {
        match self {
            TimeoutHeight::Never => text("never"),
            TimeoutHeight::At(h) => h.to_js(),
        }
    }
}

/// The time after which a packet times out, in the protocol's own display form.
#[derive(Debug, Clone, PartialEq, Eq)]
pub struct TimeoutTimestamp(pub String);

impl ToJS for TimeoutTimestamp {
    open spec fn js(&self) -> Js {
        Js::Str(self.0@)
    }

    fn to_js(&self) -> (r: Value) {
        text(self.0.as_str())
    }
}

/// The name of the text that `std::time::Duration`'s `Debug` gives for a
/// duration of `nanos` nanoseconds.
pub uninterp spec fn duration_debug(nanos: u64) -> Seq<char>;

/// Relies on `Duration::from_nanos` and `<Duration as Debug>::fmt`: the text
/// depends on the duration alone.
#[verifier::external_body]
fn duration_text(nanos: u64) -> (r: String)
    ensures
        r@ == duration_debug(nanos),
{
    format!("{:?}", std::time::Duration::from_nanos(nanos))
}

/// The delay a connection imposes before a packet may be processed, in
/// nanoseconds. It is projected as its `Debug` text, such as `"1.5s"`.
#[derive(Debug, Clone, Copy, PartialEq, Eq)]
pub struct DelayPeriod {
    pub nanos: u64,
}

impl ToJS for DelayPeriod {
    open spec fn js(&self) -> Js {
        Js::Str(duration_debug(self.nanos))
    }

    fn to_js(&self) -> (r: Value) {
        Value::Str(duration_text(self.nanos))
    }
}

/// The prefix under which a chain stores its commitments.
#[derive(Debug, Clone, PartialEq, Eq)]
pub struct CommitmentPrefix(pub Vec<u8>);

impl ToJS for CommitmentPrefix {
    open spec fn js(&self) -> Js {
        Js::Bytes(self.0@)
    }

    fn to_js(&self) -> (r: Value) {
        bytes(&self.0)
    }
}

/// A proof of a commitment, as raw bytes.
#[derive(Debug, Clone, PartialEq, Eq)]
pub struct CommitmentProofBytes(pub Vec<u8>);

impl ToJS for CommitmentProofBytes {
    open spec fn js(&self) -> Js {
        Js::Bytes(self.0@)
    }

    fn to_js(&self) -> (r: Value) {
        bytes(&self.0)
    }
}

/// A packet acknowledgement, as raw bytes.
#[derive(Debug, Clone, PartialEq, Eq)]
pub struct Acknowledgement(pub Vec<u8>);

impl ToJS for Acknowledgement {
    open spec fn js(&self) -> Js {
        Js::Bytes(self.0@)
    }

    fn to_js(&self) -> (r: Value) {
        bytes(&self.0)
    }
}

/// A payload tagged with the URL of its protobuf type. The payload is carried
/// opaquely, whatever the type.
#[derive(Debug, Clone, PartialEq, Eq)]
pub struct Any {
    pub type_url: String,
    pub value: Vec<u8>,
}

impl ToJS for Any {
    open spec fn js(&self) -> Js {
        Js::Obj(
            Seq::empty()
                .push(("typeUrl"@, self.type_url.js()))
                .push(("value"@, Js::Bytes(self.value@))),
        )
    }

    fn to_js(&self) -> (r: Value) {
        ObjectBuilder::new()
            .with("typeUrl", self.type_url.to_js())
            .with("value", bytes(&self.value))
            .build()
    }
}

/// `n` as four little-endian bytes.
pub open spec fn le_u32(n: nat) -> Seq<u8> {
    seq![(n % 256) as u8, ((n / 256) % 256) as u8, ((n / 65536) % 256) as u8, ((n / 16777216) % 256) as u8]
}

/// The borsh encoding of a string: the length of its UTF-8 bytes as a
/// little-endian `u32`, then those bytes.
pub open spec fn borsh_str(s: Seq<char>) -> Seq<u8> {
    le_u32(encode_utf8(s).len()) + encode_utf8(s)
}

/// The borsh encodings of the strings of a list, one after the other.
pub open spec fn borsh_strs(list: Seq<Seq<char>>) -> Seq<u8>
    decreases list.len(),
{
    if list.len() == 0 {
        Seq::empty()
    } else {
        borsh_strs(list.drop_last()) + borsh_str(list.last())
    }
}

/// The borsh encoding of a connection version: its identifier, then the
/// number of its features as a little-endian `u32`, then each feature.
pub open spec fn borsh_version(identifier: Seq<char>, features: Seq<Seq<char>>) -> Seq<u8> {
    borsh_str(identifier) + le_u32(features.len()) + borsh_strs(features)
}

/// Whether borsh can encode a version with these parts: every length that it
/// writes as a `u32` fits in one.
pub open spec fn version_fits(identifier: Seq<char>, features: Seq<Seq<char>>) -> bool {
    &&& encode_utf8(identifier).len() <= u32::MAX
    &&& features.len() <= u32::MAX
    &&& forall|i: int| 0 <= i < features.len() ==> encode_utf8(#[trigger] features[i]).len() <= u32::MAX
}

pub open spec fn strings_view(list: Seq<String>) -> Seq<Seq<char>> {
    list.map_values(|s: String| s@)
}

fn push_le_u32(out: &mut Vec<u8>, n: u32)
    ensures
        final(out)@ == old(out)@ + le_u32(n as nat),
{
    out.push((n % 256) as u8);
    out.push(((n / 256) % 256) as u8);
    out.push(((n / 65536) % 256) as u8);
    out.push(((n / 16777216) % 256) as u8);
    assert(final(out)@ =~= old(out)@ + le_u32(n as nat));
}

fn push_borsh_str(out: &mut Vec<u8>, s: &String)
    requires
        encode_utf8(s@).len() <= u32::MAX,
    ensures
        final(out)@ == old(out)@ + borsh_str(s@),
{
    let b = s.as_str().as_bytes();
    push_le_u32(out, b.len() as u32);
    let ghost start = out@;
    let mut i: usize = 0;
    while i < b.len()
        invariant
            i <= b@.len(),
            b@ == encode_utf8(s@),
            start == old(out)@ + le_u32(b@.len() as nat),
            out@ == start + b@.subrange(0, i as int),
        decreases b@.len() - i,
    {
        out.push(b[i]);
        i += 1;
        assert(out@ =~= start + b@.subrange(0, i as int));
    }
    assert(b@.subrange(0, b@.len() as int) =~= b@);
    assert(out@ =~= old(out)@ + borsh_str(s@));
}

/// A connection version: an identifier and the features it supports. It is
/// projected as the bytes of its borsh encoding.
#[derive(Debug, PartialEq, Eq)]
pub struct ConnectionVersion {
    identifier: String,
    features: Vec<String>,
}

impl ConnectionVersion {
    pub closed spec fn spec_identifier(&self) -> Seq<char> {
        self.identifier@
    }

    pub closed spec fn spec_features(&self) -> Seq<Seq<char>> {
        strings_view(self.features@)
    }

    #[verifier::type_invariant]
    closed spec fn wf(&self) -> bool {
        version_fits(self.spec_identifier(), self.spec_features())
    }

    /// A version with these parts, or `None` where borsh could not encode it.
    pub fn new(identifier: String, features: Vec<String>) -> (r: Option<ConnectionVersion>)
        ensures
            r is Some <==> version_fits(identifier@, strings_view(features@)),
            r matches Some(v) ==> v.spec_identifier() == identifier@
                && v.spec_features() == strings_view(features@),
    {
        if identifier.as_str().as_bytes().len() > 4294967295 || features.len() > 4294967295 {
            return None;
        }
        let mut i: usize = 0;
        while i < features.len()
            invariant
                i <= features@.len(),
                forall|k: int| 0 <= k < i ==> encode_utf8(#[trigger] strings_view(features@)[k]).len() <= u32::MAX,
            decreases features@.len() - i,
        {
            if features[i].as_str().as_bytes().len() > 4294967295 {
                assert(strings_view(features@)[i as int] == features@[i as int]@);
                return None;
            }
            i += 1;
        }
        Some(ConnectionVersion { identifier, features })
    }

    /// The borsh encoding of the version.
    pub fn to_borsh(&self) -> (r: Vec<u8>)
        ensures
            r@ == borsh_version(self.spec_identifier(), self.spec_features()),
    {
        proof {
            use_type_invariant(self);
        }
        let mut out: Vec<u8> = Vec::new();
        push_borsh_str(&mut out, &self.identifier);
        push_le_u32(&mut out, self.features.len() as u32);
        let ghost head = out@;
        let mut i: usize = 0;
        while i < self.features.len()
            invariant
                i <= self.features@.len(),
                version_fits(self.spec_identifier(), self.spec_features()),
                self.spec_features() == strings_view(self.features@),
                out@ == head + borsh_strs(strings_view(self.features@).subrange(0, i as int)),
            decreases self.features@.len() - i,
        {
            assert(strings_view(self.features@)[i as int] == self.features@[i as int]@);
            push_borsh_str(&mut out, &self.features[i]);
            i += 1;
            let ghost done = strings_view(self.features@).subrange(0, i as int);
            assert(done.drop_last() =~= strings_view(self.features@).subrange(0, i - 1));
            assert(out@ =~= head + borsh_strs(done));
        }
        assert(strings_view(self.features@).subrange(0, self.features@.len() as int) =~= self.spec_features());
        assert(out@ =~= borsh_version(self.spec_identifier(), self.spec_features()));
        out
    }
}

impl Clone for ConnectionVersion {
    fn clone(&self) -> (r: ConnectionVersion)
        ensures
            r.spec_identifier() == self.spec_identifier(),
            r.spec_features() == self.spec_features(),
    {
        proof {
            use_type_invariant(self);
        }
        let mut features: Vec<String> = Vec::new();
        let mut i: usize = 0;
        while i < self.features.len()
            invariant
                i <= self.features@.len(),
                strings_view(features@) =~= strings_view(self.features@).subrange(0, i as int),
            decreases self.features@.len() - i,
        {
            let f = self.features[i].clone();
            let ghost before = features@;
            features.push(f);
            assert(features@ =~= before.push(f));
            assert(strings_view(features@) =~= strings_view(before).push(f@));
            assert(strings_view(self.features@).subrange(0, i + 1) =~= strings_view(self.features@).subrange(
                0,
                i as int,
            ).push(self.features@[i as int]@));
            i += 1;
        }
        assert(strings_view(features@) =~= strings_view(self.features@));
        ConnectionVersion { identifier: self.identifier.clone(), features }
    }
}

impl ToJS for ConnectionVersion {
    open spec fn js(&self) -> Js {
        Js::Bytes(borsh_version(self.spec_identifier(), self.spec_features()))
    }

    fn to_js(&self) -> (r: Value) {
        Value::Bytes(self.to_borsh())
    }
}

/// The other end of a connection.
#[derive(Debug, Clone, PartialEq, Eq)]
pub struct Counterparty {
    pub client_id: ClientId,
    pub connection_id: Option<ConnectionId>,
    pub prefix: CommitmentPrefix,
}

impl ToJS for Counterparty {
    open spec fn js(&self) -> Js {
        Js::Obj(
            Seq::empty()
                .push(("clientId"@, self.client_id.js()))
                .push(("connectionId"@, self.connection_id.js()))
                .push(("prefix"@, self.prefix.js())),
        )
    }

    fn to_js(&self) -> (r: Value) {
        ObjectBuilder::new()
            .with("clientId", self.client_id.to_js())
            .with("connectionId", self.connection_id.to_js())
            .with("prefix", self.prefix.to_js())
            .build()
    }
}

/// A packet, in the protocol's own one-line description of it.
#[derive(Debug, Clone, PartialEq, Eq)]
pub struct Packet(pub String);

impl ToJS for Packet {
    open spec fn js(&self) -> Js {
        Js::Str(self.0@)
    }

    fn to_js(&self) -> (r: Value) {
        text(self.0.as_str())
    }
}

} // verus!
