//! The comment record: a mesh-routing header and the compressed state vector
//! of the active drag system, 256 bits on the wire.
//!
//! | field           | first bit | bits |
//! |-----------------|-----------|------|
//! | uid             | 0         | 8    |
//! | destination_uid | 8         | 8    |
//! | msg_id          | 16        | 8    |
//! | hops_left       | 24        | 3    |
//! | comment_type    | 27        | 2    |
//! | msg_type        | 29        | 2    |
//! | team_number     | 31        | 8    |
//! | ads             | 39        | 208  |
//! | reserved        | 247       | 9    |
//!
//! Fields follow one another most significant first and do not stop at byte
//! borders.  The reserved bits are written as zero and ignored when read.

use vstd::prelude::*;
use vstd::arithmetic::power2::lemma2_to64;
use crate::ads::AdsCompressed;
use crate::bits::{
    bit_at,
    field,
    lemma_field_bits,
    lemma_field_bound,
    lemma_same_bits_same_bytes,
    read_bits,
    write_bits,
};
use crate::error::{refusal, DecodeLengthError, RangeError, WireField};

verus! {

/// Number of bytes of a comment record.
pub const COMMENT_LEN: usize = 32;

/// First bit of the state vector inside a comment record.
pub const ADS_AT: usize = 39;

/// First of the nine reserved bits that end a comment record.
pub const RESERVED_AT: usize = 247;

/// The role of the device that a frame comes from, two bits on the wire.
#[derive(Debug, Clone, Copy, PartialEq, Eq, Structural)]
pub enum DeviceType {
    Ground,
    Top,
    Bottom,
    Mobile,
}

/// What a frame carries, two bits on the wire.
#[derive(Debug, Clone, Copy, PartialEq, Eq, Structural)]
pub enum MessageType {
    Ack,
    Data,
    Placeholder,
    Custom,
}

impl DeviceType {
    /// The number that stands for this role on the wire.
    pub open spec fn spec_code(self) -> u8 {
        match self {
            DeviceType::Ground => 0,
            DeviceType::Top => 1,
            DeviceType::Bottom => 2,
            DeviceType::Mobile => 3,
        }
    }

    /// The role that `bits` stands for; a number that stands for none is read
    /// as `Ground`.
    pub open spec fn spec_from_bits(bits: u8) -> DeviceType {
        if bits == 1 {
            DeviceType::Top
        } else if bits == 2 {
            DeviceType::Bottom
        } else if bits == 3 {
            DeviceType::Mobile
        } else {
            DeviceType::Ground
        }
    }

    /// The number that stands for this role on the wire.
    #[verifier::when_used_as_spec(spec_code)]
    pub fn code(self) -> (c: u8)
        ensures
            c == self.spec_code(),
            c < 4,
    {
        match self {
            DeviceType::Ground => 0,
            DeviceType::Top => 1,
            DeviceType::Bottom => 2,
            DeviceType::Mobile => 3,
        }
    }

    /// Reads a role from received bits.  Never fails: a number that stands
    /// for no role is read as `Ground`.
    #[verifier::when_used_as_spec(spec_from_bits)]
    pub fn from_bits(bits: u8) -> (d: DeviceType)
        ensures
            d == DeviceType::spec_from_bits(bits),
            bits < 4 ==> d.spec_code() == bits,
            bits >= 4 ==> d == DeviceType::Ground,
    {
        match bits {
            1 => DeviceType::Top,
            2 => DeviceType::Bottom,
            3 => DeviceType::Mobile,
            _ => DeviceType::Ground,
        }
    }
}

impl Default for DeviceType {
    fn default() -> (d: DeviceType)
        ensures
            d == DeviceType::Ground,
    {
        DeviceType::Ground
    }
}

impl MessageType {
    /// The number that stands for this kind of message on the wire.
    pub open spec fn spec_code(self) -> u8 {
        match self {
            MessageType::Ack => 0,
            MessageType::Data => 1,
            MessageType::Placeholder => 2,
            MessageType::Custom => 3,
        }
    }

    /// The kind of message that `bits` stands for; a number that stands for
    /// none is read as `Data`.
    pub open spec fn spec_from_bits(bits: u8) -> MessageType {
        if bits == 0 {
            MessageType::Ack
        } else if bits == 2 {
            MessageType::Placeholder
        } else if bits == 3 {
            MessageType::Custom
        } else {
            MessageType::Data
        }
    }

    /// The number that stands for this kind of message on the wire.
    #[verifier::when_used_as_spec(spec_code)]
    pub fn code(self) -> (c: u8)
        ensures
            c == self.spec_code(),
            c < 4,
    {
        match self {
            MessageType::Ack => 0,
            MessageType::Data => 1,
            MessageType::Placeholder => 2,
            MessageType::Custom => 3,
        }
    }

    /// Reads a kind of message from received bits.  Never fails: a number
    /// that stands for no kind is read as `Data`.
    #[verifier::when_used_as_spec(spec_from_bits)]
    pub fn from_bits(bits: u8) -> (m: MessageType)
        ensures
            m == MessageType::spec_from_bits(bits),
            bits < 4 ==> m.spec_code() == bits,
            bits >= 4 ==> m == MessageType::Data,
    {
        match bits {
            0 => MessageType::Ack,
            2 => MessageType::Placeholder,
            3 => MessageType::Custom,
            _ => MessageType::Data,
        }
    }
}

impl Default for MessageType {
    fn default() -> (m: MessageType)
        ensures
            m == MessageType::Data,
    {
        MessageType::Data
    }
}

/// The record carried in the comment field of a position report.
#[derive(Debug, Clone, Copy, PartialEq, Eq, Structural)]
pub struct Comment {
    /// The node the frame comes from.
    pub uid: u8,
    /// The node the frame is meant for.
    pub destination_uid: u8,
    /// Sequence number, by which frames are told apart and acknowledged.
    pub msg_id: u8,
    /// How many more times the frame may be relayed; three bits.
    pub hops_left: u8,
    /// The role of the sending device.
    pub comment_type: DeviceType,
    /// What the frame carries.
    pub msg_type: MessageType,
    /// The team the sender belongs to.
    pub team_number: u8,
    /// The compressed state vector of the active drag system.
    pub ads: AdsCompressed,
}

/// The routing header of a frame as the mesh layer hands it over: plain
/// numbers that were not yet held against the widths of their fields.
#[derive(Debug, Clone, Copy, PartialEq, Eq, Structural)]
pub struct Routing {
    pub uid: u32,
    pub destination_uid: u32,
    pub msg_id: u32,
    pub hops_left: u32,
    /// The number of the role of the sending device.
    pub comment_type: u32,
    /// The number of the kind of message.
    pub msg_type: u32,
    pub team_number: u32,
}

/// What the routing layer keeps of a frame whose `msg_type` is `Ack`: the
/// message that is answered and whether it arrived.
#[derive(Debug, Clone, Copy, PartialEq, Eq, Structural)]
pub struct Acknowledgement {
    pub id: u8,
    pub ack: bool,
}

/// `value` as the byte that its field takes, if it is below `limit`.
fn fit(field: WireField, value: u32, bits: u8, limit: u32) -> (r: Result<u8, RangeError>)
    requires
        limit <= 256,
    ensures
        value < limit ==> r == Ok::<u8, RangeError>(value as u8),
        value >= limit ==> r == Err::<u8, RangeError>(RangeError { field, value, bits }),
{
    if value < limit {
        Ok(value as u8)
    } else {
        Err(RangeError { field, value, bits })
    }
}

impl Routing {
    /// The first field, in wire order, whose number does not fit its width:
    /// eight bits for an address, a sequence number or a team, three for the
    /// relay budget, two for a role or a kind of message.
    pub open spec fn misfit(&self) -> Option<RangeError> {
        if self.uid >= 256 {
            refusal(WireField::Uid, self.uid, 8)
        } else if self.destination_uid >= 256 {
            refusal(WireField::DestinationUid, self.destination_uid, 8)
        } else if self.msg_id >= 256 {
            refusal(WireField::MsgId, self.msg_id, 8)
        } else if self.hops_left >= 8 {
            refusal(WireField::HopsLeft, self.hops_left, 3)
        } else if self.comment_type >= 4 {
            refusal(WireField::CommentType, self.comment_type, 2)
        } else if self.msg_type >= 4 {
            refusal(WireField::MsgType, self.msg_type, 2)
        } else if self.team_number >= 256 {
            refusal(WireField::TeamNumber, self.team_number, 8)
        } else {
            None
        }
    }

    /// The record with this header and the state vector `ads`.
    pub open spec fn record(&self, ads: AdsCompressed) -> Comment {
        Comment {
            uid: self.uid as u8,
            destination_uid: self.destination_uid as u8,
            msg_id: self.msg_id as u8,
            hops_left: self.hops_left as u8,
            comment_type: DeviceType::spec_from_bits(self.comment_type as u8),
            msg_type: MessageType::spec_from_bits(self.msg_type as u8),
            team_number: self.team_number as u8,
            ads,
        }
    }
}

impl Comment {
    /// Makes a record from the header that the mesh layer supplies and a
    /// compressed state vector.
    ///
    /// Fails exactly when a number of the header does not fit the width of
    /// its field, and then names the first such field in wire order.  No
    /// number is clamped and no role or kind of message is guessed: either
    /// would send the frame somewhere else than its sender meant.
    pub fn from_routing(routing: &Routing, ads: AdsCompressed) -> (r: Result<Comment, RangeError>)
        ensures
            routing.misfit() is None ==> r == Ok::<Comment, RangeError>(routing.record(ads)),
            routing.misfit() is None ==> r->Ok_0.fits(),
            routing.misfit() is Some ==> r == Err::<Comment, RangeError>(routing.misfit()->Some_0),
    {
        let uid = match fit(WireField::Uid, routing.uid, 8, 256) {
            Ok(b) => b,
            Err(e) => {
                return Err(e);
            },
        };
        let destination_uid = match fit(
            WireField::DestinationUid,
            routing.destination_uid,
            8,
            256,
        ) {
            Ok(b) => b,
            Err(e) => {
                return Err(e);
            },
        };
        let msg_id = match fit(WireField::MsgId, routing.msg_id, 8, 256) {
            Ok(b) => b,
            Err(e) => {
                return Err(e);
            },
        };
        let hops_left = match fit(WireField::HopsLeft, routing.hops_left, 3, 8) {
            Ok(b) => b,
            Err(e) => {
                return Err(e);
            },
        };
        let comment_type = match fit(WireField::CommentType, routing.comment_type, 2, 4) {
            Ok(b) => b,
            Err(e) => {
                return Err(e);
            },
        };
        let msg_type = match fit(WireField::MsgType, routing.msg_type, 2, 4) {
            Ok(b) => b,
            Err(e) => {
                return Err(e);
            },
        };
        let team_number = match fit(WireField::TeamNumber, routing.team_number, 8, 256) {
            Ok(b) => b,
            Err(e) => {
                return Err(e);
            },
        };
        Ok(
            Comment {
                uid,
                destination_uid,
                msg_id,
                hops_left,
                comment_type: DeviceType::from_bits(comment_type),
                msg_type: MessageType::from_bits(msg_type),
                team_number,
                ads,
            },
        )
    }

    /// The header of the record, for the mesh layer.
    pub fn routing(&self) -> (routing: Routing)
        ensures
            routing == (Routing {
                uid: self.uid as u32,
                destination_uid: self.destination_uid as u32,
                msg_id: self.msg_id as u32,
                hops_left: self.hops_left as u32,
                comment_type: self.comment_type.spec_code() as u32,
                msg_type: self.msg_type.spec_code() as u32,
                team_number: self.team_number as u32,
            }),
            self.fits() ==> routing.misfit() is None && routing.record(self.ads) == *self,
    {
        Routing {
            uid: self.uid as u32,
            destination_uid: self.destination_uid as u32,
            msg_id: self.msg_id as u32,
            hops_left: self.hops_left as u32,
            comment_type: self.comment_type.code() as u32,
            msg_type: self.msg_type.code() as u32,
            team_number: self.team_number as u32,
        }
    }

    /// Every field fits the width it has on the wire.  Only `hops_left` can
    /// fail to: the other fields have types as wide as their place.
    pub open spec fn fits(&self) -> bool {
        self.hops_left < 8
    }

    /// `bytes` is this record on the wire.
    pub open spec fn laid_out(&self, bytes: Seq<u8>) -> bool {
        &&& bytes.len() == COMMENT_LEN
        &&& field(bytes, 0, 8) == self.uid
        &&& field(bytes, 8, 8) == self.destination_uid
        &&& field(bytes, 16, 8) == self.msg_id
        &&& field(bytes, 24, 3) == self.hops_left
        &&& field(bytes, 27, 2) == self.comment_type.spec_code()
        &&& field(bytes, 29, 2) == self.msg_type.spec_code()
        &&& field(bytes, 31, 8) == self.team_number
        &&& self.ads.held_at(bytes, ADS_AT as int)
        &&& field(bytes, RESERVED_AT as int, 9) == 0
    }

    /// The record that `bytes` holds, whatever its reserved bits are.
    pub open spec fn parse(bytes: Seq<u8>) -> Comment {
        Comment {
            uid: field(bytes, 0, 8) as u8,
            destination_uid: field(bytes, 8, 8) as u8,
            msg_id: field(bytes, 16, 8) as u8,
            hops_left: field(bytes, 24, 3) as u8,
            comment_type: DeviceType::spec_from_bits(field(bytes, 27, 2) as u8),
            msg_type: MessageType::spec_from_bits(field(bytes, 29, 2) as u8),
            team_number: field(bytes, 31, 8) as u8,
            ads: AdsCompressed::parse_at(bytes, ADS_AT as int),
        }
    }

    /// Packs the record into its 32 bytes.
    ///
    /// Fails exactly when `hops_left` needs more than three bits, and then
    /// names that field: a relay budget is never clamped.
    pub fn encode(&self) -> (r: Result<[u8; 32], RangeError>)
        ensures
            self.fits() ==> r is Ok && self.laid_out(r->Ok_0@),
            !self.fits() ==> r == Err::<[u8; 32], RangeError>(
                RangeError { field: WireField::HopsLeft, value: self.hops_left as u32, bits: 3 },
            ),
    {
        if self.hops_left >= 8 {
            return Err(
                RangeError { field: WireField::HopsLeft, value: self.hops_left as u32, bits: 3 },
            );
        }
        proof {
            lemma2_to64();
        }
        let mut buf: [u8; 32] = [0u8; 32];
        write_bits(&mut buf, 0, 8, self.uid as u64);
        write_bits(&mut buf, 8, 8, self.destination_uid as u64);
        write_bits(&mut buf, 16, 8, self.msg_id as u64);
        write_bits(&mut buf, 24, 3, self.hops_left as u64);
        write_bits(&mut buf, 27, 2, self.comment_type.code() as u64);
        write_bits(&mut buf, 29, 2, self.msg_type.code() as u64);
        write_bits(&mut buf, 31, 8, self.team_number as u64);
        self.ads.write_at(&mut buf, ADS_AT);
        write_bits(&mut buf, RESERVED_AT, 9, 0);
        Ok(buf)
    }

    /// Unpacks a record from its 32 bytes.
    ///
    /// Fails exactly when `bytes` is not 32 bytes long.  Of 32 bytes every
    /// pattern is read: the reserved bits are ignored, and each two-bit
    /// pattern stands for a role and a kind of message.
    pub fn decode(bytes: &[u8]) -> (r: Result<Comment, DecodeLengthError>)
        ensures
            bytes@.len() == COMMENT_LEN ==> r == Ok::<Comment, DecodeLengthError>(
                Comment::parse(bytes@),
            ),
            bytes@.len() != COMMENT_LEN ==> r == Err::<Comment, DecodeLengthError>(
                DecodeLengthError { expected: COMMENT_LEN, actual: bytes@.len() as usize },
            ),
    {
        if bytes.len() != COMMENT_LEN {
            return Err(DecodeLengthError { expected: COMMENT_LEN, actual: bytes.len() });
        }
        Ok(Comment::unpack(bytes))
    }

    /// Unpacks a record from 32 bytes.
    pub(crate) fn unpack(bytes: &[u8]) -> (c: Comment)
        requires
            bytes@.len() == COMMENT_LEN,
        ensures
            c == Comment::parse(bytes@),
    {
        proof {
            lemma2_to64();
        }
        Comment {
            uid: read_bits(bytes, 0, 8) as u8,
            destination_uid: read_bits(bytes, 8, 8) as u8,
            msg_id: read_bits(bytes, 16, 8) as u8,
            hops_left: read_bits(bytes, 24, 3) as u8,
            comment_type: DeviceType::from_bits(read_bits(bytes, 27, 2) as u8),
            msg_type: MessageType::from_bits(read_bits(bytes, 29, 2) as u8),
            team_number: read_bits(bytes, 31, 8) as u8,
            ads: AdsCompressed::read_at(bytes, ADS_AT),
        }
    }
}

impl Default for Comment {
    /// The record of a ground station that sends data and nothing else yet.
    fn default() -> (c: Comment)
        ensures
            c == (Comment {
                uid: 0,
                destination_uid: 0,
                msg_id: 0,
                hops_left: 0,
                comment_type: DeviceType::Ground,
                msg_type: MessageType::Data,
                team_number: 0,
                ads: AdsCompressed::zero(),
            }),
    {
        Comment {
            uid: 0,
            destination_uid: 0,
            msg_id: 0,
            hops_left: 0,
            comment_type: DeviceType::Ground,
            msg_type: MessageType::Data,
            team_number: 0,
            ads: AdsCompressed::default(),
        }
    }
}

/// Unpacking what was packed gives the record back, field for field.
pub proof fn lemma_decode_inverts_encode(c: Comment, bytes: Seq<u8>)
    requires
        c.fits(),
        c.laid_out(bytes),
    ensures
        Comment::parse(bytes) == c,
{
}

/// A record has one byte sequence on the wire and no other.
pub proof fn lemma_wire_form_is_unique(c: Comment, a: Seq<u8>, b: Seq<u8>)
    requires
        c.laid_out(a),
        c.laid_out(b),
    ensures
        a == b,
{
    lemma_field_bits(a, b, 0, 8);
    lemma_field_bits(a, b, 8, 8);
    lemma_field_bits(a, b, 16, 8);
    lemma_field_bits(a, b, 24, 3);
    lemma_field_bits(a, b, 27, 2);
    lemma_field_bits(a, b, 29, 2);
    lemma_field_bits(a, b, 31, 8);
    lemma_field_bits(a, b, 39, 16);
    lemma_field_bits(a, b, 55, 16);
    lemma_field_bits(a, b, 71, 16);
    lemma_field_bits(a, b, 87, 16);
    lemma_field_bits(a, b, 103, 16);
    lemma_field_bits(a, b, 119, 16);
    lemma_field_bits(a, b, 135, 16);
    lemma_field_bits(a, b, 151, 16);
    lemma_field_bits(a, b, 167, 16);
    lemma_field_bits(a, b, 183, 16);
    lemma_field_bits(a, b, 199, 16);
    lemma_field_bits(a, b, 215, 32);
    lemma_field_bits(a, b, 247, 9);
    assert forall|i: int| 0 <= i < 8 * a.len() implies bit_at(a, i) == bit_at(b, i) by {}
    lemma_same_bits_same_bytes(a, b);
}

/// Any 32 bytes whose reserved bits are zero are the wire form of the record
/// they hold: packing what was unpacked gives the same bytes back.
pub proof fn lemma_encode_inverts_decode(bytes: Seq<u8>)
    requires
        bytes.len() == COMMENT_LEN,
        field(bytes, RESERVED_AT as int, 9) == 0,
    ensures
        Comment::parse(bytes).fits(),
        Comment::parse(bytes).laid_out(bytes),
{
    lemma2_to64();
    lemma_field_bound(bytes, 0, 8);
    lemma_field_bound(bytes, 8, 8);
    lemma_field_bound(bytes, 16, 8);
    lemma_field_bound(bytes, 24, 3);
    lemma_field_bound(bytes, 27, 2);
    lemma_field_bound(bytes, 29, 2);
    lemma_field_bound(bytes, 31, 8);
    lemma_field_bound(bytes, 39, 16);
    lemma_field_bound(bytes, 55, 16);
    lemma_field_bound(bytes, 71, 16);
    lemma_field_bound(bytes, 87, 16);
    lemma_field_bound(bytes, 103, 16);
    lemma_field_bound(bytes, 119, 16);
    lemma_field_bound(bytes, 135, 16);
    lemma_field_bound(bytes, 151, 16);
    lemma_field_bound(bytes, 167, 16);
    lemma_field_bound(bytes, 183, 16);
    lemma_field_bound(bytes, 199, 16);
    lemma_field_bound(bytes, 215, 32);
}

} // verus!
