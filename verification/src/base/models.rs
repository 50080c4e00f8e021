//! The MCTP transport header.
use vstd::prelude::*;
use crate::base::bitfield::{bit, bit_of, field, with_field};
use crate::base::errors::MctpBaseLibError;
use crate::base::traits::FromBinary;

verus! {

/// The only header version of the base protocol that is supported.
pub const MCTP_BASE_PROTOCOL_SUPPORTED_HDR_VERSION: u8 = 0x1;

/// The four bytes in front of every MCTP packet, kept exactly as they travel.
#[derive(Copy, Clone, Debug, PartialEq, Eq, Structural)]
pub struct TransportHeader {
    /// `header_version` in bits 0 to 3, reserved bits above.
    pub header_version_rsvd: u8,
    pub destination_eid: u8,
    pub source_eid: u8,
    /// `msg_tag` in bits 0 to 2, `tag_owner` in bit 3, `packet_seq` in bits 4 to 5,
    /// `eom` in bit 6, `som` in bit 7.
    pub msg_tag_tag_owner_packet_seq_eom_som: u8,
}

impl Default for TransportHeader {
    fn default() -> (h: Self)
        ensures
            h == (TransportHeader {
                header_version_rsvd: 0,
                destination_eid: 0,
                source_eid: 0,
                msg_tag_tag_owner_packet_seq_eom_som: 0,
            }),
    {
        TransportHeader {
            header_version_rsvd: 0,
            destination_eid: 0,
            source_eid: 0,
            msg_tag_tag_owner_packet_seq_eom_som: 0,
        }
    }
}

impl TransportHeader {
    /// The header of a packet from `src_eid` to `dst_eid`: supported version, reserved
    /// bits and packet sequence zero, the tag reduced modulo 8, absent flags cleared.
    pub open spec fn spec_new(
        src_eid: u8,
        dst_eid: u8,
        msg_tag: u8,
        tag_owner: Option<bool>,
        start_of_msg: Option<bool>,
        end_of_msg: Option<bool>,
    ) -> Self {
        TransportHeader {
            header_version_rsvd: MCTP_BASE_PROTOCOL_SUPPORTED_HDR_VERSION,
            destination_eid: dst_eid,
            source_eid: src_eid,
            msg_tag_tag_owner_packet_seq_eom_som: (
                msg_tag % 8
                    + 8 * bit(tag_owner.unwrap_or(false))
                    + 64 * bit(end_of_msg.unwrap_or(false))
                    + 128 * bit(start_of_msg.unwrap_or(false))
            ) as u8,
        }
    }

    /// Builds a header; see [`TransportHeader::spec_new`].
    pub fn new(
        src_eid: u8,
        dst_eid: u8,
        msg_tag: u8,
        tag_owner: Option<bool>,
        start_of_msg: Option<bool>,
        end_of_msg: Option<bool>,
    ) -> (h: Self)
        ensures
            h == Self::spec_new(src_eid, dst_eid, msg_tag, tag_owner, start_of_msg, end_of_msg),
            h.header_version() == MCTP_BASE_PROTOCOL_SUPPORTED_HDR_VERSION,
            h.rsvd() == 0,
            h.msg_tag() == msg_tag % 8,
            h.tag_owner() == bit(tag_owner.unwrap_or(false)),
            h.packet_seq() == 0,
            h.eom() == bit(end_of_msg.unwrap_or(false)),
            h.som() == bit(start_of_msg.unwrap_or(false)),
    {
        let to: u8 = bit_of(tag_owner.unwrap_or(false));
        let eom: u8 = bit_of(end_of_msg.unwrap_or(false));
        let som: u8 = bit_of(start_of_msg.unwrap_or(false));
        TransportHeader {
            header_version_rsvd: MCTP_BASE_PROTOCOL_SUPPORTED_HDR_VERSION,
            destination_eid: dst_eid,
            source_eid: src_eid,
            msg_tag_tag_owner_packet_seq_eom_som: msg_tag % 8 + 8 * to + 64 * eom + 128 * som,
        }
    }

    /// The header of the single-packet reply to `self`: endpoints swapped, same tag,
    /// tag-owner bit inverted, start and end of message set.
    pub open spec fn spec_create_response(&self) -> Self {
        Self::spec_new(
            self.destination_eid,
            self.source_eid,
            self.msg_tag(),
            Some(self.tag_owner() == 0),
            Some(true),
            Some(true),
        )
    }

    /// Builds the header of the reply; see [`TransportHeader::spec_create_response`].
    pub fn create_response(&self) -> (r: TransportHeader)
        ensures
            r == self.spec_create_response(),
            r.source_eid == self.destination_eid,
            r.destination_eid == self.source_eid,
            r.msg_tag() == self.msg_tag(),
            r.tag_owner() == 1 - self.tag_owner(),
            r.som() == 1,
            r.eom() == 1,
    {
        TransportHeader::new(
            self.destination_eid,
            self.source_eid,
            self.msg_tag(),
            Some(self.tag_owner() == 0),
            Some(true),
            Some(true),
        )
    }

    /// Header version, bits 0 to 3 of the first byte.
    pub open spec fn spec_header_version(&self) -> u8 {
        field(self.header_version_rsvd, 1, 16)
    }

    /// Header version, bits 0 to 3 of the first byte.
    #[verifier::when_used_as_spec(spec_header_version)]
    pub fn header_version(&self) -> (v: u8)
        ensures
            v == self.spec_header_version(),
    {
        self.header_version_rsvd % 16
    }

    /// Stores `value` modulo 16 as the new `header_version`; every other bit stays.
    pub fn set_header_version(&mut self, value: u8)
        ensures
            *final(self) == (Self {
                header_version_rsvd: with_field(old(self).header_version_rsvd, 1, 16, value),
                ..*old(self)
            }),
    {
        let b: u8 = self.header_version_rsvd;
        self.header_version_rsvd = b - b % 16 + value % 16;
    }

    /// Reserved bits 4 to 7 of the first byte.
    pub open spec fn spec_rsvd(&self) -> u8 {
        field(self.header_version_rsvd, 16, 16)
    }

    /// Reserved bits 4 to 7 of the first byte.
    #[verifier::when_used_as_spec(spec_rsvd)]
    pub fn rsvd(&self) -> (v: u8)
        ensures
            v == self.spec_rsvd(),
    {
        self.header_version_rsvd / 16
    }

    /// Stores `value` modulo 16 as the new `rsvd`; every other bit stays.
    pub fn set_rsvd(&mut self, value: u8)
        ensures
            *final(self) == (Self {
                header_version_rsvd: with_field(old(self).header_version_rsvd, 16, 16, value),
                ..*old(self)
            }),
    {
        let b: u8 = self.header_version_rsvd;
        self.header_version_rsvd = b - (b / 16) * 16 + (value % 16) * 16;
    }

    /// Message tag, bits 0 to 2 of the last byte.
    pub open spec fn spec_msg_tag(&self) -> u8 {
        field(self.msg_tag_tag_owner_packet_seq_eom_som, 1, 8)
    }

    /// Message tag, bits 0 to 2 of the last byte.
    #[verifier::when_used_as_spec(spec_msg_tag)]
    pub fn msg_tag(&self) -> (v: u8)
        ensures
            v == self.spec_msg_tag(),
    {
        self.msg_tag_tag_owner_packet_seq_eom_som % 8
    }

    /// Stores `value` modulo 8 as the new `msg_tag`; every other bit stays.
    pub fn set_msg_tag(&mut self, value: u8)
        ensures
            *final(self) == (Self {
                msg_tag_tag_owner_packet_seq_eom_som: with_field(
                    old(self).msg_tag_tag_owner_packet_seq_eom_som,
                    1,
                    8,
                    value,
                ),
                ..*old(self)
            }),
    {
        let b: u8 = self.msg_tag_tag_owner_packet_seq_eom_som;
        self.msg_tag_tag_owner_packet_seq_eom_som = b - b % 8 + value % 8;
    }

    /// Tag-owner bit, bit 3 of the last byte.
    pub open spec fn spec_tag_owner(&self) -> u8 {
        field(self.msg_tag_tag_owner_packet_seq_eom_som, 8, 2)
    }

    /// Tag-owner bit, bit 3 of the last byte.
    #[verifier::when_used_as_spec(spec_tag_owner)]
    pub fn tag_owner(&self) -> (v: u8)
        ensures
            v == self.spec_tag_owner(),
    {
        (self.msg_tag_tag_owner_packet_seq_eom_som / 8) % 2
    }

    /// Stores `value` modulo 2 as the new `tag_owner`; every other bit stays.
    pub fn set_tag_owner(&mut self, value: u8)
        ensures
            *final(self) == (Self {
                msg_tag_tag_owner_packet_seq_eom_som: with_field(
                    old(self).msg_tag_tag_owner_packet_seq_eom_som,
                    8,
                    2,
                    value,
                ),
                ..*old(self)
            }),
    {
        let b: u8 = self.msg_tag_tag_owner_packet_seq_eom_som;
        self.msg_tag_tag_owner_packet_seq_eom_som = b - ((b / 8) % 2) * 8 + (value % 2) * 8;
    }

    /// Packet sequence number, bits 4 to 5 of the last byte.
    pub open spec fn spec_packet_seq(&self) -> u8 {
        field(self.msg_tag_tag_owner_packet_seq_eom_som, 16, 4)
    }

    /// Packet sequence number, bits 4 to 5 of the last byte.
    #[verifier::when_used_as_spec(spec_packet_seq)]
    pub fn packet_seq(&self) -> (v: u8)
        ensures
            v == self.spec_packet_seq(),
    {
        (self.msg_tag_tag_owner_packet_seq_eom_som / 16) % 4
    }

    /// Stores `value` modulo 4 as the new `packet_seq`; every other bit stays.
    pub fn set_packet_seq(&mut self, value: u8)
        ensures
            *final(self) == (Self {
                msg_tag_tag_owner_packet_seq_eom_som: with_field(
                    old(self).msg_tag_tag_owner_packet_seq_eom_som,
                    16,
                    4,
                    value,
                ),
                ..*old(self)
            }),
    {
        let b: u8 = self.msg_tag_tag_owner_packet_seq_eom_som;
        self.msg_tag_tag_owner_packet_seq_eom_som = b - ((b / 16) % 4) * 16 + (value % 4) * 16;
    }

    /// End-of-message bit, bit 6 of the last byte.
    pub open spec fn spec_eom(&self) -> u8 {
        field(self.msg_tag_tag_owner_packet_seq_eom_som, 64, 2)
    }

    /// End-of-message bit, bit 6 of the last byte.
    #[verifier::when_used_as_spec(spec_eom)]
    pub fn eom(&self) -> (v: u8)
        ensures
            v == self.spec_eom(),
    {
        (self.msg_tag_tag_owner_packet_seq_eom_som / 64) % 2
    }

    /// Stores `value` modulo 2 as the new `eom`; every other bit stays.
    pub fn set_eom(&mut self, value: u8)
        ensures
            *final(self) == (Self {
                msg_tag_tag_owner_packet_seq_eom_som: with_field(
                    old(self).msg_tag_tag_owner_packet_seq_eom_som,
                    64,
                    2,
                    value,
                ),
                ..*old(self)
            }),
    {
        let b: u8 = self.msg_tag_tag_owner_packet_seq_eom_som;
        self.msg_tag_tag_owner_packet_seq_eom_som = b - ((b / 64) % 2) * 64 + (value % 2) * 64;
    }

    /// Start-of-message bit, bit 7 of the last byte.
    pub open spec fn spec_som(&self) -> u8 {
        field(self.msg_tag_tag_owner_packet_seq_eom_som, 128, 2)
    }

    /// Start-of-message bit, bit 7 of the last byte.
    #[verifier::when_used_as_spec(spec_som)]
    pub fn som(&self) -> (v: u8)
        ensures
            v == self.spec_som(),
    {
        self.msg_tag_tag_owner_packet_seq_eom_som / 128
    }

    /// Stores `value` modulo 2 as the new `som`; every other bit stays.
    pub fn set_som(&mut self, value: u8)
        ensures
            *final(self) == (Self {
                msg_tag_tag_owner_packet_seq_eom_som: with_field(
                    old(self).msg_tag_tag_owner_packet_seq_eom_som,
                    128,
                    2,
                    value,
                ),
                ..*old(self)
            }),
    {
        let b: u8 = self.msg_tag_tag_owner_packet_seq_eom_som;
        self.msg_tag_tag_owner_packet_seq_eom_som = b - (b / 128) * 128 + (value % 2) * 128;
    }

}

impl FromBinary for TransportHeader {
    open spec fn spec_size() -> nat {
        4
    }

    open spec fn spec_encode(&self) -> Seq<u8> {
        seq![
            self.header_version_rsvd,
            self.destination_eid,
            self.source_eid,
            self.msg_tag_tag_owner_packet_seq_eom_som,
        ]
    }

    open spec fn spec_decode(bytes: Seq<u8>) -> Self {
        TransportHeader {
            header_version_rsvd: bytes[0],
            destination_eid: bytes[1],
            source_eid: bytes[2],
            msg_tag_tag_owner_packet_seq_eom_som: bytes[3],
        }
    }

    fn size() -> (n: usize) {
        4
    }

    fn to_bytes(&self) -> (bytes: Vec<u8>) {
        let mut bytes: Vec<u8> = Vec::new();
        bytes.push(self.header_version_rsvd);
        bytes.push(self.destination_eid);
        bytes.push(self.source_eid);
        bytes.push(self.msg_tag_tag_owner_packet_seq_eom_som);
        assert(bytes@ == self.spec_encode());
        bytes
    }

    fn try_from_bytes(bytes: &[u8]) -> (r: Result<Self, MctpBaseLibError>) {
        if bytes.len() < 4 {
            return Err(MctpBaseLibError::InvalidPayloadSize { expected: 4, found: bytes.len() });
        }
        Ok(
            TransportHeader {
                header_version_rsvd: bytes[0],
                destination_eid: bytes[1],
                source_eid: bytes[2],
                msg_tag_tag_owner_packet_seq_eom_som: bytes[3],
            },
        )
    }

    proof fn lemma_encode_len(&self) {
    }

    proof fn lemma_decode_prefix(bytes: Seq<u8>) {
    }

    proof fn lemma_round_trip(&self) {
    }
}

} // verus!
