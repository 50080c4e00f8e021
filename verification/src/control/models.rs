//! The control-message header and the two bodiless messages.
use vstd::prelude::*;
use vstd::std_specs::convert::FromSpecImpl;
use crate::base::bitfield::{bit, bit_of, field, with_field};
use crate::base::errors::MctpBaseLibError;
use crate::base::models::TransportHeader;
use crate::base::traits::{FromBinary, U8Enum};
use crate::control::enums::{CommandCode, CompletionCode};

verus! {

/// Size in bytes of the control-message header.
pub const SIZEOF_CONTROL_HDR: u8 = 3;

/// The three bytes in front of every control message. The two flag bytes are kept as
/// they travel; the command code is decoded, unassigned codes becoming
/// [`CommandCode::Unknown`].
#[derive(Copy, Clone, Debug, PartialEq, Eq, Structural)]
pub struct ControlMsgHeader {
    /// `msg_type` in bits 0 to 6, `integrity_check` in bit 7.
    pub msg_type_integrity_check: u8,
    /// `instance_id` in bits 0 to 4, a reserved bit, `d_bit` in bit 6, `rq` in bit 7.
    pub instance_id_rsvd_d_bit_rq: u8,
    pub command_code: CommandCode,
}

impl Default for ControlMsgHeader {
    fn default() -> (h: Self)
        ensures
            h == ControlMsgHeader::spec_default(),
    {
        ControlMsgHeader {
            msg_type_integrity_check: 0,
            instance_id_rsvd_d_bit_rq: 0,
            command_code: CommandCode::Unknown,
        }
    }
}

impl ControlMsgHeader {
    /// The header with every bit cleared and no command.
    pub open spec fn spec_default() -> Self {
        ControlMsgHeader {
            msg_type_integrity_check: 0,
            instance_id_rsvd_d_bit_rq: 0,
            command_code: CommandCode::Unknown,
        }
    }

    /// The header of a control message (message type zero) with the instance id reduced
    /// modulo 32 and the reserved bit cleared.
    pub open spec fn spec_new(
        cmd_code: CommandCode,
        instance_id: u8,
        integ_check: bool,
        request: bool,
        datagram: bool,
    ) -> Self {
        ControlMsgHeader {
            msg_type_integrity_check: (128 * bit(integ_check)) as u8,
            instance_id_rsvd_d_bit_rq: (
                instance_id % 32 + 64 * bit(datagram) + 128 * bit(request)
            ) as u8,
            command_code: cmd_code,
        }
    }

    /// Builds a header; see [`ControlMsgHeader::spec_new`].
    pub fn new(
        cmd_code: CommandCode,
        instance_id: u8,
        integ_check: bool,
        request: bool,
        datagram: bool,
    ) -> (h: Self)
        ensures
            h == Self::spec_new(cmd_code, instance_id, integ_check, request, datagram),
            h.msg_type() == 0,
            h.integrity_check() == bit(integ_check),
            h.instance_id() == instance_id % 32,
            h.rsvd() == 0,
            h.d_bit() == bit(datagram),
            h.rq() == bit(request),
            h.command_code == cmd_code,
    {
        let ic: u8 = bit_of(integ_check);
        let d: u8 = bit_of(datagram);
        let rq: u8 = bit_of(request);
        ControlMsgHeader {
            msg_type_integrity_check: 128 * ic,
            instance_id_rsvd_d_bit_rq: instance_id % 32 + 64 * d + 128 * rq,
            command_code: cmd_code,
        }
    }

    /// `self` as the header of the response: the request bit cleared, all else kept.
    pub open spec fn spec_to_response(&self) -> Self {
        ControlMsgHeader {
            instance_id_rsvd_d_bit_rq: with_field(self.instance_id_rsvd_d_bit_rq, 128, 2, 0),
            ..*self
        }
    }

    /// The header of the response to a request with header `self`.
    pub fn to_response(&self) -> (h: Self)
        ensures
            h == self.spec_to_response(),
            h.rq() == 0,
            h.instance_id() == self.instance_id(),
            h.d_bit() == self.d_bit(),
            h.rsvd() == self.rsvd(),
            h.msg_type_integrity_check == self.msg_type_integrity_check,
            h.command_code == self.command_code,
    {
        let mut h = *self;
        h.set_rq(0);
        h
    }

    /// Message type, bits 0 to 6 of the first byte; zero for control messages.
    pub open spec fn spec_msg_type(&self) -> u8 {
        field(self.msg_type_integrity_check, 1, 128)
    }

    /// Message type, bits 0 to 6 of the first byte; zero for control messages.
    #[verifier::when_used_as_spec(spec_msg_type)]
    pub fn msg_type(&self) -> (v: u8)
        ensures
            v == self.spec_msg_type(),
    {
        self.msg_type_integrity_check % 128
    }

    /// Stores `value` modulo 128 as the new `msg_type`; every other bit stays.
    pub fn set_msg_type(&mut self, value: u8)
        ensures
            *final(self) == (Self {
                msg_type_integrity_check: with_field(
                    old(self).msg_type_integrity_check,
                    1,
                    128,
                    value,
                ),
                ..*old(self)
            }),
    {
        let b: u8 = self.msg_type_integrity_check;
        self.msg_type_integrity_check = b - b % 128 + value % 128;
    }

    /// Integrity-check bit, bit 7 of the first byte.
    pub open spec fn spec_integrity_check(&self) -> u8 {
        field(self.msg_type_integrity_check, 128, 2)
    }

    /// Integrity-check bit, bit 7 of the first byte.
    #[verifier::when_used_as_spec(spec_integrity_check)]
    pub fn integrity_check(&self) -> (v: u8)
        ensures
            v == self.spec_integrity_check(),
    {
        self.msg_type_integrity_check / 128
    }

    /// Stores `value` modulo 2 as the new `integrity_check`; every other bit stays.
    pub fn set_integrity_check(&mut self, value: u8)
        ensures
            *final(self) == (Self {
                msg_type_integrity_check: with_field(
                    old(self).msg_type_integrity_check,
                    128,
                    2,
                    value,
                ),
                ..*old(self)
            }),
    {
        let b: u8 = self.msg_type_integrity_check;
        self.msg_type_integrity_check = b - (b / 128) * 128 + (value % 2) * 128;
    }

    /// Instance id, bits 0 to 4 of the second byte.
    pub open spec fn spec_instance_id(&self) -> u8 {
        field(self.instance_id_rsvd_d_bit_rq, 1, 32)
    }

    /// Instance id, bits 0 to 4 of the second byte.
    #[verifier::when_used_as_spec(spec_instance_id)]
    pub fn instance_id(&self) -> (v: u8)
        ensures
            v == self.spec_instance_id(),
    {
        self.instance_id_rsvd_d_bit_rq % 32
    }

    /// Stores `value` modulo 32 as the new `instance_id`; every other bit stays.
    pub fn set_instance_id(&mut self, value: u8)
        ensures
            *final(self) == (Self {
                instance_id_rsvd_d_bit_rq: with_field(
                    old(self).instance_id_rsvd_d_bit_rq,
                    1,
                    32,
                    value,
                ),
                ..*old(self)
            }),
    {
        let b: u8 = self.instance_id_rsvd_d_bit_rq;
        self.instance_id_rsvd_d_bit_rq = b - b % 32 + value % 32;
    }

    /// Reserved bit 5 of the second byte.
    pub open spec fn spec_rsvd(&self) -> u8 {
        field(self.instance_id_rsvd_d_bit_rq, 32, 2)
    }

    /// Reserved bit 5 of the second byte.
    #[verifier::when_used_as_spec(spec_rsvd)]
    pub fn rsvd(&self) -> (v: u8)
        ensures
            v == self.spec_rsvd(),
    {
        (self.instance_id_rsvd_d_bit_rq / 32) % 2
    }

    /// Stores `value` modulo 2 as the new `rsvd`; every other bit stays.
    pub fn set_rsvd(&mut self, value: u8)
        ensures
            *final(self) == (Self {
                instance_id_rsvd_d_bit_rq: with_field(
                    old(self).instance_id_rsvd_d_bit_rq,
                    32,
                    2,
                    value,
                ),
                ..*old(self)
            }),
    {
        let b: u8 = self.instance_id_rsvd_d_bit_rq;
        self.instance_id_rsvd_d_bit_rq = b - ((b / 32) % 2) * 32 + (value % 2) * 32;
    }

    /// Datagram bit, bit 6 of the second byte.
    pub open spec fn spec_d_bit(&self) -> u8 {
        field(self.instance_id_rsvd_d_bit_rq, 64, 2)
    }

    /// Datagram bit, bit 6 of the second byte.
    #[verifier::when_used_as_spec(spec_d_bit)]
    pub fn d_bit(&self) -> (v: u8)
        ensures
            v == self.spec_d_bit(),
    {
        (self.instance_id_rsvd_d_bit_rq / 64) % 2
    }

    /// Stores `value` modulo 2 as the new `d_bit`; every other bit stays.
    pub fn set_d_bit(&mut self, value: u8)
        ensures
            *final(self) == (Self {
                instance_id_rsvd_d_bit_rq: with_field(
                    old(self).instance_id_rsvd_d_bit_rq,
                    64,
                    2,
                    value,
                ),
                ..*old(self)
            }),
    {
        let b: u8 = self.instance_id_rsvd_d_bit_rq;
        self.instance_id_rsvd_d_bit_rq = b - ((b / 64) % 2) * 64 + (value % 2) * 64;
    }

    /// Request bit, bit 7 of the second byte.
    pub open spec fn spec_rq(&self) -> u8 {
        field(self.instance_id_rsvd_d_bit_rq, 128, 2)
    }

    /// Request bit, bit 7 of the second byte.
    #[verifier::when_used_as_spec(spec_rq)]
    pub fn rq(&self) -> (v: u8)
        ensures
            v == self.spec_rq(),
    {
        self.instance_id_rsvd_d_bit_rq / 128
    }

    /// Stores `value` modulo 2 as the new `rq`; every other bit stays.
    pub fn set_rq(&mut self, value: u8)
        ensures
            *final(self) == (Self {
                instance_id_rsvd_d_bit_rq: with_field(
                    old(self).instance_id_rsvd_d_bit_rq,
                    128,
                    2,
                    value,
                ),
                ..*old(self)
            }),
    {
        let b: u8 = self.instance_id_rsvd_d_bit_rq;
        self.instance_id_rsvd_d_bit_rq = b - (b / 128) * 128 + (value % 2) * 128;
    }
}

impl From<TransportHeader> for ControlMsgHeader {
    fn from(transport_hdr: TransportHeader) -> (h: Self) {
        let is_req = transport_hdr.tag_owner() != 0;
        let is_datagram = transport_hdr.destination_eid == 0xff;
        ControlMsgHeader::new(CommandCode::Unknown, 0, true, is_req, is_datagram)
    }
}

impl FromSpecImpl<TransportHeader> for ControlMsgHeader {
    open spec fn obeys_from_spec() -> bool {
        true
    }

    /// A control header that matches a transport header: integrity check set, a request
    /// when the sender owns the tag, a datagram when sent to the broadcast EID.
    open spec fn from_spec(transport_hdr: TransportHeader) -> Self {
        ControlMsgHeader::spec_new(
            CommandCode::Unknown,
            0,
            true,
            transport_hdr.tag_owner() != 0,
            transport_hdr.destination_eid == 0xff,
        )
    }
}

impl FromBinary for ControlMsgHeader {
    open spec fn spec_size() -> nat {
        3
    }

    open spec fn spec_encode(&self) -> Seq<u8> {
        seq![
            self.msg_type_integrity_check,
            self.instance_id_rsvd_d_bit_rq,
            self.command_code.spec_to_u8(),
        ]
    }

    open spec fn spec_decode(bytes: Seq<u8>) -> Self {
        ControlMsgHeader {
            msg_type_integrity_check: bytes[0],
            instance_id_rsvd_d_bit_rq: bytes[1],
            command_code: CommandCode::spec_from_u8(bytes[2]),
        }
    }

    fn size() -> (n: usize) {
        3
    }

    fn to_bytes(&self) -> (bytes: Vec<u8>) {
        let mut bytes: Vec<u8> = Vec::new();
        bytes.push(self.msg_type_integrity_check);
        bytes.push(self.instance_id_rsvd_d_bit_rq);
        bytes.push(self.command_code.to_u8());
        assert(bytes@ == self.spec_encode());
        bytes
    }

    fn try_from_bytes(bytes: &[u8]) -> (r: Result<Self, MctpBaseLibError>) {
        if bytes.len() < 3 {
            return Err(MctpBaseLibError::InvalidPayloadSize { expected: 3, found: bytes.len() });
        }
        Ok(
            ControlMsgHeader {
                msg_type_integrity_check: bytes[0],
                instance_id_rsvd_d_bit_rq: bytes[1],
                command_code: CommandCode::from_u8(bytes[2]),
            },
        )
    }

    proof fn lemma_encode_len(&self) {
    }

    proof fn lemma_decode_prefix(bytes: Seq<u8>) {
    }

    proof fn lemma_round_trip(&self) {
        self.command_code.lemma_from_to();
    }
}

/// A request without a body.
#[derive(Copy, Clone, Debug, PartialEq, Eq, Structural)]
pub struct EmptyRequest {
    pub hdr: ControlMsgHeader,
}

impl Default for EmptyRequest {
    fn default() -> (m: Self)
        ensures
            m == (EmptyRequest { hdr: ControlMsgHeader::spec_default() }),
    {
        EmptyRequest { hdr: ControlMsgHeader::default() }
    }
}

impl FromBinary for EmptyRequest {
    open spec fn spec_size() -> nat {
        3
    }

    open spec fn spec_encode(&self) -> Seq<u8> {
        self.hdr.spec_encode()
    }

    open spec fn spec_decode(bytes: Seq<u8>) -> Self {
        EmptyRequest {
            hdr: ControlMsgHeader::spec_decode(bytes),
        }
    }

    fn size() -> (n: usize) {
        3
    }

    fn to_bytes(&self) -> (bytes: Vec<u8>) {
        let bytes: Vec<u8> = self.hdr.to_bytes();
        assert(bytes@ == self.spec_encode());
        bytes
    }

    fn try_from_bytes(bytes: &[u8]) -> (r: Result<Self, MctpBaseLibError>) {
        if bytes.len() < 3 {
            return Err(MctpBaseLibError::InvalidPayloadSize { expected: 3, found: bytes.len() });
        }
        let hdr = match ControlMsgHeader::try_from_bytes(bytes) {
            Ok(hdr) => hdr,
            Err(e) => {
                return Err(e);
            },
        };
        Ok(EmptyRequest { hdr })
    }

    proof fn lemma_encode_len(&self) {
        self.hdr.lemma_encode_len();
    }

    proof fn lemma_decode_prefix(bytes: Seq<u8>) {
        ControlMsgHeader::lemma_decode_prefix(bytes);
        ControlMsgHeader::lemma_decode_prefix(bytes.take(3));
        assert(bytes.take(3).take(3) == bytes.take(3));
    }

    proof fn lemma_round_trip(&self) {
        self.hdr.lemma_round_trip();
        self.hdr.lemma_encode_len();
        ControlMsgHeader::lemma_decode_prefix(self.spec_encode());
        assert(self.spec_encode().take(3) == self.hdr.spec_encode());
    }
}

/// A response that carries a completion code and nothing else.
#[derive(Copy, Clone, Debug, PartialEq, Eq, Structural)]
pub struct EmptyResponse {
    pub hdr: ControlMsgHeader,
    pub completion_code: u8,
}

impl Default for EmptyResponse {
    fn default() -> (m: Self)
        ensures
            m == (EmptyResponse {
                hdr: ControlMsgHeader::spec_default(),
                completion_code: 0,
            }),
    {
        EmptyResponse { hdr: ControlMsgHeader::default(), completion_code: 0 }
    }
}

impl EmptyResponse {
    /// A response with the given header and completion code.
    pub fn new(hdr: ControlMsgHeader, completion_code: u8) -> (m: Self)
        ensures
            m == (EmptyResponse { hdr, completion_code }),
    {
        EmptyResponse { hdr, completion_code }
    }

    /// The response to `req`: the header of the request with its request bit cleared,
    /// and the byte of `completion_code`.
    pub open spec fn spec_from(req: EmptyRequest, completion_code: CompletionCode) -> Self {
        EmptyResponse {
            hdr: req.hdr.spec_to_response(),
            completion_code: completion_code.spec_to_u8(),
        }
    }

    /// Builds the response to `req`; see [`EmptyResponse::spec_from`].
    pub fn from(req: EmptyRequest, completion_code: CompletionCode) -> (m: Self)
        ensures
            m == Self::spec_from(req, completion_code),
            m.hdr.rq() == 0,
            m.hdr.instance_id() == req.hdr.instance_id(),
    {
        EmptyResponse::new(req.hdr.to_response(), completion_code.to_u8())
    }
}

impl FromBinary for EmptyResponse {
    open spec fn spec_size() -> nat {
        4
    }

    open spec fn spec_encode(&self) -> Seq<u8> {
        self.hdr.spec_encode() + seq![self.completion_code]
    }

    open spec fn spec_decode(bytes: Seq<u8>) -> Self {
        EmptyResponse {
            hdr: ControlMsgHeader::spec_decode(bytes),
            completion_code: bytes[3],
        }
    }

    fn size() -> (n: usize) {
        4
    }

    fn to_bytes(&self) -> (bytes: Vec<u8>) {
        let mut bytes: Vec<u8> = self.hdr.to_bytes();
        bytes.push(self.completion_code);
        assert(bytes@ == self.spec_encode());
        bytes
    }

    fn try_from_bytes(bytes: &[u8]) -> (r: Result<Self, MctpBaseLibError>) {
        if bytes.len() < 4 {
            return Err(MctpBaseLibError::InvalidPayloadSize { expected: 4, found: bytes.len() });
        }
        let hdr = match ControlMsgHeader::try_from_bytes(bytes) {
            Ok(hdr) => hdr,
            Err(e) => {
                return Err(e);
            },
        };
        Ok(EmptyResponse { hdr, completion_code: bytes[3] })
    }

    proof fn lemma_encode_len(&self) {
        self.hdr.lemma_encode_len();
    }

    proof fn lemma_decode_prefix(bytes: Seq<u8>) {
        ControlMsgHeader::lemma_decode_prefix(bytes);
        ControlMsgHeader::lemma_decode_prefix(bytes.take(4));
        assert(bytes.take(4).take(3) == bytes.take(3));
    }

    proof fn lemma_round_trip(&self) {
        self.hdr.lemma_round_trip();
        self.hdr.lemma_encode_len();
        ControlMsgHeader::lemma_decode_prefix(self.spec_encode());
        assert(self.spec_encode().take(3) == self.hdr.spec_encode());
    }
}

} // verus!
