//! Get Routing Table Entries: reads the routing table of a bridge.
use vstd::prelude::*;
use crate::base::errors::MctpBaseLibError;
use crate::base::traits::{FromBinary, U8Enum};
use crate::control::enums::CompletionCode;
use crate::control::models::ControlMsgHeader;
use crate::control::ControlMsgReponseStatus;

verus! {

/// Body of a Get Routing Table Entries request, behind its control header.
#[derive(Copy, Clone, Debug, PartialEq, Eq, Structural)]
pub struct Request {
    pub hdr: ControlMsgHeader,
    /// Handle of the first entry wanted; zero for the start of the table.
    pub entry_handle: u8,
}

impl Default for Request {
    fn default() -> (m: Self)
        ensures
            m == (Request {
                hdr: ControlMsgHeader::spec_default(),
                entry_handle: 0,
            }),
    {
        Request { hdr: ControlMsgHeader::default(), entry_handle: 0 }
    }
}

impl Request {
    /// A request for the entries from `entry_handle` on.
    pub fn new(hdr: ControlMsgHeader, entry_handle: u8) -> (m: Self)
        ensures
            m == (Request { hdr, entry_handle }),
    {
        Request { hdr, entry_handle }
    }
}

impl FromBinary for Request {
    open spec fn spec_size() -> nat {
        4
    }

    open spec fn spec_encode(&self) -> Seq<u8> {
        self.hdr.spec_encode() + seq![self.entry_handle]
    }

    open spec fn spec_decode(bytes: Seq<u8>) -> Self {
        Request {
            hdr: ControlMsgHeader::spec_decode(bytes),
            entry_handle: bytes[3],
        }
    }

    fn size() -> (n: usize) {
        4
    }

    fn to_bytes(&self) -> (bytes: Vec<u8>) {
        let mut bytes: Vec<u8> = self.hdr.to_bytes();
        bytes.push(self.entry_handle);
        assert(bytes@ == self.spec_encode());
        bytes
    }

    fn try_from_bytes(bytes: &[u8]) -> (r: Result<Self, MctpBaseLibError>) {
        if bytes.len() < 4 {
            return Err(MctpBaseLibError::InvalidPayloadSize { expected: 4, found: bytes.len() });
        }
        let hdr = match ControlMsgHeader::try_from_bytes(bytes) {
            Ok(hdr) => hdr,
            Err(e) => {
                return Err(e);
            },
        };
        Ok(Request { hdr, entry_handle: bytes[3] })
    }

    proof fn lemma_encode_len(&self) {
        self.hdr.lemma_encode_len();
    }

    proof fn lemma_decode_prefix(bytes: Seq<u8>) {
        ControlMsgHeader::lemma_decode_prefix(bytes);
        ControlMsgHeader::lemma_decode_prefix(bytes.take(4));
        assert(bytes.take(4).take(3) == bytes.take(3));
    }

    proof fn lemma_round_trip(&self) {
        self.hdr.lemma_round_trip();
        self.hdr.lemma_encode_len();
        ControlMsgHeader::lemma_decode_prefix(self.spec_encode());
        assert(self.spec_encode().take(3) == self.hdr.spec_encode());
    }
}

/// Body of a Get Routing Table Entries response, behind its control header. The
/// entries themselves follow it on the wire.
#[derive(Copy, Clone, Debug, PartialEq, Eq, Structural)]
pub struct Response {
    pub hdr: ControlMsgHeader,
    pub completion_code: u8,
    /// Handle to ask for next; `0xFF` when the table has no more entries.
    pub next_entry_handle: u8,
    pub entries_in_response: u8,
}

impl Default for Response {
    fn default() -> (m: Self)
        ensures
            m == (Response {
                hdr: ControlMsgHeader::spec_default(),
                completion_code: 0,
                next_entry_handle: 0,
                entries_in_response: 0,
            }),
    {
        Response {
            hdr: ControlMsgHeader::default(),
            completion_code: 0,
            next_entry_handle: 0,
            entries_in_response: 0,
        }
    }
}

impl Response {
    /// A response with the given fields.
    pub fn new(
        hdr: ControlMsgHeader,
        completion_code: u8,
        next_entry_handle: u8,
        entries_in_response: u8,
    ) -> (m: Self)
        ensures
            m == (Response { hdr, completion_code, next_entry_handle, entries_in_response }),
    {
        Response { hdr, completion_code, next_entry_handle, entries_in_response }
    }

    /// The response to `req`: its header with the request bit cleared, then the given fields.
    pub open spec fn spec_from(
        req: Request,
        completion_code: CompletionCode,
        next_entry_handle: u8,
        entries_in_response: u8,
    ) -> Self {
        Response {
            hdr: req.hdr.spec_to_response(),
            completion_code: completion_code.spec_to_u8(),
            next_entry_handle,
            entries_in_response,
        }
    }

    /// Builds the response to `req`; see [`Response::spec_from`].
    pub fn from(
        req: Request,
        completion_code: CompletionCode,
        next_entry_handle: u8,
        entries_in_response: u8,
    ) -> (m: Self)
        ensures
            m == Self::spec_from(req, completion_code, next_entry_handle, entries_in_response),
            m.hdr.rq() == 0,
            m.hdr.instance_id() == req.hdr.instance_id(),
    {
        Response::new(
            req.hdr.to_response(),
            completion_code.to_u8(),
            next_entry_handle,
            entries_in_response,
        )
    }
}

impl FromBinary for Response {
    open spec fn spec_size() -> nat {
        6
    }

    open spec fn spec_encode(&self) -> Seq<u8> {
        self.hdr.spec_encode() + seq![
            self.completion_code,
            self.next_entry_handle,
            self.entries_in_response,
        ]
    }

    open spec fn spec_decode(bytes: Seq<u8>) -> Self {
        Response {
            hdr: ControlMsgHeader::spec_decode(bytes),
            completion_code: bytes[3],
            next_entry_handle: bytes[4],
            entries_in_response: bytes[5],
        }
    }

    fn size() -> (n: usize) {
        6
    }

    fn to_bytes(&self) -> (bytes: Vec<u8>) {
        let mut bytes: Vec<u8> = self.hdr.to_bytes();
        bytes.push(self.completion_code);
        bytes.push(self.next_entry_handle);
        bytes.push(self.entries_in_response);
        assert(bytes@ == self.spec_encode());
        bytes
    }

    fn try_from_bytes(bytes: &[u8]) -> (r: Result<Self, MctpBaseLibError>) {
        if bytes.len() < 6 {
            return Err(MctpBaseLibError::InvalidPayloadSize { expected: 6, found: bytes.len() });
        }
        let hdr = match ControlMsgHeader::try_from_bytes(bytes) {
            Ok(hdr) => hdr,
            Err(e) => {
                return Err(e);
            },
        };
        Ok(
            Response {
                hdr,
                completion_code: bytes[3],
                next_entry_handle: bytes[4],
                entries_in_response: bytes[5],
            },
        )
    }

    proof fn lemma_encode_len(&self) {
        self.hdr.lemma_encode_len();
    }

    proof fn lemma_decode_prefix(bytes: Seq<u8>) {
        ControlMsgHeader::lemma_decode_prefix(bytes);
        ControlMsgHeader::lemma_decode_prefix(bytes.take(6));
        assert(bytes.take(6).take(3) == bytes.take(3));
    }

    proof fn lemma_round_trip(&self) {
        self.hdr.lemma_round_trip();
        self.hdr.lemma_encode_len();
        ControlMsgHeader::lemma_decode_prefix(self.spec_encode());
        assert(self.spec_encode().take(3) == self.hdr.spec_encode());
    }
}

impl ControlMsgReponseStatus for Response {
    open spec fn spec_completion_byte(&self) -> u8 {
        self.completion_code
    }

    fn completion_code(&self) -> (c: CompletionCode) {
        CompletionCode::from_u8(self.completion_code)
    }

    fn is_success(&self) -> (r: Result<(), u8>) {
        match CompletionCode::from_u8(self.completion_code) {
            CompletionCode::Success => Ok(()),
            _ => Err(self.completion_code),
        }
    }
}

} // verus!
