//! The SMBus header in front of an MCTP packet.
use vstd::prelude::*;
use crate::base::errors::MctpBaseLibError;
use crate::base::traits::FromBinary;

verus! {

/// The SMBus command code that announces an MCTP packet.
pub const SMBUS_COMMAND_CODE_MCTP: u8 = 0x0f;

/// The four bytes in front of an MCTP packet on SMBus, kept as they travel.
#[derive(Copy, Clone, Debug, PartialEq, Eq, Structural)]
pub struct SmbusPhysTransportHeader {
    /// Seven-bit address of the receiver in bits 1 to 7; bit 0 is zero.
    pub dest_addr: u8,
    pub command_code: u8,
    /// Number of bytes behind this one, the packet error code not counted.
    pub byte_count: u8,
    /// Seven-bit address of the sender in bits 1 to 7; bit 0 is one.
    pub src_addr: u8,
}

impl Default for SmbusPhysTransportHeader {
    fn default() -> (h: Self)
        ensures
            h == (SmbusPhysTransportHeader {
                dest_addr: 0,
                command_code: 0,
                byte_count: 0,
                src_addr: 0,
            }),
    {
        SmbusPhysTransportHeader { dest_addr: 0, command_code: 0, byte_count: 0, src_addr: 0 }
    }
}

impl SmbusPhysTransportHeader {
    /// The header of an MCTP packet between two seven-bit addresses: each address is
    /// shifted up by one bit, an eighth bit falling off, and the sender's lowest bit is set.
    pub open spec fn spec_new(dest_addr_7bit: u8, src_addr_7bit: u8, byte_count: u8) -> Self {
        SmbusPhysTransportHeader {
            dest_addr: ((dest_addr_7bit % 128) * 2) as u8,
            command_code: SMBUS_COMMAND_CODE_MCTP,
            byte_count,
            src_addr: ((src_addr_7bit % 128) * 2 + 1) as u8,
        }
    }

    /// Builds a header; see [`SmbusPhysTransportHeader::spec_new`].
    pub fn new(dest_addr_7bit: u8, src_addr_7bit: u8, byte_count: u8) -> (h: Self)
        ensures
            h == Self::spec_new(dest_addr_7bit, src_addr_7bit, byte_count),
            dest_addr_7bit < 128 ==> h.dest_addr_7bit() == dest_addr_7bit,
            src_addr_7bit < 128 ==> h.src_addr_7bit() == src_addr_7bit,
    {
        SmbusPhysTransportHeader {
            dest_addr: (dest_addr_7bit % 128) * 2,
            command_code: SMBUS_COMMAND_CODE_MCTP,
            byte_count,
            src_addr: (src_addr_7bit % 128) * 2 + 1,
        }
    }

    /// Seven-bit address of the receiver.
    pub open spec fn spec_dest_addr_7bit(&self) -> u8 {
        self.dest_addr / 2
    }

    /// Seven-bit address of the receiver.
    #[verifier::when_used_as_spec(spec_dest_addr_7bit)]
    pub fn dest_addr_7bit(&self) -> (a: u8)
        ensures
            a == self.spec_dest_addr_7bit(),
    {
        self.dest_addr / 2
    }

    /// Seven-bit address of the sender.
    pub open spec fn spec_src_addr_7bit(&self) -> u8 {
        self.src_addr / 2
    }

    /// Seven-bit address of the sender.
    #[verifier::when_used_as_spec(spec_src_addr_7bit)]
    pub fn src_addr_7bit(&self) -> (a: u8)
        ensures
            a == self.spec_src_addr_7bit(),
    {
        self.src_addr / 2
    }

    /// Whether the command code announces an MCTP packet.
    pub open spec fn spec_is_mctp(&self) -> bool {
        self.command_code == SMBUS_COMMAND_CODE_MCTP
    }

    /// Whether the command code announces an MCTP packet.
    #[verifier::when_used_as_spec(spec_is_mctp)]
    pub fn is_mctp(&self) -> (b: bool)
        ensures
            b == self.spec_is_mctp(),
    {
        self.command_code == SMBUS_COMMAND_CODE_MCTP
    }
}

impl FromBinary for SmbusPhysTransportHeader {
    open spec fn spec_size() -> nat {
        4
    }

    open spec fn spec_encode(&self) -> Seq<u8> {
        seq![self.dest_addr, self.command_code, self.byte_count, self.src_addr]
    }

    open spec fn spec_decode(bytes: Seq<u8>) -> Self {
        SmbusPhysTransportHeader {
            dest_addr: bytes[0],
            command_code: bytes[1],
            byte_count: bytes[2],
            src_addr: bytes[3],
        }
    }

    fn size() -> (n: usize) {
        4
    }

    fn to_bytes(&self) -> (bytes: Vec<u8>) {
        let mut bytes: Vec<u8> = Vec::new();
        bytes.push(self.dest_addr);
        bytes.push(self.command_code);
        bytes.push(self.byte_count);
        bytes.push(self.src_addr);
        assert(bytes@ == self.spec_encode());
        bytes
    }

    fn try_from_bytes(bytes: &[u8]) -> (r: Result<Self, MctpBaseLibError>) {
        if bytes.len() < 4 {
            return Err(MctpBaseLibError::InvalidPayloadSize { expected: 4, found: bytes.len() });
        }
        Ok(
            SmbusPhysTransportHeader {
                dest_addr: bytes[0],
                command_code: bytes[1],
                byte_count: bytes[2],
                src_addr: bytes[3],
            },
        )
    }

    proof fn lemma_encode_len(&self) {
    }

    proof fn lemma_decode_prefix(bytes: Seq<u8>) {
    }

    proof fn lemma_round_trip(&self) {
    }
}

} // verus!
