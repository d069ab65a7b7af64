//! The wire commands: how each is laid out in a transaction buffer, and how the
//! bytes clocked back during it are read.
use vstd::prelude::*;

use crate::registers::Status;

verus! {

/// Opcode prefix of a register read.
pub const R_REGISTER: u8 = 0x00;
/// Opcode prefix of a register write.
pub const W_REGISTER: u8 = 0x20;
/// Opcode of "read the width of the head of the RX FIFO".
pub const R_RX_PL_WID: u8 = 0x60;
/// Opcode of "read the head of the RX FIFO".
pub const R_RX_PAYLOAD: u8 = 0x61;
/// Opcode of "write a packet into the TX FIFO".
pub const W_TX_PAYLOAD: u8 = 0xA0;
/// Opcode of "flush the TX FIFO".
pub const FLUSH_TX: u8 = 0xE1;
/// Opcode of "flush the RX FIFO".
pub const FLUSH_RX: u8 = 0xE2;

/// Largest number of bytes that a command writes after its opcode.
pub const MAX_PAYLOAD: usize = 32;

/// `n` zero bytes: the placeholders that clock in a response.
pub open spec fn zeros(n: nat) -> Seq<u8> {
    Seq::new(n, |_i: int| 0u8)
}

/// Transaction that reads `width` bytes of the register at `addr`.
pub open spec fn read_frame(addr: u8, width: nat) -> Seq<u8> {
    seq![R_REGISTER | addr].add(zeros(width))
}

/// Transaction that writes `data` into the register at `addr`.
pub open spec fn write_frame(addr: u8, data: Seq<u8>) -> Seq<u8> {
    seq![W_REGISTER | addr].add(data)
}

/// Transaction that puts `data` into the TX FIFO.
pub open spec fn tx_payload_frame(data: Seq<u8>) -> Seq<u8> {
    seq![W_TX_PAYLOAD].add(data)
}

/// Status byte of a reply (the first byte clocked back).
pub open spec fn reply_status(reply: Seq<u8>) -> u8 {
    if reply.len() > 0 {
        reply[0]
    } else {
        0
    }
}

/// Byte `i` of the response carried by a reply: the byte after the status.
/// A reply shorter than its transaction reads as zeros past its end.
pub open spec fn reply_byte(reply: Seq<u8>, i: int) -> u8 {
    if 0 <= i && i + 1 < reply.len() {
        reply[i + 1]
    } else {
        0
    }
}

/// The first `n` response bytes of a reply.
pub open spec fn reply_bytes(reply: Seq<u8>, n: nat) -> Seq<u8> {
    Seq::new(n, |i: int| reply_byte(reply, i))
}

/// One wire command.
#[derive(Clone, Debug, PartialEq, Eq)]
pub enum Command {
    /// Read `width` bytes of the register at `addr`.
    ReadRegister { addr: u8, width: usize },
    /// Write `data` into the register at `addr`.
    WriteRegister { addr: u8, data: Vec<u8> },
    /// Read the width of the packet at the head of the RX FIFO.
    ReadRxPayloadWidth,
    /// Read the packet at the head of the RX FIFO, `width` bytes long.
    ReadRxPayload { width: usize },
    /// Put a packet into the TX FIFO.
    WriteTxPayload { data: Vec<u8> },
    /// Discard the TX FIFO.
    FlushTx,
    /// Discard the RX FIFO.
    FlushRx,
}

impl Command {
    /// Register addresses have five bits; what is written is at most 32 bytes;
    /// a payload read asks for at most 255 bytes (the width register is one byte).
    pub open spec fn valid(&self) -> bool {
        match self {
            Command::ReadRegister { addr, width } => *addr < 32 && *width <= MAX_PAYLOAD,
            Command::WriteRegister { addr, data } => *addr < 32 && data@.len() <= MAX_PAYLOAD,
            Command::ReadRxPayload { width } => *width <= 255,
            Command::WriteTxPayload { data } => data@.len() <= MAX_PAYLOAD,
            _ => true,
        }
    }

    /// First byte of the transaction.
    pub open spec fn opcode(&self) -> u8 {
        match self {
            Command::ReadRegister { addr, .. } => R_REGISTER | *addr,
            Command::WriteRegister { addr, .. } => W_REGISTER | *addr,
            Command::ReadRxPayloadWidth => R_RX_PL_WID,
            Command::ReadRxPayload { .. } => R_RX_PAYLOAD,
            Command::WriteTxPayload { .. } => W_TX_PAYLOAD,
            Command::FlushTx => FLUSH_TX,
            Command::FlushRx => FLUSH_RX,
        }
    }

    /// Bytes that follow the opcode: the data written, or zero placeholders
    /// for a response.
    pub open spec fn payload(&self) -> Seq<u8> {
        match self {
            Command::ReadRegister { width, .. } => zeros(*width as nat),
            Command::WriteRegister { data, .. } => data@,
            Command::ReadRxPayloadWidth => zeros(1),
            Command::ReadRxPayload { width } => zeros(*width as nat),
            Command::WriteTxPayload { data } => data@,
            _ => seq![],
        }
    }

    /// Number of response bytes after the status byte.
    pub open spec fn response_len(&self) -> nat {
        match self {
            Command::ReadRegister { width, .. } => *width as nat,
            Command::ReadRxPayloadWidth => 1,
            Command::ReadRxPayload { width } => *width as nat,
            _ => 0,
        }
    }

    /// The whole transaction buffer.
    pub open spec fn frame(&self) -> Seq<u8> {
        seq![self.opcode()].add(self.payload())
    }

    /// Serialises the command into its transaction buffer.
    pub fn encode(&self) -> (r: Vec<u8>)
        requires
            self.valid(),
        ensures
            r@ == self.frame(),
    {
        let mut r: Vec<u8> = Vec::new();
        let zero_fill: usize;
        match self {
            Command::ReadRegister { addr, width } => {
                r.push(R_REGISTER | *addr);
                zero_fill = *width;
            },
            Command::WriteRegister { addr, data } => {
                r.push(W_REGISTER | *addr);
                let mut i: usize = 0;
                while i < data.len()
                    invariant
                        i <= data@.len(),
                        r@ == seq![W_REGISTER | *addr].add(data@.subrange(0, i as int)),
                    decreases data@.len() - i,
                {
                    r.push(data[i]);
                    i = i + 1;
                    assert(r@ =~= seq![W_REGISTER | *addr].add(data@.subrange(0, i as int)));
                }
                assert(data@.subrange(0, data@.len() as int) =~= data@);
                zero_fill = 0;
            },
            Command::ReadRxPayloadWidth => {
                r.push(R_RX_PL_WID);
                zero_fill = 1;
            },
            Command::ReadRxPayload { width } => {
                r.push(R_RX_PAYLOAD);
                zero_fill = *width;
            },
            Command::WriteTxPayload { data } => {
                r.push(W_TX_PAYLOAD);
                let mut i: usize = 0;
                while i < data.len()
                    invariant
                        i <= data@.len(),
                        r@ == seq![W_TX_PAYLOAD].add(data@.subrange(0, i as int)),
                    decreases data@.len() - i,
                {
                    r.push(data[i]);
                    i = i + 1;
                    assert(r@ =~= seq![W_TX_PAYLOAD].add(data@.subrange(0, i as int)));
                }
                assert(data@.subrange(0, data@.len() as int) =~= data@);
                zero_fill = 0;
            },
            Command::FlushTx => {
                r.push(FLUSH_TX);
                zero_fill = 0;
            },
            Command::FlushRx => {
                r.push(FLUSH_RX);
                zero_fill = 0;
            },
        }
        let ghost head = r@;
        let mut k: usize = 0;
        while k < zero_fill
            invariant
                k <= zero_fill,
                r@ == head.add(zeros(k as nat)),
            decreases zero_fill - k,
        {
            r.push(0u8);
            k = k + 1;
            assert(r@ =~= head.add(zeros(k as nat)));
        }
        assert(r@ =~= self.frame());
        r
    }

    /// Reads the status byte and the command's response out of the bytes that
    /// were clocked back during its transaction.
    pub fn decode_response(&self, reply: &[u8]) -> (r: (Status, Vec<u8>))
        requires
            self.valid(),
        ensures
            r.0.0 == reply_status(reply@),
            r.1@ == reply_bytes(reply@, self.response_len()),
    {
        let status = if reply.len() > 0 {
            Status(reply[0])
        } else {
            Status(0)
        };
        let n: usize = match self {
            Command::ReadRegister { width, .. } => *width,
            Command::ReadRxPayloadWidth => 1,
            Command::ReadRxPayload { width } => *width,
            _ => 0,
        };
        let mut bytes: Vec<u8> = Vec::new();
        let mut i: usize = 0;
        while i < n
            invariant
                i <= n,
                n == self.response_len(),
                n <= 255,
                bytes@ == reply_bytes(reply@, i as nat),
            decreases n - i,
        {
            let b = if i + 1 < reply.len() {
                reply[i + 1]
            } else {
                0u8
            };
            bytes.push(b);
            i = i + 1;
            assert(bytes@ =~= reply_bytes(reply@, i as nat));
        }
        (status, bytes)
    }
}

/// A transport that hands back the very bytes it was given returns, for every
/// command, its opcode as the status byte, and a response of exactly the length
/// of the command's table entry, clocked in by as many placeholders.
pub proof fn lemma_loopback(c: Command)
    requires
        c.valid(),
    ensures
        c.frame().len() == 1 + c.payload().len(),
        c.frame()[0] == c.opcode(),
        reply_status(c.frame()) == c.opcode(),
        c.response_len() <= c.payload().len(),
        reply_bytes(c.frame(), c.response_len()).len() == c.response_len(),
        c.response_len() > 0 ==> reply_bytes(c.frame(), c.response_len()) == zeros(
            c.response_len(),
        ),
        c.frame().subrange(1, c.frame().len() as int) == c.payload(),
{
    let f = c.frame();
    assert(f.subrange(1, f.len() as int) =~= c.payload());
    if c.response_len() > 0 {
        assert(reply_bytes(f, c.response_len()) =~= zeros(c.response_len()));
    }
}

} // verus!
