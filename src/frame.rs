//! CAN 2.0 frames and their encoding into the register layout shared by
//! the transmit mailboxes and the receive FIFOs.
//!
//! Identifier register (TIxR / RIxR): standard identifier in bits 21..31,
//! extended identifier in bits 3..31, IDE in bit 2, RTR in bit 1, TXRQ in
//! bit 0. Length register (TDTxR / RDTxR): DLC in bits 0..3. Payload bytes
//! 0..3 sit in the low data register and 4..7 in the high one, byte `k`
//! of a register in bits `8k..8k+7`.
use vstd::prelude::*;
use crate::can::CanError;

verus! {

/// Identifier-extension bit of an identifier register.
pub const IDE_BIT: u32 = 0x4;

/// Remote-transmission-request bit of an identifier register.
pub const RTR_BIT: u32 = 0x2;

/// Transmit-request bit of a mailbox identifier register.
pub const TXRQ_BIT: u32 = 0x1;

/// Data-length-code field of a length register.
pub const DLC_MASK: u32 = 0xf;

/// The largest payload of a classic CAN data frame.
pub const MAX_DATA_LEN: usize = 8;

/// One more than the largest base (11-bit) identifier.
pub const BASE_ID_LIMIT: u16 = 0x800;

/// One more than the largest extended (29-bit) identifier.
pub const EXTENDED_ID_LIMIT: u32 = 0x2000_0000;

/// A frame identifier: 11-bit base or 29-bit extended.
#[derive(Clone, Copy, Debug, PartialEq, Eq, Structural)]
pub enum Identifier {
    Base(u16),
    Extended(u32),
}

impl Identifier {
    /// The identifier fits its width.
    pub open spec fn valid(self) -> bool {
        match self {
            Identifier::Base(b) => b < BASE_ID_LIMIT,
            Identifier::Extended(e) => e < EXTENDED_ID_LIMIT,
        }
    }
}

/// A CAN frame: a data frame with its payload, or a remote frame.
#[derive(Clone, Debug, PartialEq, Eq)]
pub enum CanFrame {
    DataFrame { id: Identifier, data: Vec<u8> },
    RemoteFrame { id: Identifier },
}

/// The mathematical value of a frame.
pub enum FrameModel {
    Data { id: Identifier, data: Seq<u8> },
    Remote { id: Identifier },
}

impl FrameModel {
    pub open spec fn id(self) -> Identifier {
        match self {
            FrameModel::Data { id, .. } => id,
            FrameModel::Remote { id } => id,
        }
    }

    /// A frame that the wire format can carry: its identifier fits and a
    /// data frame holds at most eight bytes.
    pub open spec fn valid(self) -> bool {
        &&& self.id().valid()
        &&& (self matches FrameModel::Data { data, .. } ==> data.len() <= MAX_DATA_LEN)
    }
}

impl View for CanFrame {
    type V = FrameModel;

    open spec fn view(&self) -> FrameModel {
        match self {
            CanFrame::DataFrame { id, data } => FrameModel::Data { id: *id, data: data@ },
            CanFrame::RemoteFrame { id } => FrameModel::Remote { id: *id },
        }
    }
}

impl CanFrame {
    /// The frame's identifier.
    pub fn id(&self) -> (r: Identifier)
        ensures
            r == self@.id(),
    {
        match self {
            CanFrame::DataFrame { id, .. } => *id,
            CanFrame::RemoteFrame { id } => *id,
        }
    }
}

/// The four registers of one transmit mailbox.
#[derive(Clone, Copy, Debug, PartialEq, Eq, Structural)]
pub struct MailboxRegs {
    /// Identifier register (TIxR).
    pub tir: u32,
    /// Length and time-stamp register (TDTxR).
    pub tdtr: u32,
    /// Low data register, bytes 0..3 (TDLxR).
    pub tdlr: u32,
    /// High data register, bytes 4..7 (TDHxR).
    pub tdhr: u32,
}

/// The identifier register bits of an identifier, with RTR and TXRQ clear.
pub open spec fn id_word(id: Identifier) -> u32 {
    match id {
        Identifier::Base(b) => (b as u32) << 21u32,
        Identifier::Extended(e) => (e << 3u32) | IDE_BIT,
    }
}

/// Byte `i` of a payload as a 32-bit lane value, 0 past its end.
pub open spec fn lane_value(data: Seq<u8>, i: int) -> u32 {
    if 0 <= i < data.len() {
        data[i] as u32
    } else {
        0
    }
}

/// Four byte lanes packed into one data register, lane 0 lowest.
pub open spec fn pack_lanes(b0: u32, b1: u32, b2: u32, b3: u32) -> u32 {
    b0 | (b1 << 8u32) | (b2 << 16u32) | (b3 << 24u32)
}

/// Byte lane `i` (0..8) of a pair of data registers.
pub open spec fn lane_byte(lo: u32, hi: u32, i: int) -> u8 {
    if i == 0 {
        (lo & 0xff) as u8
    } else if i == 1 {
        ((lo >> 8u32) & 0xff) as u8
    } else if i == 2 {
        ((lo >> 16u32) & 0xff) as u8
    } else if i == 3 {
        ((lo >> 24u32) & 0xff) as u8
    } else if i == 4 {
        (hi & 0xff) as u8
    } else if i == 5 {
        ((hi >> 8u32) & 0xff) as u8
    } else if i == 6 {
        ((hi >> 16u32) & 0xff) as u8
    } else {
        ((hi >> 24u32) & 0xff) as u8
    }
}

/// The mailbox registers that carry a frame, or `InvalidFrame` for a
/// payload longer than eight bytes. Unused byte lanes are zero.
pub open spec fn encode_spec(f: FrameModel) -> Result<MailboxRegs, CanError> {
    match f {
        FrameModel::Data { id, data } => {
            if data.len() > MAX_DATA_LEN {
                Err(CanError::InvalidFrame)
            } else {
                Ok(
                    MailboxRegs {
                        tir: id_word(id),
                        tdtr: data.len() as u32,
                        tdlr: pack_lanes(
                            lane_value(data, 0),
                            lane_value(data, 1),
                            lane_value(data, 2),
                            lane_value(data, 3),
                        ),
                        tdhr: pack_lanes(
                            lane_value(data, 4),
                            lane_value(data, 5),
                            lane_value(data, 6),
                            lane_value(data, 7),
                        ),
                    },
                )
            }
        },
        FrameModel::Remote { id } => Ok(
            MailboxRegs { tir: id_word(id) | RTR_BIT, tdtr: 0, tdlr: 0, tdhr: 0 },
        ),
    }
}

/// The identifier held in an identifier register, as selected by IDE.
pub open spec fn decode_id(ir: u32) -> Identifier {
    if ir & IDE_BIT != 0 {
        Identifier::Extended(ir >> 3u32)
    } else {
        Identifier::Base((ir >> 21u32) as u16)
    }
}

/// The frame held in an identifier register, a length register and two
/// data registers; `InvalidFrame` for a data frame whose DLC exceeds 8.
pub open spec fn decode_spec(ir: u32, dtr: u32, dlr: u32, dhr: u32) -> Result<
    FrameModel,
    CanError,
> {
    if ir & RTR_BIT != 0 {
        Ok(FrameModel::Remote { id: decode_id(ir) })
    } else if dtr & DLC_MASK > 8 {
        Err(CanError::InvalidFrame)
    } else {
        Ok(
            FrameModel::Data {
                id: decode_id(ir),
                data: Seq::new((dtr & DLC_MASK) as nat, |i: int| lane_byte(dlr, dhr, i)),
            },
        )
    }
}

/// A decoded frame seen through its view.
pub open spec fn frame_result_view(r: Result<CanFrame, CanError>) -> Result<FrameModel, CanError> {
    match r {
        Ok(f) => Ok(f@),
        Err(e) => Err(e),
    }
}

proof fn lemma_lanes(b0: u32, b1: u32, b2: u32, b3: u32)
    requires
        b0 < 256,
        b1 < 256,
        b2 < 256,
        b3 < 256,
    ensures
        pack_lanes(b0, b1, b2, b3) & 0xff == b0,
        (pack_lanes(b0, b1, b2, b3) >> 8u32) & 0xff == b1,
        (pack_lanes(b0, b1, b2, b3) >> 16u32) & 0xff == b2,
        (pack_lanes(b0, b1, b2, b3) >> 24u32) & 0xff == b3,
{
    assert(pack_lanes(b0, b1, b2, b3) & 0xff == b0 && (pack_lanes(b0, b1, b2, b3) >> 8u32)
        & 0xff == b1 && (pack_lanes(b0, b1, b2, b3) >> 16u32) & 0xff == b2 && (pack_lanes(
        b0,
        b1,
        b2,
        b3,
    ) >> 24u32) & 0xff == b3) by (bit_vector)
        requires
            b0 < 256,
            b1 < 256,
            b2 < 256,
            b3 < 256,
    ;
}

proof fn lemma_id_word(id: Identifier)
    requires
        id.valid(),
    ensures
        decode_id(id_word(id)) == id,
        decode_id(id_word(id) | RTR_BIT) == id,
        id_word(id) & RTR_BIT == 0,
        (id_word(id) | RTR_BIT) & RTR_BIT != 0,
{
    match id {
        Identifier::Base(b) => {
            let w: u32 = (b as u32) << 21u32;
            assert(w & 4 == 0 && (w | 2) & 4 == 0 && (w >> 21u32) as u16 == b && ((w | 2)
                >> 21u32) as u16 == b && w & 2 == 0 && (w | 2) & 2 != 0)
                by (bit_vector)
                requires
                    w == (b as u32) << 21u32,
                    b < 0x800,
            ;
        },
        Identifier::Extended(e) => {
            let w: u32 = (e << 3u32) | 4;
            assert(w & 4 != 0 && (w | 2) & 4 != 0 && w >> 3u32 == e && (w | 2) >> 3u32 == e && w
                & 2 == 0 && (w | 2) & 2 != 0) by (bit_vector)
                requires
                    w == (e << 3u32) | 4,
                    e < 0x2000_0000,
            ;
        },
    }
}

/// Encoding a valid frame and decoding the registers it gives yields the
/// same frame: identifier and its kind, remote/data tag, length and every
/// payload byte. The receive FIFO registers share the mailbox layout, so
/// this is what a frame looks like after crossing the bus.
pub proof fn lemma_round_trip(f: FrameModel)
    requires
        f.valid(),
    ensures
        encode_spec(f) matches Ok(m) && decode_spec(m.tir, m.tdtr, m.tdlr, m.tdhr) == Ok::<
            FrameModel,
            CanError,
        >(f),
{
    lemma_id_word(f.id());
    match f {
        FrameModel::Data { id, data } => {
            let m = encode_spec(f)->Ok_0;
            let b0: u32 = lane_value(data, 0);
            let b1: u32 = lane_value(data, 1);
            let b2: u32 = lane_value(data, 2);
            let b3: u32 = lane_value(data, 3);
            let b4: u32 = lane_value(data, 4);
            let b5: u32 = lane_value(data, 5);
            let b6: u32 = lane_value(data, 6);
            let b7: u32 = lane_value(data, 7);
            lemma_lanes(b0, b1, b2, b3);
            lemma_lanes(b4, b5, b6, b7);
            let n: u32 = data.len() as u32;
            assert(n & DLC_MASK == n) by (bit_vector)
                requires
                    n <= 8,
            ;
            let decoded = Seq::new((m.tdtr & DLC_MASK) as nat, |i: int| lane_byte(m.tdlr, m.tdhr, i));
            assert(decoded =~= data);
        },
        FrameModel::Remote { id } => {},
    }
}

/// A data frame longer than eight bytes is never encoded, and registers
/// that hold a data frame whose DLC exceeds 8 are never decoded: both give
/// `InvalidFrame`.
pub proof fn lemma_oversized_rejected(f: FrameModel, ir: u32, dtr: u32, dlr: u32, dhr: u32)
    ensures
        (f matches FrameModel::Data { data, .. } && data.len() > MAX_DATA_LEN) ==> encode_spec(f)
            == Err::<MailboxRegs, CanError>(CanError::InvalidFrame),
        (ir & RTR_BIT == 0 && dtr & DLC_MASK > 8) ==> decode_spec(ir, dtr, dlr, dhr) == Err::<
            FrameModel,
            CanError,
        >(CanError::InvalidFrame),
{
}

/// Encodes a frame into the registers of a transmit mailbox, with the
/// transmit request clear and the transmit-global-time bit clear.
/// A payload longer than eight bytes gives `InvalidFrame`. Identifier
/// bits beyond the identifier's width fall outside its register field
/// and are dropped.
pub fn encode_frame(frame: &CanFrame) -> (r: Result<MailboxRegs, CanError>)
    ensures
        r == encode_spec(frame@),
{
    match frame {
        CanFrame::DataFrame { id, data } => {
            if data.len() > MAX_DATA_LEN {
                return Err(CanError::InvalidFrame);
            }
            let tir: u32 = id_register(*id);
            let lo: u32 = pack_lanes_exec(
                byte_lane(data, 0),
                byte_lane(data, 1),
                byte_lane(data, 2),
                byte_lane(data, 3),
            );
            let hi: u32 = pack_lanes_exec(
                byte_lane(data, 4),
                byte_lane(data, 5),
                byte_lane(data, 6),
                byte_lane(data, 7),
            );
            Ok(MailboxRegs { tir, tdtr: data.len() as u32, tdlr: lo, tdhr: hi })
        },
        CanFrame::RemoteFrame { id } => {
            let tir: u32 = id_register(*id);
            Ok(MailboxRegs { tir: tir | RTR_BIT, tdtr: 0, tdlr: 0, tdhr: 0 })
        },
    }
}

fn id_register(id: Identifier) -> (r: u32)
    ensures
        r == id_word(id),
{
    match id {
        Identifier::Base(b) => (b as u32) << 21u32,
        Identifier::Extended(e) => (e << 3u32) | IDE_BIT,
    }
}

fn byte_lane(data: &Vec<u8>, i: usize) -> (r: u32)
    ensures
        r == lane_value(data@, i as int),
{
    if i < data.len() {
        data[i] as u32
    } else {
        0
    }
}

fn pack_lanes_exec(b0: u32, b1: u32, b2: u32, b3: u32) -> (r: u32)
    ensures
        r == pack_lanes(b0, b1, b2, b3),
{
    b0 | (b1 << 8u32) | (b2 << 16u32) | (b3 << 24u32)
}

fn lane_byte_exec(lo: u32, hi: u32, i: usize) -> (r: u8)
    requires
        i < 8,
    ensures
        r == lane_byte(lo, hi, i as int),
{
    let w: u32 = if i < 4 {
        lo
    } else {
        hi
    };
    let k: usize = if i < 4 {
        i
    } else {
        i - 4
    };
    if k == 0 {
        (w & 0xff) as u8
    } else if k == 1 {
        ((w >> 8u32) & 0xff) as u8
    } else if k == 2 {
        ((w >> 16u32) & 0xff) as u8
    } else {
        ((w >> 24u32) & 0xff) as u8
    }
}

/// Decodes the frame held in a receive FIFO's identifier, length and data
/// registers. A data frame whose DLC exceeds 8 gives `InvalidFrame`; the
/// DLC of a remote frame is not read.
pub fn decode_frame(ir: u32, dtr: u32, dlr: u32, dhr: u32) -> (r: Result<CanFrame, CanError>)
    ensures
        frame_result_view(r) == decode_spec(ir, dtr, dlr, dhr),
{
    let id = if ir & IDE_BIT != 0 {
        Identifier::Extended(ir >> 3u32)
    } else {
        Identifier::Base((ir >> 21u32) as u16)
    };
    if ir & RTR_BIT != 0 {
        return Ok(CanFrame::RemoteFrame { id });
    }
    let dlc: u32 = dtr & DLC_MASK;
    if dlc > 8 {
        return Err(CanError::InvalidFrame);
    }
    let n: usize = dlc as usize;
    let mut data: Vec<u8> = Vec::new();
    let mut i: usize = 0;
    while i < n
        invariant
            n <= 8,
            i <= n,
            data@.len() == i,
            forall|j: int| 0 <= j < i ==> data@[j] == lane_byte(dlr, dhr, j),
        decreases n - i,
    {
        data.push(lane_byte_exec(dlr, dhr, i));
        i += 1;
    }
    let ghost expected = Seq::new(dlc as nat, |j: int| lane_byte(dlr, dhr, j));
    assert(data@ =~= expected);
    Ok(CanFrame::DataFrame { id, data })
}

} // verus!
