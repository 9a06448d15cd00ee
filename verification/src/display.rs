//! Display-controller command layer.
//!
//! Built entirely on the bus transaction model: every operation plans one
//! complete transaction (start, address byte, prefix and payload bytes,
//! stop). Command bytes are each preceded by the command-prefix byte, per the
//! controller's one-byte framing rule; raw data is preceded by the single
//! data-prefix byte. How the controller turns data bytes into pixels is out
//! of scope: this layer is a byte sink with an exact framing contract.

use vstd::prelude::*;

use crate::bus;
use crate::bus::BusStep;
use crate::digits;

verus! {

/// Control byte announcing a command byte.
pub const CMD_PREFIX: u8 = 0x00;

/// Control byte announcing a stream of raw display data.
pub const DATA_PREFIX: u8 = 0x40;

/// Command: set the column-address window.
pub const CMD_SET_COLUMN_ADDR: u8 = 0x21;

/// Command: set the page-address window.
pub const CMD_SET_PAGE_ADDR: u8 = 0x22;

/// Highest column of the display; addressing windows always end here.
pub const MAX_COLUMN: u8 = 127;

/// Highest page of the display; addressing windows always end here.
pub const MAX_PAGE: u8 = 7;

/// The fixed controller setup commands, in the order they are sent:
/// display off, multiplex ratio, display offset, start line, segment re-map,
/// COM scan direction, COM pin configuration, contrast, resume from
/// "all pixels on", normal polarity, oscillator frequency, charge-pump
/// enable, display on.
pub open spec fn spec_init_commands() -> Seq<u8> {
    seq![
        0xAEu8,
        0xA8,
        0x3F,
        0xD3,
        0x00,
        0x40,
        0xA1,
        0xC8,
        0xDA,
        0x12,
        0x81,
        0xCF,
        0xA4,
        0xA6,
        0xD5,
        0x80,
        0x8D,
        0x14,
        0xAF,
    ]
}

/// Each command byte preceded by the command-prefix byte.
pub open spec fn spec_command_framing(cmds: Seq<u8>) -> Seq<u8>
    decreases cmds.len(),
{
    if cmds.len() == 0 {
        Seq::<u8>::empty()
    } else {
        seq![CMD_PREFIX, cmds[0]] + spec_command_framing(cmds.drop_first())
    }
}

proof fn lemma_command_framing_push(cmds: Seq<u8>, c: u8)
    ensures
        spec_command_framing(cmds.push(c)) == spec_command_framing(cmds) + seq![CMD_PREFIX, c],
    decreases cmds.len(),
{
    if cmds.len() == 0 {
        assert(cmds.push(c).drop_first() =~= Seq::<u8>::empty());
        assert(spec_command_framing(cmds.push(c)) =~= spec_command_framing(cmds)
            + seq![CMD_PREFIX, c]);
    } else {
        assert(cmds.push(c).drop_first() =~= cmds.drop_first().push(c));
        lemma_command_framing_push(cmds.drop_first(), c);
        assert(spec_command_framing(cmds.push(c)) == seq![CMD_PREFIX, cmds.push(c)[0]]
            + spec_command_framing(cmds.push(c).drop_first()));
        assert(cmds.push(c)[0] == cmds[0]);
        assert(spec_command_framing(cmds.push(c).drop_first()) == spec_command_framing(
            cmds.drop_first(),
        ) + seq![CMD_PREFIX, c]);
        assert(spec_command_framing(cmds.push(c)) =~= spec_command_framing(cmds)
            + seq![CMD_PREFIX, c]);
    }
}

/// Payload of the initialization transaction.
pub open spec fn spec_init_payload() -> Seq<u8> {
    spec_command_framing(spec_init_commands())
}

/// Full step plan of the initialization transaction.
pub open spec fn spec_init_plan() -> Seq<BusStep> {
    bus::spec_frame(spec_init_payload())
}

/// Payload of a cursor-positioning transaction: two addressing commands,
/// each moving only the start of its window — the column window `[col, 127]`
/// and the page window `[page, 7]`.
pub open spec fn spec_position_payload(col: u8, page: u8) -> Seq<u8> {
    seq![
        CMD_PREFIX,
        CMD_SET_COLUMN_ADDR,
        col,
        MAX_COLUMN,
        CMD_PREFIX,
        CMD_SET_PAGE_ADDR,
        page,
        MAX_PAGE,
    ]
}

/// Full step plan of a cursor-positioning transaction.
pub open spec fn spec_position_plan(col: u8, page: u8) -> Seq<BusStep> {
    bus::spec_frame(spec_position_payload(col, page))
}

/// Full step plan of a raw-data transaction: the data prefix, then the bytes.
pub open spec fn spec_data_plan(bytes: Seq<u8>) -> Seq<BusStep> {
    bus::spec_frame(seq![DATA_PREFIX] + bytes)
}

/// Full step plan of a decimal-number transaction.
pub open spec fn spec_number_plan(n: nat) -> Seq<BusStep> {
    spec_data_plan(digits::spec_decimal(n))
}

/// Interleave the command prefix before each command byte.
fn command_payload(cmds: &Vec<u8>) -> (r: Vec<u8>)
    ensures
        r@ == spec_command_framing(cmds@),
{
    let mut r: Vec<u8> = Vec::new();
    let mut i: usize = 0;
    while i < cmds.len()
        invariant
            i <= cmds.len(),
            r@ == spec_command_framing(cmds@.subrange(0, i as int)),
        decreases cmds.len() - i,
    {
        proof {
            assert(cmds@.subrange(0, i + 1) =~= cmds@.subrange(0, i as int).push(cmds@[i as int]));
            lemma_command_framing_push(cmds@.subrange(0, i as int), cmds@[i as int]);
        }
        r.push(CMD_PREFIX);
        r.push(cmds[i]);
        proof {
            assert(r@ =~= spec_command_framing(cmds@.subrange(0, i + 1)));
        }
        i = i + 1;
    }
    proof {
        assert(cmds@.subrange(0, cmds@.len() as int) =~= cmds@);
    }
    r
}

/// Plan the controller initialization: the fixed setup command sequence,
/// each command framed with the command prefix, in one transaction.
pub fn init_plan() -> (r: Vec<BusStep>)
    ensures
        r@ == spec_init_plan(),
        bus::addressed(r@),
        bus::well_framed(r@),
{
    let mut cmds: Vec<u8> = Vec::new();
    cmds.push(0xAE);
    cmds.push(0xA8);
    cmds.push(0x3F);
    cmds.push(0xD3);
    cmds.push(0x00);
    cmds.push(0x40);
    cmds.push(0xA1);
    cmds.push(0xC8);
    cmds.push(0xDA);
    cmds.push(0x12);
    cmds.push(0x81);
    cmds.push(0xCF);
    cmds.push(0xA4);
    cmds.push(0xA6);
    cmds.push(0xD5);
    cmds.push(0x80);
    cmds.push(0x8D);
    cmds.push(0x14);
    cmds.push(0xAF);
    proof {
        assert(cmds@ =~= spec_init_commands());
    }
    let payload = command_payload(&cmds);
    proof {
        bus::lemma_frame_addressed(payload@);
    }
    bus::frame(&payload)
}

/// Plan a cursor move to `col`, `page`: one transaction carrying the two
/// addressing commands.
pub fn set_position_plan(col: u8, page: u8) -> (r: Vec<BusStep>)
    requires
        col <= MAX_COLUMN,
        page <= MAX_PAGE,
    ensures
        r@ == spec_position_plan(col, page),
        bus::addressed(r@),
        bus::well_framed(r@),
{
    let mut payload: Vec<u8> = Vec::new();
    payload.push(CMD_PREFIX);
    payload.push(CMD_SET_COLUMN_ADDR);
    payload.push(col);
    payload.push(MAX_COLUMN);
    payload.push(CMD_PREFIX);
    payload.push(CMD_SET_PAGE_ADDR);
    payload.push(page);
    payload.push(MAX_PAGE);
    proof {
        assert(payload@ =~= spec_position_payload(col, page));
        bus::lemma_frame_addressed(payload@);
    }
    bus::frame(&payload)
}

/// Plan a raw byte stream to display memory: one transaction carrying the
/// data prefix and the bytes unchanged.
pub fn write_bytes_plan(bytes: &Vec<u8>) -> (r: Vec<BusStep>)
    ensures
        r@ == spec_data_plan(bytes@),
        bus::addressed(r@),
        bus::well_framed(r@),
{
    let mut payload: Vec<u8> = Vec::new();
    payload.push(DATA_PREFIX);
    let mut i: usize = 0;
    while i < bytes.len()
        invariant
            i <= bytes.len(),
            payload@ == seq![DATA_PREFIX] + bytes@.subrange(0, i as int),
        decreases bytes.len() - i,
    {
        payload.push(bytes[i]);
        proof {
            assert(payload@ =~= seq![DATA_PREFIX] + bytes@.subrange(0, i + 1));
        }
        i = i + 1;
    }
    proof {
        assert(payload@ =~= seq![DATA_PREFIX] + bytes@);
        bus::lemma_frame_addressed(payload@);
    }
    bus::frame(&payload)
}

/// Plan the decimal rendering of `n`: its digit stream sent as raw data.
pub fn write_number_plan(n: u32) -> (r: Vec<BusStep>)
    ensures
        r@ == spec_number_plan(n as nat),
        bus::addressed(r@),
        bus::well_framed(r@),
{
    let ds = digits::format_number(n);
    write_bytes_plan(&ds)
}

} // verus!
