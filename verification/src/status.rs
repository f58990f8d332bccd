//! Status words (SW1, SW2) of response APDUs.
#![allow(non_snake_case)]

use vstd::prelude::*;

verus! {

/// SW1 of a response: the byte before the last one, or 0 when the response
/// has fewer than two bytes.
pub open spec fn spec_sw1(buffer: Seq<u8>) -> u8 {
    if buffer.len() > 1 {
        buffer[buffer.len() - 2]
    } else {
        0
    }
}

/// SW2 of a response: its last byte, or 0 when the response is empty.
pub open spec fn spec_sw2(buffer: Seq<u8>) -> u8 {
    if buffer.len() > 0 {
        buffer[buffer.len() - 1]
    } else {
        0
    }
}

/// The status word pair of a response. Only a response of more than two bytes
/// (data and status) counts; any shorter buffer yields `[0, 0]`.
pub open spec fn spec_sw(buffer: Seq<u8>) -> Seq<u8> {
    if buffer.len() > 2 {
        seq![buffer[buffer.len() - 2], buffer[buffer.len() - 1]]
    } else {
        seq![0u8, 0u8]
    }
}

/// The response reports success: its status word is `90 00`.
pub open spec fn spec_sw_ok(buffer: Seq<u8>) -> bool {
    spec_sw(buffer) == seq![0x90u8, 0x00u8]
}

/// Returns the status word pair of `buffer` (see `spec_sw`).
pub fn get_SW(buffer: &Vec<u8>) -> (sw: Vec<u8>)
    ensures
        sw@ == spec_sw(buffer@),
{
    if buffer.len() > 2 {
        vec![get_SW1(buffer), get_SW2(buffer)]
    } else {
        vec![0x00, 0x00]
    }
}

/// Returns SW1 of `buffer` (see `spec_sw1`).
pub fn get_SW1(buffer: &Vec<u8>) -> (sw1: u8)
    ensures
        sw1 == spec_sw1(buffer@),
{
    if buffer.len() > 1 {
        buffer[buffer.len() - 2]
    } else {
        0
    }
}

/// Returns SW2 of `buffer` (see `spec_sw2`).
pub fn get_SW2(buffer: &Vec<u8>) -> (sw2: u8)
    ensures
        sw2 == spec_sw2(buffer@),
{
    if buffer.len() > 0 {
        buffer[buffer.len() - 1]
    } else {
        0
    }
}

/// Whether `get_SW(buffer)` is `[0x90, 0x00]`.
pub fn sw_is_ok(buffer: &Vec<u8>) -> (ok: bool)
    ensures
        ok == spec_sw_ok(buffer@),
{
    let sw = get_SW(buffer);
    let ok = sw[0] == 0x90 && sw[1] == 0x00;
    assert(ok == (sw@ =~= seq![0x90u8, 0x00u8]));
    ok
}

/// The pair that `get_SW` reports for a response of more than two bytes is
/// exactly (`get_SW1`, `get_SW2`) of it; for a shorter buffer it is `[0, 0]`
/// whatever `get_SW1` and `get_SW2` say.
pub proof fn law_sw_pair(buffer: Seq<u8>)
    ensures
        buffer.len() > 2 ==> spec_sw(buffer) == seq![spec_sw1(buffer), spec_sw2(buffer)],
        buffer.len() <= 2 ==> spec_sw(buffer) == seq![0u8, 0u8],
        spec_sw_ok(buffer) ==> buffer.len() > 2 && spec_sw1(buffer) == 0x90 && spec_sw2(buffer) == 0x00,
{
    if spec_sw_ok(buffer) {
        assert(spec_sw(buffer)[0] == 0x90u8);
        if buffer.len() <= 2 {
            assert(spec_sw(buffer)[0] == 0u8);
        }
    }
}

/// Success is exactly a buffer of more than two bytes ending in `90 00`; SW1
/// and SW2 are the bytes at `len - 2` and `len - 1` of a buffer long enough.
pub proof fn law_sw_bytes(buffer: Seq<u8>)
    ensures
        spec_sw_ok(buffer) <==> (buffer.len() > 2 && buffer[buffer.len() - 2] == 0x90
            && buffer[buffer.len() - 1] == 0x00),
        buffer.len() >= 2 ==> spec_sw1(buffer) == buffer[buffer.len() - 2],
        buffer.len() < 2 ==> spec_sw1(buffer) == 0,
        buffer.len() >= 1 ==> spec_sw2(buffer) == buffer[buffer.len() - 1],
        buffer.len() == 0 ==> spec_sw2(buffer) == 0,
{
    if spec_sw_ok(buffer) {
        assert(spec_sw(buffer)[0] == 0x90u8);
        assert(spec_sw(buffer)[1] == 0x00u8);
        if buffer.len() <= 2 {
            assert(spec_sw(buffer)[0] == 0u8);
        }
    }
    if buffer.len() > 2 && buffer[buffer.len() - 2] == 0x90 && buffer[buffer.len() - 1] == 0x00 {
        assert(spec_sw(buffer) =~= seq![0x90u8, 0x00u8]);
    }
}

} // verus!
