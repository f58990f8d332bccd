//! The card of this client: its connection handles, its identifiers and the
//! status-word helpers. Opening the connection and talking to the card are
//! the caller's part; `Card` and `Ctx` are the types of its handles.
#![allow(non_snake_case)]

use vstd::prelude::*;

use crate::status::{get_SW, get_SW1, get_SW2, spec_sw, spec_sw1, spec_sw2};

verus! {

/// A connected card and the context that it was connected in.
pub struct MyCard<Card, Ctx> {
    pub my_card: Card,
    pub my_ctx: Ctx,
}

impl<Card, Ctx> MyCard<Card, Ctx> {
    pub const TAG_ID_CARD_NUMBER: u8 = 1;
    pub const TAG_ID_CERTIFICATE_SERIAL_NUMBER: u8 = 2;
    pub const TAG_ID_KEY_KCV: u8 = 0xC0;
    pub const TAG_ID_KEY_COUNTER: u8 = 0xC1;

    pub const TAG_ID_DOK_STATE: u8 = 0x8B;
    pub const TAG_ID_DOK_TRY_LIMIT: u8 = 0x8C;
    pub const TAG_ID_DOK_MAX_TRY_LIMIT: u8 = 0x8D;

    pub const TAG_ID_IOK_STATE: u8 = 0x82;
    pub const TAG_ID_IOK_TRY_LIMIT: u8 = 0x83;
    pub const TAG_ID_IOK_MAX_TRY_LIMIT: u8 = 0x84;

    pub const APP_ID_CARD_MANAGEMENT: [u8; 9] = [0xD2, 0x03, 0x10, 0x01, 0x00, 0x01, 0x00, 0x02, 0x02];
    pub const APP_ID_FILE_MANAGEMENT: [u8; 10] = [
        0xD2,
        0x03,
        0x10,
        0x01,
        0x00,
        0x01,
        0x03,
        0x02,
        0x01,
        0x00,
    ];

    pub const FILE_ID_CERTIFICATE_AUTHORIZATION: u32 = 0x0132;
    pub const FILE_ID_CERTIFICATE_IDENTIFICATION: u32 = 0x0001;

    /// The status word pair of `buffer`, as `get_SW` gives it.
    pub fn get_SW(&self, buffer: &Vec<u8>) -> (sw: Vec<u8>)
        ensures
            sw@ == spec_sw(buffer@),
    {
        get_SW(buffer)
    }

    /// SW1 of `buffer`, as `get_SW1` gives it.
    pub fn get_SW1(&self, buffer: &Vec<u8>) -> (sw1: u8)
        ensures
            sw1 == spec_sw1(buffer@),
    {
        get_SW1(buffer)
    }

    /// SW2 of `buffer`, as `get_SW2` gives it.
    pub fn get_SW2(&self, buffer: &Vec<u8>) -> (sw2: u8)
        ensures
            sw2 == spec_sw2(buffer@),
    {
        get_SW2(buffer)
    }

    /// Sending a command through this type; it does nothing yet.
    pub fn transmit(command: Vec<u8>) {
    }

    /// Wrapping command data in a command; it does nothing yet.
    pub fn create_command(command_data: Vec<u8>) {
    }

    /// The request command; not built yet: it is `[00]`.
    pub fn get_request_command() -> (cmd: Vec<u8>)
        ensures
            cmd@ == seq![0x00u8],
    {
        let cmd: Vec<u8> = vec![0x00];
        assert(cmd@ =~= seq![0x00u8]);
        cmd
    }

    /// The card's answer to reset; not read yet: it is `[00]`.
    pub fn get_ATR() -> (atr: Vec<u8>)
        ensures
            atr@ == seq![0x00u8],
    {
        let atr: Vec<u8> = vec![0x00];
        assert(atr@ =~= seq![0x00u8]);
        atr
    }

    /// A second GET DATA; not done yet: it is `[00]`, whatever the tag and
    /// authentication object.
    pub fn getData02(&self, tag_id: u8, auth_id: u8) -> (data: Vec<u8>)
        ensures
            data@ == seq![0x00u8],
    {
        let data: Vec<u8> = vec![0x00];
        assert(data@ =~= seq![0x00u8]);
        data
    }
}

} // verus!
