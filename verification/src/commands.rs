//! Command APDUs sent by this client.

use vstd::prelude::*;

verus! {

/// GET DATA (`80 CA P1 P2 00`) for `tag_id` under the authentication
/// object `auth_id`: P1 is `(auth_id << 4) | 1` and P2 is
/// `(auth_id << 4) | tag_id`, the shift dropping the high nibble of `auth_id`.
pub open spec fn spec_get_data_command(tag_id: u8, auth_id: u8) -> Seq<u8> {
    let auth: u8 = auth_id << 4u8;
    seq![0x80u8, 0xCAu8, auth | 1u8, auth | tag_id, 0x00u8]
}

/// SELECT by file identifier (`00 A4 08 00 02 H L`), where `H L` are the low
/// two bytes of `file_id` in big-endian order.
pub open spec fn spec_select_file_command(file_id: u32) -> Seq<u8> {
    seq![
        0x00u8,
        0xA4u8,
        0x08u8,
        0x00u8,
        0x02u8,
        ((file_id / 256) % 256) as u8,
        (file_id % 256) as u8,
    ]
}

/// GET RESPONSE (`00 C0 00 00 Le`).
pub open spec fn spec_get_response_command(le: u8) -> Seq<u8> {
    seq![0x00u8, 0xC0u8, 0x00u8, 0x00u8, le]
}

/// READ BINARY (`00 B0 H L Le`) of `size` bytes at `offset`, where `H L` are
/// the low two bytes of `offset` in big-endian order and `Le` the low byte of
/// `size`.
pub open spec fn spec_read_binary_command(offset: u32, size: u32) -> Seq<u8> {
    seq![
        0x00u8,
        0xB0u8,
        ((offset / 256) % 256) as u8,
        (offset % 256) as u8,
        (size % 256) as u8,
    ]
}

/// Builds the GET DATA command (see `spec_get_data_command`).
pub fn get_data_command(tag_id: u8, auth_id: u8) -> (cmd: Vec<u8>)
    ensures
        cmd@ == spec_get_data_command(tag_id, auth_id),
{
    let auth: u8 = auth_id << 4u8;
    vec![0x80, 0xCA, auth | 1, auth | tag_id, 0]
}

/// Builds the SELECT command for `file_id` (see `spec_select_file_command`).
pub fn select_file_command(file_id: u32) -> (cmd: Vec<u8>)
    ensures
        cmd@ == spec_select_file_command(file_id),
{
    let h: u8 = ((file_id / 256) % 256) as u8;
    let l: u8 = (file_id % 256) as u8;
    vec![0x00, 0xA4, 0x08, 0x00, 0x02, h, l]
}

/// Builds the GET RESPONSE command (see `spec_get_response_command`).
pub fn get_response_command(le: u8) -> (cmd: Vec<u8>)
    ensures
        cmd@ == spec_get_response_command(le),
{
    vec![0x00, 0xC0, 0x00, 0x00, le]
}

/// Builds the READ BINARY command (see `spec_read_binary_command`).
pub fn read_binary_command(offset: u32, size: u32) -> (cmd: Vec<u8>)
    ensures
        cmd@ == spec_read_binary_command(offset, size),
{
    let h: u8 = ((offset / 256) % 256) as u8;
    let l: u8 = (offset % 256) as u8;
    let le: u8 = (size % 256) as u8;
    vec![0x00, 0xB0, h, l, le]
}

/// The two address bytes of a SELECT command give back the file identifier
/// modulo 65536, high byte first.
pub proof fn law_select_file_address(file_id: u32)
    ensures
        spec_select_file_command(file_id)[5] * 256 + spec_select_file_command(file_id)[6]
            == file_id % 65536,
{
    let c = spec_select_file_command(file_id);
    assert(c[5] == (file_id / 256) % 256);
    assert(c[6] == file_id % 256);
    assert(((file_id / 256) % 256) * 256 + file_id % 256 == file_id % 65536) by (nonlinear_arith);
}

/// The address bytes of a READ BINARY command give back an offset below
/// 65536, high byte first, and its Le is the size when that is below 256.
pub proof fn law_read_binary_address(offset: u32, size: u32)
    requires
        offset < 65536,
        size < 256,
    ensures
        spec_read_binary_command(offset, size)[2] * 256 + spec_read_binary_command(offset, size)[3]
            == offset,
        spec_read_binary_command(offset, size)[4] == size,
{
    let c = spec_read_binary_command(offset, size);
    assert(c[2] == (offset / 256) % 256);
    assert(c[3] == offset % 256);
    assert(((offset / 256) % 256) * 256 + offset % 256 == offset) by (nonlinear_arith)
        requires offset < 65536;
}

/// In a GET DATA command, P1 and P2 carry the low nibble of `auth_id` in
/// their high nibble; P1's low nibble is 1 and, for a tag below 16, P2's low
/// nibble is the tag.
pub proof fn law_get_data_parameters(tag_id: u8, auth_id: u8)
    requires
        tag_id < 16,
    ensures
        spec_get_data_command(tag_id, auth_id)[2] / 16 == auth_id % 16,
        spec_get_data_command(tag_id, auth_id)[2] % 16 == 1,
        spec_get_data_command(tag_id, auth_id)[3] / 16 == auth_id % 16,
        spec_get_data_command(tag_id, auth_id)[3] % 16 == tag_id,
{
    let auth: u8 = auth_id << 4u8;
    assert((auth_id << 4u8) | 1u8 == ((auth_id % 16) * 16 + 1) as u8) by (bit_vector);
    assert(tag_id < 16 ==> (auth_id << 4u8) | tag_id == ((auth_id % 16) * 16 + tag_id) as u8)
        by (bit_vector);
}

/// P2 of a GET DATA command keeps every bit of the tag and adds only the low
/// nibble of `auth_id`, moved to the high nibble: its low nibble is the tag's,
/// its high nibble is the tag's high nibble or-ed with `auth_id`'s low nibble.
/// P1 is `auth_id`'s low nibble in the high nibble, and 1.
pub proof fn law_get_data_p2(tag_id: u8, auth_id: u8)
    ensures
        spec_get_data_command(tag_id, auth_id).len() == 5,
        spec_get_data_command(tag_id, auth_id)[0] == 0x80,
        spec_get_data_command(tag_id, auth_id)[1] == 0xCA,
        spec_get_data_command(tag_id, auth_id)[4] == 0x00,
        spec_get_data_command(tag_id, auth_id)[2] == ((auth_id % 16) * 16 + 1) as u8,
        spec_get_data_command(tag_id, auth_id)[3] & tag_id == tag_id,
        spec_get_data_command(tag_id, auth_id)[3] & 0x0Fu8 == tag_id & 0x0Fu8,
        spec_get_data_command(tag_id, auth_id)[3] >> 4u8 == (auth_id & 0x0Fu8) | (tag_id >> 4u8),
{
    assert((auth_id << 4u8) | 1u8 == ((auth_id % 16) * 16 + 1) as u8) by (bit_vector);
    assert(((auth_id << 4u8) | tag_id) & tag_id == tag_id) by (bit_vector);
    assert(((auth_id << 4u8) | tag_id) & 0x0Fu8 == tag_id & 0x0Fu8) by (bit_vector);
    assert(((auth_id << 4u8) | tag_id) >> 4u8 == (auth_id & 0x0Fu8) | (tag_id >> 4u8))
        by (bit_vector);
}

/// The SELECT, GET RESPONSE and READ BINARY commands have their fixed header
/// bytes and length: SELECT is `00 A4 08 00 02` and two address bytes, GET
/// RESPONSE `00 C0 00 00 Le`, READ BINARY `00 B0` with two address bytes and
/// the low byte of the size.
pub proof fn law_command_headers(file_id: u32, le: u8, offset: u32, size: u32)
    ensures
        spec_select_file_command(file_id).len() == 7,
        spec_select_file_command(file_id).subrange(0, 5) == seq![0x00u8, 0xA4u8, 0x08u8, 0x00u8, 0x02u8],
        spec_get_response_command(le) == seq![0x00u8, 0xC0u8, 0x00u8, 0x00u8, le],
        spec_read_binary_command(offset, size).len() == 5,
        spec_read_binary_command(offset, size)[0] == 0x00,
        spec_read_binary_command(offset, size)[1] == 0xB0,
        spec_read_binary_command(offset, size)[4] == size % 256,
        spec_read_binary_command(offset, size)[2] * 256 + spec_read_binary_command(offset, size)[3]
            == offset % 65536,
{
    assert(spec_select_file_command(file_id).subrange(0, 5) =~= seq![0x00u8, 0xA4u8, 0x08u8, 0x00u8, 0x02u8]);
    assert(((offset / 256) % 256) * 256 + offset % 256 == offset % 65536) by (nonlinear_arith);
}

} // verus!
