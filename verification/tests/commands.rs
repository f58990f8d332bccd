use smartcard::application::{
    get_card_number, get_serial_number, select_applet, select_application, Application,
};
use smartcard::commands::{
    get_data_command, get_response_command, read_binary_command, select_file_command,
};

#[test]
fn get_data_command_bytes() {
    assert_eq!(get_data_command(1, 0), vec![0x80, 0xCA, 0x01, 0x01, 0x00]);
    assert_eq!(get_data_command(0x02, 0x03), vec![0x80, 0xCA, 0x31, 0x32, 0x00]);
    // The high nibble of auth_id is shifted out.
    assert_eq!(get_data_command(0x04, 0x15), vec![0x80, 0xCA, 0x51, 0x54, 0x00]);
    // A tag above 15 is or-ed into P2 as it is.
    assert_eq!(get_data_command(0xC1, 0x01), vec![0x80, 0xCA, 0x11, 0xD1, 0x00]);
}

#[test]
fn select_file_command_bytes() {
    assert_eq!(select_file_command(0x0132), vec![0x00, 0xA4, 0x08, 0x00, 0x02, 0x01, 0x32]);
    assert_eq!(select_file_command(0x0001), vec![0x00, 0xA4, 0x08, 0x00, 0x02, 0x00, 0x01]);
    // Only the low two bytes of the identifier are sent.
    assert_eq!(select_file_command(0x0012_3456), vec![0x00, 0xA4, 0x08, 0x00, 0x02, 0x34, 0x56]);
}

#[test]
fn select_file_address_roundtrip() {
    for id in [0u32, 1, 0x132, 0xFFFF, 0x1_0000, 0xDEAD_BEEF] {
        let c = select_file_command(id);
        assert_eq!((c[5] as u32) * 256 + c[6] as u32, id % 65536);
    }
}

#[test]
fn read_binary_and_get_response_bytes() {
    assert_eq!(read_binary_command(0, 0xD0), vec![0x00, 0xB0, 0x00, 0x00, 0xD0]);
    assert_eq!(read_binary_command(0x01A0, 0x30), vec![0x00, 0xB0, 0x01, 0xA0, 0x30]);
    assert_eq!(get_response_command(0x1C), vec![0x00, 0xC0, 0x00, 0x00, 0x1C]);
    for off in [0u32, 0xD0, 0x1A0, 0xFFFF] {
        let c = read_binary_command(off, 7);
        assert_eq!((c[2] as u32) * 256 + c[3] as u32, off);
        assert_eq!(c[4], 7);
    }
}

#[test]
fn get_data_parameter_nibbles() {
    for auth in 0u8..=255 {
        for tag in 0u8..16 {
            let c = get_data_command(tag, auth);
            assert_eq!(c[2] / 16, auth % 16);
            assert_eq!(c[2] % 16, 1);
            assert_eq!(c[3] / 16, auth % 16);
            assert_eq!(c[3] % 16, tag);
        }
    }
}

#[test]
fn application_placeholders() {
    assert_eq!(Application::CMD_SELECT_APP_PREFIX, [0x00, 0xA4, 0x0C]);
    assert_eq!(Application::construct_select_app_cmd(), vec![0x00]);
    let _app = Application::new(vec![0xD2, 0x03]);
    assert_eq!(select_applet(vec![1, 2, 3]), vec![0x00]);
    assert_eq!(get_card_number("any card"), vec![0x00]);
    assert_eq!(get_serial_number(), vec![0xAA]);
    select_application();
}
