//! Card applications and the placeholder requests of the client.

use vstd::prelude::*;

verus! {

/// A card application, known by its application identifier.
pub struct Application {
    app_id: Vec<u8>,
}

impl Application {
    /// CLA, INS and P1 of the SELECT command for an application.
    pub const CMD_SELECT_APP_PREFIX: [u8; 3] = [0x00, 0xA4, 0x0C];

    /// The application with identifier `app_id`.
    pub fn new(app_id: Vec<u8>) -> (app: Application)
        ensures
            app.id() == app_id@,
    {
        Application { app_id }
    }

    /// The application identifier.
    pub closed spec fn id(&self) -> Seq<u8> {
        self.app_id@
    }

    /// The SELECT command for an application; not built yet: it is `[00]`.
    pub fn construct_select_app_cmd() -> (cmd: Vec<u8>)
        ensures
            cmd@ == seq![0x00u8],
    {
        let cmd: Vec<u8> = vec![0x00];
        assert(cmd@ =~= seq![0x00u8]);
        cmd
    }
}

/// The command that selects applet `app_id`; not built yet: it is `[00]`.
pub fn select_applet(app_id: Vec<u8>) -> (cmd: Vec<u8>)
    ensures
        cmd@ == seq![0x00u8],
{
    let cmd: Vec<u8> = vec![0x00];
    assert(cmd@ =~= seq![0x00u8]);
    cmd
}

/// The card number read from `card`; not read yet: it is `[00]`, and the card
/// is not used.
pub fn get_card_number<C>(card: C) -> (number: Vec<u8>)
    ensures
        number@ == seq![0x00u8],
{
    let number: Vec<u8> = vec![0x00];
    assert(number@ =~= seq![0x00u8]);
    number
}

/// The serial number; not read yet: it is `[AA]`.
pub fn get_serial_number() -> (serial: Vec<u8>)
    ensures
        serial@ == seq![0xAAu8],
{
    let serial: Vec<u8> = vec![0xAA];
    assert(serial@ =~= seq![0xAAu8]);
    serial
}

/// Selecting an application; it does nothing yet.
pub fn select_application() {
}

} // verus!
