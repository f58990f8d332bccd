//! The GET DATA exchange: one GET DATA command, and one retry with the
//! length that the card asks for when it answers `6C xx`.

use vstd::prelude::*;

use crate::commands::{get_data_command, spec_get_data_command};
use crate::exchange::{copy_bytes, CardStep, StepView};
use crate::status::{get_SW1, get_SW2, law_sw_bytes, spec_sw1, spec_sw2, spec_sw_ok, sw_is_ok};

verus! {

/// State of a GET DATA exchange.
pub struct GetDataExchange {
    request: Vec<u8>,
    retried: bool,
    finished: bool,
}

/// The state of a GET DATA exchange as values: the last command sent,
/// whether it was the retry, and whether the exchange is over.
pub struct GetDataState {
    pub request: Seq<u8>,
    pub retried: bool,
    pub finished: bool,
}

impl View for GetDataExchange {
    type V = GetDataState;

    closed spec fn view(&self) -> GetDataState {
        GetDataState { request: self.request@, retried: self.retried, finished: self.finished }
    }
}

impl GetDataState {
    /// The command held is a five-byte APDU.
    pub open spec fn wf(self) -> bool {
        self.request.len() == 5
    }
}

/// The start of the exchange: send the GET DATA command.
pub open spec fn spec_get_data_start(tag_id: u8, auth_id: u8) -> (GetDataState, StepView) {
    let cmd = spec_get_data_command(tag_id, auth_id);
    (GetDataState { request: cmd, retried: false, finished: false }, StepView::Transmit(cmd))
}

/// The card asked for the command again with the right Le: not success, and
/// SW1 is `6C`.
pub open spec fn spec_wrong_length(response: Seq<u8>) -> bool {
    !spec_sw_ok(response) && spec_sw1(response) == 0x6C
}

/// One step of the exchange on the card's `response` to the last command.
/// On a first answer `6C xx` that is not success, the command is sent again
/// with its Le set to `xx`; otherwise the response is the result.
pub open spec fn spec_get_data_step(state: GetDataState, response: Seq<u8>) -> (
    GetDataState,
    StepView,
) {
    if !state.retried && spec_wrong_length(response) {
        let retry = state.request.update(4, spec_sw2(response));
        (GetDataState { request: retry, retried: true, finished: false }, StepView::Transmit(retry))
    } else {
        (
            GetDataState { request: state.request, retried: state.retried, finished: true },
            StepView::Finish(response),
        )
    }
}

impl GetDataExchange {
    /// Starts the GET DATA exchange for `tag_id` under `auth_id`.
    pub fn start(tag_id: u8, auth_id: u8) -> (r: (GetDataExchange, CardStep))
        ensures
            (r.0@, r.1@) == spec_get_data_start(tag_id, auth_id),
            r.0@.wf(),
    {
        let request = get_data_command(tag_id, auth_id);
        let first = copy_bytes(&request);
        (GetDataExchange { request, retried: false, finished: false }, CardStep::Transmit(first))
    }

    /// Whether the exchange is over.
    pub fn is_finished(&self) -> (b: bool)
        ensures
            b == self@.finished,
    {
        self.finished
    }

    /// Takes the card's response to the last command and says what comes next.
    pub fn step(&mut self, response: Vec<u8>) -> (r: CardStep)
        requires
            old(self)@.wf(),
            !old(self)@.finished,
        ensures
            (final(self)@, r@) == spec_get_data_step(old(self)@, response@),
            final(self)@.wf(),
    {
        if !self.retried && !sw_is_ok(&response) && get_SW1(&response) == 0x6C {
            let le = get_SW2(&response);
            self.request.set(4, le);
            self.retried = true;
            CardStep::Transmit(copy_bytes(&self.request))
        } else {
            self.finished = true;
            CardStep::Finish(response)
        }
    }
}

/// The whole GET DATA exchange: it first sends the GET DATA command. A first
/// response that is success, or whose SW1 is not `6C`, ends it with that
/// response. Otherwise the same command with Le set to the first response's
/// SW2 is sent, and the second response, whatever it is, ends it: no third
/// command is ever sent.
pub proof fn law_get_data_exchange(tag_id: u8, auth_id: u8, first: Seq<u8>, second: Seq<u8>)
    ensures
        spec_get_data_start(tag_id, auth_id).1 == StepView::Transmit(
            spec_get_data_command(tag_id, auth_id),
        ),
        !spec_wrong_length(first) ==> spec_get_data_step(spec_get_data_start(tag_id, auth_id).0, first)
            == (GetDataState {
            request: spec_get_data_command(tag_id, auth_id),
            retried: false,
            finished: true,
        }, StepView::Finish(first)),
        spec_wrong_length(first) ==> spec_get_data_step(spec_get_data_start(tag_id, auth_id).0, first).1
            == StepView::Transmit(spec_get_data_command(tag_id, auth_id).update(4, spec_sw2(first))),
        spec_wrong_length(first) ==> spec_get_data_step(
            spec_get_data_step(spec_get_data_start(tag_id, auth_id).0, first).0,
            second,
        ).1 == StepView::Finish(second),
        spec_wrong_length(first) ==> spec_get_data_step(
            spec_get_data_step(spec_get_data_start(tag_id, auth_id).0, first).0,
            second,
        ).0.finished,
{
}

/// The first answer decides by its SW1 alone (the byte before its last): a
/// first answer whose SW1 is not `6C` ends the exchange with that answer and
/// no other command; one whose SW1 is `6C` is followed by the same GET DATA
/// command with Le set to the answer's last byte, and the answer to that one
/// is the result.
pub proof fn law_get_data_retry_on_6c(tag_id: u8, auth_id: u8, first: Seq<u8>, second: Seq<u8>)
    ensures
        (first.len() < 2 || first[first.len() - 2] != 0x6C) ==> {
            &&& spec_get_data_step(spec_get_data_start(tag_id, auth_id).0, first).1
                == StepView::Finish(first)
            &&& spec_get_data_step(spec_get_data_start(tag_id, auth_id).0, first).0.finished
        },
        (first.len() >= 2 && first[first.len() - 2] == 0x6C) ==> {
            &&& spec_get_data_step(spec_get_data_start(tag_id, auth_id).0, first).1
                == StepView::Transmit(
                spec_get_data_command(tag_id, auth_id).update(4, first[first.len() - 1]),
            )
            &&& !spec_get_data_step(spec_get_data_start(tag_id, auth_id).0, first).0.finished
            &&& spec_get_data_step(
                spec_get_data_step(spec_get_data_start(tag_id, auth_id).0, first).0,
                second,
            ).1 == StepView::Finish(second)
        },
{
    law_sw_bytes(first);
}

} // verus!
