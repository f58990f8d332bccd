//! Reading a file from the card: SELECT the file by identifier, then READ
//! BINARY it in chunks of at most `0xD0` bytes up to the size that the SELECT
//! response gives.

use vstd::prelude::*;

use crate::commands::{
    get_response_command, read_binary_command, select_file_command, spec_get_response_command,
    spec_read_binary_command, spec_select_file_command,
};
use crate::exchange::{copy_bytes, CardStep, StepView};
use crate::status::{get_SW1, get_SW2, law_sw_bytes, law_sw_pair, spec_sw1, spec_sw2, spec_sw_ok, sw_is_ok};

verus! {

/// The largest chunk that one READ BINARY asks for.
pub const READ_CHUNK: u32 = 0xD0;

/// Where a file-reading exchange stands.
#[derive(Clone, Copy)]
pub enum FilePhase {
    /// The SELECT command was sent.
    Select,
    /// A GET RESPONSE was sent after a `61 xx` answer to SELECT.
    GetResponse,
    /// A READ BINARY was sent.
    Read,
    /// The exchange is over.
    Done,
}

/// State of a file-reading exchange.
pub struct GetFileExchange {
    phase: FilePhase,
    file_info: Vec<u8>,
    offset: u32,
    size: u32,
    file_size: u32,
    data: Vec<u8>,
}

/// The state of a file-reading exchange as values: the phase, the response
/// to SELECT, the offset and length of the last READ BINARY, the file size
/// and the bytes gathered so far.
pub struct GetFileState {
    pub phase: FilePhase,
    pub file_info: Seq<u8>,
    pub offset: u32,
    pub size: u32,
    pub file_size: u32,
    pub data: Seq<u8>,
}

impl View for GetFileExchange {
    type V = GetFileState;

    closed spec fn view(&self) -> GetFileState {
        GetFileState {
            phase: self.phase,
            file_info: self.file_info@,
            offset: self.offset,
            size: self.size,
            file_size: self.file_size,
            data: self.data@,
        }
    }
}

/// The file size that a successful SELECT response gives: its bytes 4 and 5,
/// big-endian.
pub open spec fn spec_file_size(file_info: Seq<u8>) -> u32 {
    (file_info[4] * 256 + file_info[5]) as u32
}

impl GetFileState {
    /// In the GET RESPONSE phase the SELECT response had SW1 `61`; while
    /// reading, the chunk is 1 to `0xD0` bytes and ends within the file, and
    /// the data gathered begins with the `00` marker.
    pub open spec fn wf(self) -> bool {
        match self.phase {
            FilePhase::Select => true,
            FilePhase::GetResponse => spec_sw1(self.file_info) == 0x61,
            FilePhase::Read => {
                &&& 0 < self.size <= READ_CHUNK
                &&& self.offset + self.size <= self.file_size
                &&& self.file_size <= 0xFFFF
                &&& self.data.len() >= 1
                &&& self.data[0] == 0
            },
            FilePhase::Done => true,
        }
    }

    /// The exchange still runs, and `response` can be taken: a successful
    /// response to SELECT holds the file size at bytes 4 and 5.
    pub open spec fn accepts(self, response: Seq<u8>) -> bool {
        &&& !(self.phase is Done)
        &&& (self.phase is Select && spec_sw1(response) != 0x61 && spec_sw_ok(response))
            ==> response.len() >= 6
    }

    /// An upper bound on the number of responses still to come.
    pub open spec fn remaining(self) -> nat {
        match self.phase {
            FilePhase::Select => 0x10002,
            FilePhase::GetResponse => 0x10001,
            FilePhase::Read => (self.file_size - self.offset) as nat,
            FilePhase::Done => 0,
        }
    }
}

/// The start: send SELECT for `file_id`.
pub open spec fn spec_get_file_start(file_id: u32) -> (GetFileState, StepView) {
    (
        GetFileState {
            phase: FilePhase::Select,
            file_info: Seq::empty(),
            offset: 0,
            size: 0,
            file_size: 0,
            data: Seq::empty(),
        },
        StepView::Transmit(spec_select_file_command(file_id)),
    )
}

/// The top of the reading loop: the chunk is cut to what is left of the file;
/// when nothing is left the data gathered is the result, else that chunk is
/// read.
pub open spec fn spec_next_read(
    file_info: Seq<u8>,
    offset: u32,
    size: u32,
    file_size: u32,
    data: Seq<u8>,
) -> (GetFileState, StepView) {
    let chunk: u32 = if offset + size > file_size {
        (file_size - offset) as u32
    } else {
        size
    };
    if chunk == 0 {
        (
            GetFileState {
                phase: FilePhase::Done,
                file_info,
                offset,
                size: chunk,
                file_size,
                data,
            },
            StepView::Finish(data),
        )
    } else {
        (
            GetFileState {
                phase: FilePhase::Read,
                file_info,
                offset,
                size: chunk,
                file_size,
                data,
            },
            StepView::Transmit(spec_read_binary_command(offset, chunk)),
        )
    }
}

/// What follows the SELECT response `file_info` that is used: on success,
/// reading starts at offset 0 with the data `[00]`; else the result is `[00]`.
pub open spec fn spec_after_select(file_info: Seq<u8>) -> (GetFileState, StepView) {
    if spec_sw_ok(file_info) {
        spec_next_read(file_info, 0, READ_CHUNK, spec_file_size(file_info), seq![0x00u8])
    } else {
        (
            GetFileState {
                phase: FilePhase::Done,
                file_info,
                offset: 0,
                size: 0,
                file_size: 0,
                data: seq![0x00u8],
            },
            StepView::Finish(seq![0x00u8]),
        )
    }
}

/// One step of the exchange on the card's `response` to the last command.
/// A `61 xx` answer to SELECT is followed by GET RESPONSE, whose own answer
/// is not used: the decision is then taken on the SELECT answer. A
/// successful READ BINARY answer, status word included, is appended to the
/// data and the next chunk starts where this one ended; any other answer ends
/// the exchange with the data gathered.
pub open spec fn spec_get_file_step(state: GetFileState, response: Seq<u8>) -> (
    GetFileState,
    StepView,
) {
    match state.phase {
        FilePhase::Select => if spec_sw1(response) == 0x61 {
            (
                GetFileState { phase: FilePhase::GetResponse, file_info: response, ..state },
                StepView::Transmit(spec_get_response_command(spec_sw2(response))),
            )
        } else {
            spec_after_select(response)
        },
        FilePhase::GetResponse => spec_after_select(state.file_info),
        FilePhase::Read => if spec_sw_ok(response) {
            spec_next_read(
                state.file_info,
                (state.offset + state.size) as u32,
                state.size,
                state.file_size,
                state.data + response,
            )
        } else {
            (GetFileState { phase: FilePhase::Done, ..state }, StepView::Finish(state.data))
        },
        FilePhase::Done => (state, StepView::Finish(state.data)),
    }
}

impl GetFileExchange {
    /// Starts reading the file `file_id`.
    pub fn start(file_id: u32) -> (r: (GetFileExchange, CardStep))
        ensures
            (r.0@, r.1@) == spec_get_file_start(file_id),
            r.0@.wf(),
    {
        (
            GetFileExchange {
                phase: FilePhase::Select,
                file_info: Vec::new(),
                offset: 0,
                size: 0,
                file_size: 0,
                data: Vec::new(),
            },
            CardStep::Transmit(select_file_command(file_id)),
        )
    }

    /// Whether the exchange is over.
    pub fn is_finished(&self) -> (b: bool)
        ensures
            b == (self@.phase is Done),
    {
        match self.phase {
            FilePhase::Done => true,
            _ => false,
        }
    }

    /// Whether `step` can take `response` (see `GetFileState::accepts`).
    pub fn accepts(&self, response: &Vec<u8>) -> (b: bool)
        ensures
            b == self@.accepts(response@),
    {
        match self.phase {
            FilePhase::Done => false,
            FilePhase::Select => {
                if get_SW1(response) != 0x61 && sw_is_ok(response) {
                    response.len() >= 6
                } else {
                    true
                }
            },
            _ => true,
        }
    }

    fn next_read(file_info: Vec<u8>, offset: u32, size: u32, file_size: u32, data: Vec<u8>) -> (r: (
        GetFileExchange,
        CardStep,
    ))
        requires
            offset <= file_size <= 0xFFFF,
            size <= READ_CHUNK,
            data@.len() >= 1,
            data@[0] == 0,
        ensures
            (r.0@, r.1@) == spec_next_read(file_info@, offset, size, file_size, data@),
            r.0@.wf(),
    {
        let chunk: u32 = if offset + size > file_size {
            file_size - offset
        } else {
            size
        };
        if chunk == 0 {
            let result = copy_bytes(&data);
            (
                GetFileExchange {
                    phase: FilePhase::Done,
                    file_info,
                    offset,
                    size: chunk,
                    file_size,
                    data,
                },
                CardStep::Finish(result),
            )
        } else {
            (
                GetFileExchange {
                    phase: FilePhase::Read,
                    file_info,
                    offset,
                    size: chunk,
                    file_size,
                    data,
                },
                CardStep::Transmit(read_binary_command(offset, chunk)),
            )
        }
    }

    fn after_select(file_info: Vec<u8>) -> (r: (GetFileExchange, CardStep))
        requires
            spec_sw_ok(file_info@) ==> file_info@.len() >= 6,
        ensures
            (r.0@, r.1@) == spec_after_select(file_info@),
            r.0@.wf(),
    {
        if sw_is_ok(&file_info) {
            let file_size: u32 = (file_info[4] as u32) * 256 + (file_info[5] as u32);
            let data: Vec<u8> = vec![0x00];
            assert(data@ =~= seq![0x00u8]);
            GetFileExchange::next_read(file_info, 0, READ_CHUNK, file_size, data)
        } else {
            let data: Vec<u8> = vec![0x00];
            let result: Vec<u8> = vec![0x00];
            assert(data@ =~= seq![0x00u8]);
            assert(result@ =~= seq![0x00u8]);
            (
                GetFileExchange {
                    phase: FilePhase::Done,
                    file_info,
                    offset: 0,
                    size: 0,
                    file_size: 0,
                    data,
                },
                CardStep::Finish(result),
            )
        }
    }

    /// Takes the card's response to the last command and says what comes next.
    pub fn step(&mut self, response: Vec<u8>) -> (r: CardStep)
        requires
            old(self)@.wf(),
            old(self)@.accepts(response@),
        ensures
            (final(self)@, r@) == spec_get_file_step(old(self)@, response@),
            final(self)@.wf(),
    {
        match self.phase {
            FilePhase::Select => {
                if get_SW1(&response) == 0x61 {
                    let le = get_SW2(&response);
                    self.phase = FilePhase::GetResponse;
                    self.file_info = response;
                    CardStep::Transmit(get_response_command(le))
                } else {
                    let (next, action) = GetFileExchange::after_select(response);
                    *self = next;
                    action
                }
            },
            FilePhase::GetResponse => {
                proof {
                    law_sw_pair(self.file_info@);
                }
                let mut file_info: Vec<u8> = Vec::new();
                std::mem::swap(&mut file_info, &mut self.file_info);
                let (next, action) = GetFileExchange::after_select(file_info);
                *self = next;
                action
            },
            FilePhase::Read => {
                if sw_is_ok(&response) {
                    let mut response = response;
                    let mut data: Vec<u8> = Vec::new();
                    std::mem::swap(&mut data, &mut self.data);
                    let mut file_info: Vec<u8> = Vec::new();
                    std::mem::swap(&mut file_info, &mut self.file_info);
                    data.append(&mut response);
                    let (next, action) = GetFileExchange::next_read(
                        file_info,
                        self.offset + self.size,
                        self.size,
                        self.file_size,
                        data,
                    );
                    *self = next;
                    action
                } else {
                    self.phase = FilePhase::Done;
                    CardStep::Finish(copy_bytes(&self.data))
                }
            },
            FilePhase::Done => CardStep::Finish(copy_bytes(&self.data)),
        }
    }
}

/// Every step that the exchange can take keeps its state well formed, and
/// either ends the exchange or brings `remaining` down: the reading loop
/// cannot run forever, whatever the card answers.
pub proof fn law_get_file_progress(state: GetFileState, response: Seq<u8>)
    requires
        state.wf(),
        state.accepts(response),
    ensures
        spec_get_file_step(state, response).0.wf(),
        spec_get_file_step(state, response).0.phase is Done
            || spec_get_file_step(state, response).0.remaining() < state.remaining(),
{
    law_sw_pair(response);
    law_sw_pair(state.file_info);
    if state.phase is Select && spec_sw1(response) != 0x61 && spec_sw_ok(response) {
        assert(spec_file_size(response) <= 0xFFFF);
    }
}

/// While reading, a successful answer is appended to the data, and the next
/// READ BINARY starts exactly where the last one ended, asks for no more than
/// the last one did and stays within the file; when the file is fully read the
/// result is the data gathered.
pub proof fn law_get_file_reads_in_order(state: GetFileState, response: Seq<u8>)
    requires
        state.wf(),
        state.phase is Read,
        spec_sw_ok(response),
    ensures
        spec_get_file_step(state, response).0.data == state.data + response,
        spec_get_file_step(state, response).0.phase is Read ==> {
            &&& spec_get_file_step(state, response).0.offset == state.offset + state.size
            &&& spec_get_file_step(state, response).0.size <= state.size
            &&& spec_get_file_step(state, response).0.offset + spec_get_file_step(
                state,
                response,
            ).0.size <= state.file_size
            &&& spec_get_file_step(state, response).1 == StepView::Transmit(
                spec_read_binary_command(
                    spec_get_file_step(state, response).0.offset,
                    spec_get_file_step(state, response).0.size,
                ),
            )
        },
        spec_get_file_step(state, response).0.phase is Done ==> {
            &&& state.offset + state.size == state.file_size
            &&& spec_get_file_step(state, response).1 == StepView::Finish(state.data + response)
        },
{
}

/// Whatever the exchange ends with begins with the `00` marker.
pub proof fn law_get_file_result_marker(state: GetFileState, response: Seq<u8>)
    requires
        state.wf(),
        state.accepts(response),
    ensures
        spec_get_file_step(state, response).1 matches StepView::Finish(result) ==> result.len()
            >= 1 && result[0] == 0,
{
    law_sw_pair(state.file_info);
}

/// A `61 xx` answer to SELECT is followed by GET RESPONSE with Le `xx`; the
/// exchange then ends with `[00]`, whatever the card answers to it, since
/// the decision is taken on the SELECT answer, which is not a success.
pub proof fn law_get_file_after_get_response(file_id: u32, first: Seq<u8>, second: Seq<u8>)
    requires
        spec_sw1(first) == 0x61,
    ensures
        spec_get_file_step(spec_get_file_start(file_id).0, first).1 == StepView::Transmit(
            spec_get_response_command(spec_sw2(first)),
        ),
        spec_get_file_step(spec_get_file_step(spec_get_file_start(file_id).0, first).0, second).1
            == StepView::Finish(seq![0x00u8]),
{
    law_sw_pair(first);
}

/// The answer to SELECT decides, by its bytes: a success answer (more than two
/// bytes, ending in `90 00`) gives the file size from its bytes 4 and 5,
/// big-endian, whatever its length; reading then starts with READ BINARY at
/// offset 0 for `min(0xD0, size)` bytes, or, for an empty file, the result is
/// `[00]`. An answer with SW1 `61` is followed by GET RESPONSE with Le its
/// last byte; any other answer ends the exchange with `[00]`.
pub proof fn law_get_file_select_answer(file_id: u32, first: Seq<u8>)
    requires
        (first.len() > 2 && first[first.len() - 2] == 0x90 && first[first.len() - 1] == 0x00)
            ==> first.len() >= 6,
    ensures
        spec_get_file_start(file_id).1 == StepView::Transmit(spec_select_file_command(file_id)),
        (first.len() > 2 && first[first.len() - 2] == 0x90 && first[first.len() - 1] == 0x00) ==> {
            let size: int = first[4] * 256 + first[5];
            let chunk: int = if size < 0xD0 { size } else { 0xD0 };
            let next = spec_get_file_step(spec_get_file_start(file_id).0, first);
            &&& size == 0 ==> next.0.phase is Done && next.1 == StepView::Finish(seq![0x00u8])
            &&& size > 0 ==> {
                &&& next.0.phase is Read
                &&& next.0.file_size == size
                &&& next.0.offset == 0
                &&& next.0.size == chunk
                &&& next.0.data == seq![0x00u8]
                &&& next.1 == StepView::Transmit(
                    seq![0x00u8, 0xB0u8, 0x00u8, 0x00u8, chunk as u8],
                )
            }
        },
        (first.len() >= 2 && first[first.len() - 2] == 0x61) ==> spec_get_file_step(
            spec_get_file_start(file_id).0,
            first,
        ).1 == StepView::Transmit(seq![0x00u8, 0xC0u8, 0x00u8, 0x00u8, first[first.len() - 1]]),
        !(first.len() > 2 && first[first.len() - 2] == 0x90 && first[first.len() - 1] == 0x00)
            && !(first.len() >= 2 && first[first.len() - 2] == 0x61) ==> {
            &&& spec_get_file_step(spec_get_file_start(file_id).0, first).1 == StepView::Finish(
                seq![0x00u8],
            )
            &&& spec_get_file_step(spec_get_file_start(file_id).0, first).0.phase is Done
        },
{
    law_sw_bytes(first);
    let size: int = first[4] * 256 + first[5];
    if first.len() > 2 && first[first.len() - 2] == 0x90 && first[first.len() - 1] == 0x00 {
        assert(size <= 0xFFFF);
        assert(spec_file_size(first) == size);
        let chunk: int = if size < 0xD0 { size } else { 0xD0 };
        if size > 0 {
            let next = spec_get_file_step(spec_get_file_start(file_id).0, first);
            assert(next.1 == StepView::Transmit(spec_read_binary_command(0, chunk as u32)));
            assert(spec_read_binary_command(0, chunk as u32) =~= seq![
                0x00u8,
                0xB0u8,
                0x00u8,
                0x00u8,
                chunk as u8,
            ]);
        }
    }
}

/// While reading, an answer that is no success (not more than two bytes
/// ending in `90 00`) ends the exchange with exactly the data gathered so far,
/// the answer left out. A success answer is appended, status word included;
/// the next READ BINARY starts where the last chunk ended, for the smaller of
/// the last chunk's length and what is left of the file, and when nothing is
/// left the data gathered is the result.
pub proof fn law_get_file_read_answer(state: GetFileState, answer: Seq<u8>)
    requires
        state.wf(),
        state.phase is Read,
    ensures
        !(answer.len() > 2 && answer[answer.len() - 2] == 0x90 && answer[answer.len() - 1]
            == 0x00) ==> {
            &&& spec_get_file_step(state, answer).1 == StepView::Finish(state.data)
            &&& spec_get_file_step(state, answer).0.phase is Done
        },
        (answer.len() > 2 && answer[answer.len() - 2] == 0x90 && answer[answer.len() - 1]
            == 0x00) ==> {
            let end: int = state.offset + state.size;
            let left: int = state.file_size - end;
            let chunk: int = if left < state.size { left } else { state.size as int };
            let next = spec_get_file_step(state, answer);
            &&& next.0.data == state.data + answer
            &&& left == 0 ==> next.0.phase is Done && next.1 == StepView::Finish(state.data + answer)
            &&& left > 0 ==> {
                &&& next.0.phase is Read
                &&& next.0.offset == end
                &&& next.0.size == chunk
                &&& next.0.file_size == state.file_size
                &&& next.1 == StepView::Transmit(
                    seq![0x00u8, 0xB0u8, (end / 256) as u8, (end % 256) as u8, chunk as u8],
                )
            }
        },
{
    law_sw_bytes(answer);
    let end: int = state.offset + state.size;
    let left: int = state.file_size - end;
    let chunk: int = if left < state.size { left } else { state.size as int };
    if left > 0 {
        assert(spec_read_binary_command(end as u32, chunk as u32) =~= seq![
            0x00u8,
            0xB0u8,
            (end / 256) as u8,
            (end % 256) as u8,
            chunk as u8,
        ]);
    }
}

/// The exchange takes every answer while it runs, except a success answer
/// to SELECT (more than two bytes ending in `90 00`) too short to hold the
/// file size at bytes 4 and 5; once over it takes none.
pub proof fn law_get_file_accepts(state: GetFileState, answer: Seq<u8>)
    ensures
        state.phase is Done ==> !state.accepts(answer),
        (state.phase is Read || state.phase is GetResponse) ==> state.accepts(answer),
        state.phase is Select ==> (state.accepts(answer) <==> (answer.len() > 2 && answer[answer.len()
            - 2] == 0x90 && answer[answer.len() - 1] == 0x00 ==> answer.len() >= 6)),
{
    law_sw_bytes(answer);
}

} // verus!
