//! What a caller does next in a conversation with the card.

use vstd::prelude::*;

verus! {

/// The next action of an exchange with the card.
pub enum CardStep {
    /// Send this command APDU and hand the response back to the exchange.
    Transmit(Vec<u8>),
    /// The exchange is over; this is its result.
    Finish(Vec<u8>),
}

/// `CardStep` with its bytes as sequences.
pub enum StepView {
    Transmit(Seq<u8>),
    Finish(Seq<u8>),
}

impl View for CardStep {
    type V = StepView;

    open spec fn view(&self) -> StepView {
        match self {
            CardStep::Transmit(cmd) => StepView::Transmit(cmd@),
            CardStep::Finish(result) => StepView::Finish(result@),
        }
    }
}

/// A copy of a byte buffer.
pub(crate) fn copy_bytes(bytes: &Vec<u8>) -> (copy: Vec<u8>)
    ensures
        copy@ == bytes@,
{
    let copy = bytes.clone();
    assert(copy@ =~= bytes@);
    copy
}

} // verus!
