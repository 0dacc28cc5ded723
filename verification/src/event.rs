//! The inbound email event, reduced to what extraction reads.
//!
//! The wire-level event nests the message id under several sub-structures;
//! all the extractor reads of a record is whether a message id is present and,
//! if so, its characters. The model here holds exactly that.

use vstd::prelude::*;

verus! {

/// One received-email notification: its message id, if the producing system
/// supplied one.
pub struct EmailRecord {
    pub message_id: Option<String>,
}

/// One delivery notification payload: zero or more email records, in order.
pub struct EmailEvent {
    pub records: Vec<EmailRecord>,
}

impl View for EmailRecord {
    type V = Option<Seq<char>>;

    open spec fn view(&self) -> Option<Seq<char>> {
        match self.message_id {
            Option::Some(s) => Option::Some(s@),
            Option::None => Option::None,
        }
    }
}

impl View for EmailEvent {
    type V = Seq<Option<Seq<char>>>;

    open spec fn view(&self) -> Seq<Option<Seq<char>>> {
        self.records@.map_values(|r: EmailRecord| r@)
    }
}

} // verus!
