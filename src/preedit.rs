//! One pre-edit notification, as the application sees it.

use vstd::prelude::*;

use crate::encoding::{decode_string, decode_text, decoded, utf8_text, Encoding};

verus! {

/// Status bit: the notification carries no string.
pub const STATUS_NO_STRING: u32 = 0x01;

/// Status bit: the notification carries no feedback.
pub const STATUS_NO_FEEDBACK: u32 = 0x02;

/// The text the input method is composing, and how it changed.
#[derive(Clone, Debug)]
pub struct PreeditInfo {
    status: u32,
    caret: u32,
    chg_first: u32,
    chg_length: u32,
    encoding: Encoding,
    raw_text: Vec<u8>,
    converted: Option<Vec<u8>>,
    feedback: Vec<u32>,
}

impl PreeditInfo {
    /// A notification with its fields, its text as the server sent it under
    /// the negotiated `encoding` (with what the conversion routine made of
    /// it, for compound text) and one feedback value per character. The text
    /// is decoded only when `text` is called.
    pub fn new(
        status: u32,
        caret: u32,
        chg_first: u32,
        chg_length: u32,
        encoding: Encoding,
        raw_text: Vec<u8>,
        converted: Option<Vec<u8>>,
        feedback: Vec<u32>,
    ) -> (r: PreeditInfo)
        ensures
            r.spec_status() == status,
            r.spec_caret() == caret,
            r.spec_chg_first() == chg_first,
            r.spec_chg_length() == chg_length,
            r.spec_encoding() == encoding,
            r.spec_raw_text() == raw_text@,
            r.spec_converted() == (match converted {
                Some(c) => Some(c@),
                None => None::<Seq<u8>>,
            }),
            r.spec_feedback() == feedback@,
    {
        PreeditInfo { status, caret, chg_first, chg_length, encoding, raw_text, converted, feedback }
    }

    pub closed spec fn spec_status(&self) -> u32 {
        self.status
    }

    pub closed spec fn spec_caret(&self) -> u32 {
        self.caret
    }

    pub closed spec fn spec_chg_first(&self) -> u32 {
        self.chg_first
    }

    pub closed spec fn spec_chg_length(&self) -> u32 {
        self.chg_length
    }

    pub closed spec fn spec_encoding(&self) -> Encoding {
        self.encoding
    }

    pub closed spec fn spec_raw_text(&self) -> Seq<u8> {
        self.raw_text@
    }

    pub closed spec fn spec_converted(&self) -> Option<Seq<u8>> {
        match self.converted {
            Some(c) => Some(c@),
            None => None,
        }
    }

    /// The UTF-8 bytes of the text under the negotiated encoding.
    pub open spec fn spec_text_bytes(&self) -> Seq<u8> {
        decoded(self.spec_encoding(), self.spec_raw_text(), self.spec_converted())
    }

    pub closed spec fn spec_feedback(&self) -> Seq<u32> {
        self.feedback@
    }

    /// Status bitmask: `STATUS_NO_STRING`, `STATUS_NO_FEEDBACK`. With no bit
    /// set, `text` holds the current text.
    pub fn status(&self) -> (r: u32)
        ensures
            r == self.spec_status(),
    {
        self.status
    }

    /// Caret offset within the text, in characters.
    pub fn caret(&self) -> (r: u32)
        ensures
            r == self.spec_caret(),
    {
        self.caret
    }

    /// First character of the change.
    pub fn chg_first(&self) -> (r: u32)
        ensures
            r == self.spec_chg_first(),
    {
        self.chg_first
    }

    /// Length of the change, in characters.
    pub fn chg_length(&self) -> (r: u32)
        ensures
            r == self.spec_chg_length(),
    {
        self.chg_length
    }

    fn converted_slice(&self) -> (r: Option<&[u8]>)
        ensures
            crate::encoding::converted_view(r) == self.spec_converted(),
    {
        match &self.converted {
            Some(c) => Some(c.as_slice()),
            None => None,
        }
    }

    /// The text being composed, as UTF-8 bytes, decoded now.
    pub fn text_bytes(&self) -> (r: Vec<u8>)
        ensures
            r@ == self.spec_text_bytes(),
    {
        decode_text(self.encoding, self.raw_text.as_slice(), self.converted_slice())
    }

    /// The text being composed, decoded now; empty where the decoded bytes
    /// are not valid UTF-8.
    pub fn text(&self) -> (r: String)
        ensures
            r@ == utf8_text(self.spec_text_bytes()),
    {
        decode_string(self.encoding, self.raw_text.as_slice(), self.converted_slice())
    }

    /// One feedback value per character (see `InputFeedback`).
    pub fn feedback_array(&self) -> (r: &[u32])
        ensures
            r@ == self.spec_feedback(),
    {
        self.feedback.as_slice()
    }
}

} // verus!
