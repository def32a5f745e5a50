//! How the character of a key is asked of the macOS keyboard layout.
//!
//! Each question goes to the system in small steps, every one of which can come
//! back empty-handed. A [`LayoutQuery`] says which step is next and, from what
//! came back, what follows. It sees to it that every input source that was copied
//! is released once.

use std::string::FromUtf16Error;
use vstd::prelude::*;

verus! {

/// `std::string::FromUtf16Error`, carried through without looking inside.
#[verifier::external_type_specification]
#[verifier::external_body]
pub struct ExFromUtf16Error(std::string::FromUtf16Error);

/// The first half of a surrogate pair.
pub open spec fn is_high_surrogate(unit: u16) -> bool {
    0xD800 <= unit <= 0xDBFF
}

/// The second half of a surrogate pair.
pub open spec fn is_low_surrogate(unit: u16) -> bool {
    0xDC00 <= unit <= 0xDFFF
}

/// The text that UTF-16 units encode; none if a surrogate stands alone.
pub open spec fn utf16_text(units: Seq<u16>) -> Option<Seq<char>>
    decreases units.len(),
{
    if units.len() == 0 {
        Some(Seq::empty())
    } else if is_high_surrogate(units[0]) && units.len() > 1 && is_low_surrogate(units[1]) {
        match utf16_text(units.skip(2)) {
            Some(rest) => Some(
                seq![(0x10000 + (units[0] - 0xD800) * 0x400 + (units[1] - 0xDC00)) as char] + rest,
            ),
            None => None,
        }
    } else if is_high_surrogate(units[0]) || is_low_surrogate(units[0]) {
        None
    } else {
        match utf16_text(units.skip(1)) {
            Some(rest) => Some(seq![units[0] as char] + rest),
            None => None,
        }
    }
}

/// `String::from_utf16`: the text that the units encode, and an error exactly
/// where a surrogate stands alone.
pub assume_specification[ String::from_utf16 ](v: &[u16]) -> (r: Result<String, FromUtf16Error>)
    ensures
        match utf16_text(v@) {
            Some(text) => r is Ok && r->Ok_0@ == text,
            None => r is Err,
        },
;

/// The first character of what a key typed.
pub open spec fn first_char(units: Seq<u16>) -> Option<char> {
    match utf16_text(units) {
        Some(text) => if text.len() > 0 {
            Some(text[0])
        } else {
            None
        },
        None => None,
    }
}

/// The first character of what a key typed, given in UTF-16: none if it typed
/// nothing or the units encode no text.
pub fn decode_first_char(units: &[u16]) -> (r: Option<char>)
    ensures
        r == first_char(units@),
{
    if units.len() == 0 {
        return None;
    }
    match String::from_utf16(units) {
        Ok(text) => {
            broadcast use vstd::string::next_postcondition;
            broadcast use vstd::string::axiom_spec_iter;
            let mut chars = text.as_str().chars();
            chars.next()
        },
        Err(_) => None,
    }
}

/// Where a keyboard layout can be asked for, in the order in which they are tried.
#[derive(Clone, Copy, Debug, PartialEq, Eq, Structural)]
pub enum InputSource {
    /// The current keyboard input source.
    Current,
    /// The layout input source of the current keyboard.
    CurrentLayout,
    /// The current layout that can type ASCII.
    AsciiCapable,
}

/// Translation without dead keys: bit 31 of the options.
pub const TRANSLATE_NO_DEAD_KEYS: u32 = 0x8000_0000;

/// The key action of a key that goes down.
pub const KEY_ACTION_DOWN: u16 = 0;

/// At most this many UTF-16 units are asked for.
pub const TRANSLATE_MAX_LENGTH: usize = 4;

/// What a translation is asked with, beside the layout and the keyboard type.
#[derive(Clone, Copy, Debug, PartialEq, Eq, Structural)]
pub struct TranslateRequest {
    pub code: u16,
    pub key_action: u16,
    pub modifier_state: u32,
    pub options: u32,
    pub max_length: usize,
}

/// What to do next.
#[derive(Clone, Copy, Debug, PartialEq, Eq, Structural)]
pub enum QueryAction {
    /// Copy an input source.
    Copy(InputSource),
    /// Read the layout of the source that was copied.
    ReadLayout,
    /// Read the bytes of the layout.
    ReadBytes,
    /// Translate the key with the bytes of the layout.
    Translate(TranslateRequest),
    /// Release the source that was copied.
    Release,
    /// Nothing: this is the answer.
    Finish(Option<char>),
}

/// What came back.
#[derive(Debug)]
pub enum QueryReply {
    /// A source was asked for; whether there is one.
    Copied(bool),
    /// The layout was asked for; whether there is one.
    Layout(bool),
    /// The bytes were asked for; whether there are any.
    Bytes(bool),
    /// The key was translated, to these UTF-16 units.
    Translated(Vec<u16>),
    /// The source was released.
    Released,
}

/// How far a question has come.
#[derive(Clone, Copy, Debug, PartialEq, Eq, Structural)]
pub enum QueryPhase {
    /// A source is being copied.
    Copying(InputSource),
    /// The source is here; its layout is being read.
    ReadingLayout(InputSource),
    /// The source has no layout and is being released.
    Discarding(InputSource),
    /// The layout is here; its bytes are being read.
    ReadingBytes(InputSource),
    /// The bytes are here; the key is being translated.
    Translating(InputSource),
    /// The answer is known; the source is being released.
    Closing(Option<char>),
    /// The answer is known and no source is held.
    Finished(Option<char>),
}

/// The phase in which the source after the given one is tried.
pub open spec fn after_source(source: InputSource) -> QueryPhase {
    match source {
        InputSource::Current => QueryPhase::Copying(InputSource::CurrentLayout),
        InputSource::CurrentLayout => QueryPhase::Copying(InputSource::AsciiCapable),
        InputSource::AsciiCapable => QueryPhase::Finished(None),
    }
}

/// The phase that a reply leads to. A reply that does not answer what was asked
/// changes nothing.
pub open spec fn next_phase(phase: QueryPhase, reply: QueryReply) -> QueryPhase {
    match (phase, reply) {
        (QueryPhase::Copying(source), QueryReply::Copied(there)) => if there {
            QueryPhase::ReadingLayout(source)
        } else {
            after_source(source)
        },
        (QueryPhase::ReadingLayout(source), QueryReply::Layout(there)) => if there {
            QueryPhase::ReadingBytes(source)
        } else {
            QueryPhase::Discarding(source)
        },
        (QueryPhase::Discarding(source), QueryReply::Released) => after_source(source),
        (QueryPhase::ReadingBytes(source), QueryReply::Bytes(there)) => if there {
            QueryPhase::Translating(source)
        } else {
            QueryPhase::Closing(None)
        },
        (QueryPhase::Translating(_), QueryReply::Translated(units)) => QueryPhase::Closing(
            first_char(units@),
        ),
        (QueryPhase::Closing(answer), QueryReply::Released) => QueryPhase::Finished(answer),
        _ => phase,
    }
}

/// What is to be done in a phase of the question about `keycode`. A key code has
/// 16 bits; what lies above is cut off.
pub open spec fn action_in(phase: QueryPhase, keycode: u32) -> QueryAction {
    match phase {
        QueryPhase::Copying(source) => QueryAction::Copy(source),
        QueryPhase::ReadingLayout(_) => QueryAction::ReadLayout,
        QueryPhase::ReadingBytes(_) => QueryAction::ReadBytes,
        QueryPhase::Translating(_) => QueryAction::Translate(
            TranslateRequest {
                code: (keycode % 0x10000) as u16,
                key_action: KEY_ACTION_DOWN,
                modifier_state: 0,
                options: TRANSLATE_NO_DEAD_KEYS,
                max_length: TRANSLATE_MAX_LENGTH,
            },
        ),
        QueryPhase::Discarding(_) => QueryAction::Release,
        QueryPhase::Closing(_) => QueryAction::Release,
        QueryPhase::Finished(answer) => QueryAction::Finish(answer),
    }
}

/// The question which character a key types.
#[derive(Debug)]
pub struct LayoutQuery {
    keycode: u32,
    phase: QueryPhase,
}

impl LayoutQuery {
    /// The code of the key that is asked about.
    pub closed spec fn keycode(&self) -> u32 {
        self.keycode
    }

    /// How far the question has come.
    pub closed spec fn phase(&self) -> QueryPhase {
        self.phase
    }

    /// A question about the key of the given code.
    pub fn new(keycode: u32) -> (r: LayoutQuery)
        ensures
            r.keycode() == keycode,
            r.phase() == QueryPhase::Copying(InputSource::Current),
    {
        LayoutQuery { keycode, phase: QueryPhase::Copying(InputSource::Current) }
    }

    /// What to do next.
    pub fn action(&self) -> (r: QueryAction)
        ensures
            r == action_in(self.phase(), self.keycode()),
    {
        match self.phase {
            QueryPhase::Copying(source) => QueryAction::Copy(source),
            QueryPhase::ReadingLayout(_) => QueryAction::ReadLayout,
            QueryPhase::ReadingBytes(_) => QueryAction::ReadBytes,
            QueryPhase::Translating(_) => {
                let keycode: u32 = self.keycode;
                assert(keycode as u16 == (keycode % 0x10000) as u16) by (bit_vector);
                QueryAction::Translate(
                    TranslateRequest {
                        code: keycode as u16,
                        key_action: KEY_ACTION_DOWN,
                        modifier_state: 0,
                        options: TRANSLATE_NO_DEAD_KEYS,
                        max_length: TRANSLATE_MAX_LENGTH,
                    },
                )
            },
            QueryPhase::Discarding(_) => QueryAction::Release,
            QueryPhase::Closing(_) => QueryAction::Release,
            QueryPhase::Finished(answer) => QueryAction::Finish(answer),
        }
    }

    /// The phase in which the source after the given one is tried.
    fn try_after(source: InputSource) -> (r: QueryPhase)
        ensures
            r == after_source(source),
    {
        match source {
            InputSource::Current => QueryPhase::Copying(InputSource::CurrentLayout),
            InputSource::CurrentLayout => QueryPhase::Copying(InputSource::AsciiCapable),
            InputSource::AsciiCapable => QueryPhase::Finished(None),
        }
    }

    /// Takes what came back.
    pub fn advance(&mut self, reply: QueryReply)
        ensures
            final(self).keycode() == old(self).keycode(),
            final(self).phase() == next_phase(old(self).phase(), reply),
    {
        self.phase = match (self.phase, &reply) {
            (QueryPhase::Copying(source), QueryReply::Copied(there)) => if *there {
                QueryPhase::ReadingLayout(source)
            } else {
                Self::try_after(source)
            },
            (QueryPhase::ReadingLayout(source), QueryReply::Layout(there)) => if *there {
                QueryPhase::ReadingBytes(source)
            } else {
                QueryPhase::Discarding(source)
            },
            (QueryPhase::Discarding(source), QueryReply::Released) => Self::try_after(source),
            (QueryPhase::ReadingBytes(source), QueryReply::Bytes(there)) => if *there {
                QueryPhase::Translating(source)
            } else {
                QueryPhase::Closing(None)
            },
            (QueryPhase::Translating(_), QueryReply::Translated(units)) => QueryPhase::Closing(
                decode_first_char(units.as_slice()),
            ),
            (QueryPhase::Closing(answer), QueryReply::Released) => QueryPhase::Finished(answer),
            (phase, _) => phase,
        };
    }
}

} // verus!
