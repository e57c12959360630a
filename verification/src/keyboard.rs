//! The text-entry overlay: its configuration and the text it hands back.

use vstd::prelude::*;

verus! {

/// Number of UTF-16 units in the buffer that receives the entered text.
pub const SWKBD_STRING_LEN: usize = 1002;

/// Size of the overlay's configuration block.
pub const KEYBOARD_CONFIG_LEN: usize = 0x4D0;

/// Size of the work buffer the overlay needs.
pub const WORK_BUFFER_SIZE: usize = 0xd000;

/// Result code of an overlay that was cancelled.
pub const CANCELLED: u32 = 0x29f;

/// Longest text the overlay accepts.
pub const MAX_TEXT_LENGTH: u8 = 20;

/// Where the configuration block holds the longest accepted text, the input
/// mode and the cancel switch.
pub const MAX_LENGTH_AT: usize = 0x3ac;

pub const MODE_AT: usize = 0x3b8;

pub const CANCEL_AT: usize = 0x3bc;

/// The text that a sequence of UTF-16 units stands for, with U+FFFD in place
/// of every unit that belongs to no well-formed pair.
pub uninterp spec fn utf16_decoded(units: Seq<u16>) -> Seq<char>;

/// The UTF-16 units of a text.
pub uninterp spec fn utf16_encoded(text: Seq<char>) -> Seq<u16>;

/// Calls `String::from_utf16_lossy`. Trusted: the result is the text that
/// the units stand for.
#[verifier::external_body]
fn from_utf16_lossy(units: &[u16]) -> (text: String)
    ensures
        text@ == utf16_decoded(units@),
{
    String::from_utf16_lossy(units)
}

/// Calls `str::encode_utf16`. Trusted: the result holds the units of the text.
#[verifier::external_body]
fn encode_utf16(text: &str) -> (units: Vec<u16>)
    ensures
        units@ == utf16_encoded(text@),
{
    text.encode_utf16().collect()
}

/// The buffer that receives the entered text: UTF-16 units, ended by the
/// first zero unit where there is one.
pub struct SwkbdString(Vec<u16>);

impl View for SwkbdString {
    type V = Seq<u16>;

    closed spec fn view(&self) -> Seq<u16> {
        self.0@
    }
}

/// Number of units before the first zero unit, or the whole length.
pub open spec fn text_end(units: Seq<u16>) -> int
    decreases units.len(),
{
    if units.len() == 0 || units[0] == 0 {
        0
    } else {
        1 + text_end(units.drop_first())
    }
}

/// `text_end` is the index of the first zero unit, or the length without one.
pub proof fn lemma_text_end(units: Seq<u16>)
    ensures
        0 <= text_end(units) <= units.len(),
        forall|k: int| 0 <= k < text_end(units) ==> units[k] != 0,
        text_end(units) < units.len() ==> units[text_end(units)] == 0,
    decreases units.len(),
{
    if units.len() != 0 && units[0] != 0 {
        let rest = units.drop_first();
        lemma_text_end(rest);
        assert forall|k: int| 0 <= k < text_end(units) implies units[k] != 0 by {
            if k > 0 {
                assert(units[k] == rest[k - 1]);
            }
        }
        if text_end(units) < units.len() {
            assert(units[text_end(units)] == rest[text_end(rest)]);
        }
    }
}

impl SwkbdString {
    /// A buffer of the size the overlay writes to, all zero.
    pub fn that_big_size() -> (s: Self)
        ensures
            s@.len() == SWKBD_STRING_LEN,
            forall|i: int| 0 <= i < SWKBD_STRING_LEN ==> s@[i] == 0,
    {
        SwkbdString(vec![0u16; SWKBD_STRING_LEN])
    }

    /// A buffer holding the given units.
    pub fn from_units(units: Vec<u16>) -> (s: Self)
        ensures
            s@ == units@,
    {
        SwkbdString(units)
    }

    /// Number of units of the entered text.
    pub fn text_len(&self) -> (end: usize)
        ensures
            end == text_end(self@),
    {
        proof {
            lemma_text_end(self.0@);
        }
        let mut i: usize = 0;
        while i < self.0.len()
            invariant
                i <= self.0@.len(),
                forall|k: int| 0 <= k < i ==> self.0@[k] != 0,
                0 <= text_end(self.0@) <= self.0@.len(),
                forall|k: int| 0 <= k < text_end(self.0@) ==> self.0@[k] != 0,
                text_end(self.0@) < self.0@.len() ==> self.0@[text_end(self.0@)] == 0,
            decreases self.0@.len() - i,
        {
            if self.0[i] == 0 {
                return i;
            }
            i += 1;
        }
        i
    }

    /// The entered text: the units before the first zero unit, decoded.
    pub fn into_string(self) -> (text: String)
        ensures
            text@ == utf16_decoded(self@.subrange(0, text_end(self@))),
    {
        let end = self.text_len();
        proof {
            lemma_text_end(self.0@);
        }
        let units = vstd::slice::slice_subrange(self.0.as_slice(), 0, end);
        from_utf16_lossy(units)
    }
}

/// Sets up a configuration block: texts of at most twenty characters, the
/// default input mode, cancelling allowed. Every other byte stays.
pub fn configure_keyboard(config: &mut [u8; 0x4D0])
    ensures
        final(config)@ == old(config)@.update(MAX_LENGTH_AT as int, MAX_TEXT_LENGTH).update(
            MODE_AT as int,
            0u8,
        ).update(CANCEL_AT as int, 0u8),
{
    config[MAX_LENGTH_AT] = MAX_TEXT_LENGTH;
    config[MODE_AT] = 0;
    config[CANCEL_AT] = 0;
}

/// The header of the overlay as the overlay takes it: UTF-16 units ended by
/// a zero unit.
pub fn header_units(text: &str) -> (units: Vec<u16>)
    ensures
        units@ == utf16_encoded(text@).push(0u16),
{
    let mut units = encode_utf16(text);
    units.push(0);
    units
}

/// What the overlay gave: nothing when it was cancelled, else the entered text.
pub fn keyboard_reply(code: u32, text: SwkbdString) -> (reply: Option<String>)
    ensures
        code == CANCELLED ==> reply is None,
        code != CANCELLED ==> reply is Some && reply->0@ == utf16_decoded(
            text@.subrange(0, text_end(text@)),
        ),
{
    if code == CANCELLED {
        None
    } else {
        Some(text.into_string())
    }
}

/// What the overlay is shown with: its configuration block, the header
/// above the text field as UTF-16 units ended by a zero unit (empty while no
/// header is set), and the size of the work buffer it is to be given.
pub struct ShowKeyboardArg {
    pub keyboard_config: [u8; 0x4D0],
    pub header: Vec<u16>,
    pub work_buffer_size: usize,
}

impl ShowKeyboardArg {
    /// The argument for a text of at most twenty characters, made from the
    /// host's default configuration block.
    pub fn new(preset: [u8; 0x4D0]) -> (arg: Self)
        ensures
            arg.keyboard_config@ == preset@.update(MAX_LENGTH_AT as int, MAX_TEXT_LENGTH).update(
                MODE_AT as int,
                0u8,
            ).update(CANCEL_AT as int, 0u8),
            arg.header@.len() == 0,
            arg.work_buffer_size == WORK_BUFFER_SIZE,
    {
        let mut keyboard_config = preset;
        configure_keyboard(&mut keyboard_config);
        ShowKeyboardArg { keyboard_config, header: Vec::new(), work_buffer_size: WORK_BUFFER_SIZE }
    }

    /// Sets the header above the text field, and hands the argument back
    /// for what is set next.
    pub fn header_text(&mut self, s: &str) -> (arg: &mut Self)
        ensures
            arg.header@ == utf16_encoded(s@).push(0u16),
            arg.keyboard_config == old(self).keyboard_config,
            arg.work_buffer_size == old(self).work_buffer_size,
            *final(self) == *final(arg),
    {
        self.header = header_units(s);
        self
    }

    /// What showing the overlay gave: `code` is the overlay's result and
    /// `text` the buffer it wrote to.
    pub fn show(&self, code: u32, text: SwkbdString) -> (reply: Option<String>)
        ensures
            code == CANCELLED ==> reply is None,
            code != CANCELLED ==> reply is Some && reply->0@ == utf16_decoded(
                text@.subrange(0, text_end(text@)),
            ),
    {
        keyboard_reply(code, text)
    }
}

} // verus!
