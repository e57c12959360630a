//! Skin-driven texture and icon generation: layout conversion, colour grading,
//! icon composition and exact-size packing into fixed-capacity buffers.

pub mod color_correct;
pub mod error;
pub mod keyboard;
pub mod minecraft_api;
pub mod modern_skin;
pub mod packer;
pub mod pipeline;
pub mod power_law;
pub mod raster;
pub mod skin_files;
pub mod slots;
pub mod stock_generation;
pub mod skin_menu;

use crate::slots::SLOT_COUNT;
use vstd::prelude::*;

verus! {

/// What the host tells about a fighter that was picked on the selection screen.
#[derive(Clone, Copy, Debug, PartialEq, Eq, Structural)]
pub struct FighterInfo {
    pub fighter_id: u8,
    pub fighter_slot: u8,
}

/// The slot whose skin is to be chosen after a pick: the fighter's slot when
/// the fighter is of the kind `steve_kind` and the slot exists.
pub fn selection_slot(info: &FighterInfo, steve_kind: i32) -> (slot: Option<usize>)
    ensures
        slot == (if info.fighter_id as int == steve_kind && info.fighter_slot < SLOT_COUNT {
            Some(info.fighter_slot as usize)
        } else {
            None
        }),
{
    if info.fighter_id as i32 == steve_kind && (info.fighter_slot as usize) < SLOT_COUNT {
        Some(info.fighter_slot as usize)
    } else {
        None
    }
}

/// The byte of the search pattern that may differ.
pub const SKIP_IDX: usize = 0xC;

/// The code that picks a fighter starts with these bytes; the byte at
/// [`SKIP_IDX`] varies between versions of the host.
pub const FIGHTER_SELECTED_SEARCH_CODE: [u8; 16] = [
    0xc8, 0x66, 0x40, 0xb9, 0x08, 0x01, 0x00, 0x32, 0xe0, 0x03, 0x17, 0xaa, 0xa8, 0x66, 0x00, 0xb9,
];

/// Where the code that picks a fighter ends when the pattern is not found.
pub const FIGHTER_SELECTED_OFFSET: usize = 0x6695e0;

/// Whether `needle` occurs in `haystack` at `at`, the byte at [`SKIP_IDX`] of
/// the needle matching any byte.
pub open spec fn matches_at(haystack: Seq<u8>, needle: Seq<u8>, at: int) -> bool {
    &&& 0 <= at
    &&& at + needle.len() <= haystack.len()
    &&& forall|k: int| 0 <= k < needle.len() && k != SKIP_IDX ==> haystack[at + k] == #[trigger] needle[k]
}

/// The first place at which `needle` occurs in `haystack`, the byte at
/// [`SKIP_IDX`] of the needle matching any byte. A needle that does not reach
/// beyond that byte can only be looked for in a shorter haystack.
pub fn find_subsequence(haystack: &[u8], needle: &[u8]) -> (found: Option<usize>)
    requires
        needle@.len() > 0,
        needle@.len() > SKIP_IDX || haystack@.len() < needle@.len(),
    ensures
        found matches Some(at) ==> matches_at(haystack@, needle@, at as int) && forall|j: int|
            0 <= j < at ==> !matches_at(haystack@, needle@, j),
        found is None ==> forall|j: int| !matches_at(haystack@, needle@, j),
{
    if haystack.len() < needle.len() {
        return None;
    }
    let last = haystack.len() - needle.len();
    let mut at: usize = 0;
    while at <= last
        invariant
            needle@.len() <= haystack@.len() <= usize::MAX,
            needle@.len() > 0,
            last == haystack@.len() - needle@.len(),
            at <= last + 1,
            forall|j: int| 0 <= j < at ==> !matches_at(haystack@, needle@, j),
        decreases last + 1 - at,
    {
        let mut k: usize = 0;
        let mut same = true;
        while k < needle.len()
            invariant
                at <= last,
                needle@.len() <= haystack@.len() <= usize::MAX,
                last == haystack@.len() - needle@.len(),
                k <= needle@.len(),
                same <==> forall|q: int|
                    0 <= q < k && q != SKIP_IDX ==> haystack@[at + q] == #[trigger] needle@[q],
            decreases needle@.len() - k,
        {
            if k != SKIP_IDX && haystack[at + k] != needle[k] {
                same = false;
            }
            k += 1;
        }
        if same {
            return Some(at);
        }
        at += 1;
    }
    None
}

/// Where the code that picks a fighter ends in the program text: sixteen bytes
/// after the start of the pattern, or the known offset when the pattern is
/// not found. The flag tells whether it was found.
pub fn fighter_selected_offset(text: &[u8]) -> (r: (usize, bool))
    ensures
        r.1 ==> matches_at(text@, FIGHTER_SELECTED_SEARCH_CODE@, r.0 - 0x10) && forall|j: int|
            0 <= j < r.0 - 0x10 ==> !matches_at(text@, FIGHTER_SELECTED_SEARCH_CODE@, j),
        !r.1 ==> r.0 == FIGHTER_SELECTED_OFFSET && forall|j: int|
            !matches_at(text@, FIGHTER_SELECTED_SEARCH_CODE@, j),
{
    let length = text.len();
    let code = FIGHTER_SELECTED_SEARCH_CODE.as_slice();
    match find_subsequence(text, code) {
        Some(offset) => {
            assert(code@.len() == 16);
            assert(offset + 16 <= length);
            (offset + 0x10, true)
        },
        None => (FIGHTER_SELECTED_OFFSET, false),
    }
}

} // verus!
