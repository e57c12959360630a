//! The skin picker: what it shows and what a choice means.

use crate::minecraft_api::{is_textures_at, Session};
use vstd::prelude::*;
use vstd::string::{StringExecFns, StringSliceAdditionalSpecFns};

verus! {

/// Address under which the picker's pages are served.
pub const LOCALHOST: &'static str = "http://localhost/";

/// Address that stands for the default skin.
pub const STEVE_URL: &'static str = "http://localhost/steve";

/// Address that stands for adding a skin.
pub const ADD_URL: &'static str = "http://localhost/add";

/// Directory in which downloaded skins are kept.
pub const CACHE_DIR: &'static str = "sd:/atmosphere/contents/01006A800016E000/romfs/minecraft_skins";

/// Text above the field in which a player name is entered.
pub const KEYBOARD_HEADER: &'static str = "Enter Minecraft Username";

/// Tiles per row of the picker.
pub const COLUMNS: isize = 6;

/// Distance between two tiles.
pub const TILE: isize = 225;

/// How far a tile's image stands to the left of and above its button.
pub const IMAGE_SHIFT: isize = 200;

/// Column of tile `i`.
pub open spec fn tile_column(i: int) -> int {
    if i >= 0 {
        i % 6
    } else {
        -((-i) % 6)
    }
}

/// Row of tile `i`.
pub open spec fn tile_row(i: int) -> int {
    if i >= 0 {
        i / 6
    } else {
        -((-i) / 6)
    }
}

/// Whether the positions of tile `i` fit the machine's integers.
pub open spec fn tile_fits(i: int) -> bool {
    isize::MIN <= tile_row(i) * 225 - 200 && tile_row(i) * 225 <= isize::MAX
}

pub fn index_to_image_x(i: isize) -> (x: isize)
    ensures
        x == tile_column(i as int) * 225 - 200,
{
    ((i % 6) * 225) - 200
}

pub fn index_to_image_y(i: isize) -> (y: isize)
    requires
        tile_fits(i as int),
    ensures
        y == tile_row(i as int) * 225 - 200,
{
    ((i / 6) * 225) - 200
}

pub fn index_to_image_x_y(i: isize) -> (at: (isize, isize))
    requires
        tile_fits(i as int),
    ensures
        at == (
            (tile_column(i as int) * 225 - 200) as isize,
            (tile_row(i as int) * 225 - 200) as isize,
        ),
{
    (index_to_image_x(i), index_to_image_y(i))
}

pub fn index_to_button_x(i: isize) -> (x: isize)
    ensures
        x == tile_column(i as int) * 225,
{
    (i % 6) * 225
}

pub fn index_to_button_y(i: isize) -> (y: isize)
    requires
        tile_fits(i as int),
    ensures
        y == tile_row(i as int) * 225,
{
    (i / 6) * 225
}

pub fn index_to_button_x_y(i: isize) -> (at: (isize, isize))
    requires
        tile_fits(i as int),
    ensures
        at == ((tile_column(i as int) * 225) as isize, (tile_row(i as int) * 225) as isize),
{
    (index_to_button_x(i), index_to_button_y(i))
}

/// Where a tile fits, every tile before it fits, and its index is one the
/// machine can count to.
pub proof fn lemma_tile_fits_below(i: int, j: int)
    requires
        0 <= i <= j,
        tile_fits(j),
    ensures
        tile_fits(i),
        j <= isize::MAX,
{
    vstd::arithmetic::div_mod::lemma_div_is_ordered(i, j, 6);
    vstd::arithmetic::div_mod::lemma_fundamental_div_mod(j, 6);
    assert(0 <= i / 6 <= j / 6) by {
        vstd::arithmetic::div_mod::lemma_div_pos_is_pos(i, 6);
    }
}

/// One skin tile of the picker.
pub struct SkinIcon {
    pub path: String,
    pub left: isize,
    pub top: isize,
    pub button_left: isize,
    pub button_top: isize,
}

/// What the picker shows: a tile for each listed skin, in order from tile 1
/// (tile 0 is the default skin), and after them the tile that adds a skin.
pub struct Rendered {
    pub skins: Vec<SkinIcon>,
    pub add_left: isize,
    pub add_top: isize,
    pub add_button_left: isize,
    pub add_button_top: isize,
}

/// Whether `icon` is the tile of the skin `name` at position `i`.
pub open spec fn is_tile(icon: SkinIcon, name: String, i: int) -> bool {
    &&& icon.path == name
    &&& icon.left == tile_column(i) * 225 - 200
    &&& icon.top == tile_row(i) * 225 - 200
    &&& icon.button_left == tile_column(i) * 225
    &&& icon.button_top == tile_row(i) * 225
}

/// An entry of the cache directory.
pub struct CacheEntry {
    pub name: String,
    pub is_file: bool,
}

/// Whether a file name has the extension `png`: it ends in `.png` and has
/// at least one byte before that.
pub open spec fn is_png_name(name: Seq<u8>) -> bool {
    name.len() > 4 && name.subrange(name.len() - 4, name.len() as int) == seq![0x2eu8, 0x70u8, 0x6eu8, 0x67u8]
}

/// Whether a file name has the extension `png`.
pub fn has_png_extension(name: &str) -> (b: bool)
    ensures
        b == is_png_name(name.spec_bytes()),
{
    let bytes = name.as_bytes();
    let n = bytes.len();
    if n <= 4 {
        return false;
    }
    let b = bytes[n - 4] == 0x2e && bytes[n - 3] == 0x70 && bytes[n - 2] == 0x6e && bytes[n - 1] == 0x67;
    proof {
        let tail = bytes@.subrange(n - 4, n as int);
        let want = seq![0x2eu8, 0x70u8, 0x6eu8, 0x67u8];
        if b {
            assert(tail =~= want);
        } else {
            assert(tail[0] == bytes@[n - 4] && tail[1] == bytes@[n - 3] && tail[2] == bytes@[n - 2] && tail[3]
                == bytes@[n - 1]);
            assert(want[0] == 0x2e && want[1] == 0x70 && want[2] == 0x6e && want[3] == 0x67);
        }
    }
    b
}

/// The names that the picker lists for the entries of the cache directory:
/// those of the files with the extension `png`, in the order of the
/// entries.
pub open spec fn listed(entries: Seq<CacheEntry>) -> Seq<String>
    decreases entries.len(),
{
    if entries.len() == 0 {
        Seq::empty()
    } else {
        let before = listed(entries.drop_last());
        let e = entries.last();
        if e.is_file && is_png_name(vstd::utf8::encode_utf8(e.name@)) {
            before.push(e.name)
        } else {
            before
        }
    }
}

/// The skins that the picker lists, by file name in the cache directory.
pub struct Skins {
    skins: Vec<String>,
}

impl Skins {
    /// The listed file names, in order.
    pub closed spec fn names(&self) -> Seq<String> {
        self.skins@
    }

    /// Whether the positions of all tiles, the one that adds a skin
    /// included, fit the machine's integers.
    pub open spec fn fits_layout(&self) -> bool {
        tile_fits(self.names().len() as int + 1)
    }

    /// A picker that lists no skin.
    pub fn new() -> (skins: Skins)
        ensures
            skins.names().len() == 0,
    {
        Skins { skins: Vec::new() }
    }

    /// Number of listed skins.
    pub fn len(&self) -> (n: usize)
        ensures
            n == self.names().len(),
    {
        self.skins.len()
    }

    /// The picker for what the cache directory holds.
    pub fn from_cache(entries: &Vec<CacheEntry>) -> (skins: Skins)
        ensures
            skins.names() == listed(entries@),
    {
        let mut skins: Vec<String> = Vec::new();
        let mut i: usize = 0;
        while i < entries.len()
            invariant
                i <= entries@.len(),
                skins@ == listed(entries@.subrange(0, i as int)),
            decreases entries@.len() - i,
        {
            proof {
                assert(entries@.subrange(0, i + 1).drop_last() =~= entries@.subrange(0, i as int));
                assert(entries@.subrange(0, i + 1).last() == entries@[i as int]);
            }
            if entries[i].is_file && has_png_extension(entries[i].name.as_str()) {
                skins.push(entries[i].name.clone());
            }
            i += 1;
        }
        proof {
            assert(entries@.subrange(0, entries@.len() as int) =~= entries@);
        }
        Skins { skins }
    }

    /// Whether the positions of all tiles fit the machine's integers.
    pub fn layout_fits(&self) -> (b: bool)
        ensures
            b == self.fits_layout(),
    {
        let n = self.skins.len();
        if n == usize::MAX {
            return false;
        }
        let rows: u128 = ((n + 1) / 6) as u128;
        rows * 225 <= isize::MAX as u128
    }

    /// Lays the picker out.
    pub fn render(&self) -> (page: Rendered)
        requires
            self.fits_layout(),
        ensures
            page.skins@.len() == self.names().len(),
            forall|k: int|
                0 <= k < self.names().len() ==> is_tile(#[trigger] page.skins@[k], self.names()[k], k + 1),
            page.add_left == tile_column(self.names().len() as int + 1) * 225 - 200,
            page.add_top == tile_row(self.names().len() as int + 1) * 225 - 200,
            page.add_button_left == tile_column(self.names().len() as int + 1) * 225,
            page.add_button_top == tile_row(self.names().len() as int + 1) * 225,
    {
        let mut skins: Vec<SkinIcon> = Vec::new();
        let mut i: isize = 1;
        let mut k: usize = 0;
        while k < self.skins.len()
            invariant
                tile_fits(self.skins@.len() as int + 1),
                k <= self.skins@.len(),
                i == k + 1,
                skins@.len() == k,
                forall|q: int| 0 <= q < k ==> is_tile(#[trigger] skins@[q], self.skins@[q], q + 1),
            decreases self.skins@.len() - k,
        {
            proof {
                lemma_tile_fits_below(k as int + 1, self.skins@.len() as int + 1);
                lemma_tile_fits_below(k as int + 2, self.skins@.len() as int + 1);
            }
            let (left, top) = index_to_image_x_y(i);
            let (button_left, button_top) = index_to_button_x_y(i);
            skins.push(SkinIcon { path: self.skins[k].clone(), left, top, button_left, button_top });
            i += 1;
            k += 1;
        }
        proof {
            lemma_tile_fits_below(self.skins@.len() as int + 1, self.skins@.len() as int + 1);
        }
        let (add_left, add_top) = index_to_image_x_y(i);
        let (add_button_left, add_button_top) = index_to_button_x_y(i);
        Rendered { skins, add_top, add_left, add_button_left, add_button_top }
    }
}

/// What was chosen in the picker.
#[derive(Debug, PartialEq)]
pub enum Skin {
    /// The default skin.
    Steve,
    /// The listed skin of this file name.
    Custom(String),
    /// A skin is to be added.
    Add,
}

/// The mathematical value of a [`Skin`].
pub enum Choice {
    Steve,
    Custom(Seq<char>),
    Add,
}

impl View for Skin {
    type V = Choice;

    open spec fn view(&self) -> Choice {
        match self {
            Skin::Steve => Choice::Steve,
            Skin::Custom(name) => Choice::Custom(name@),
            Skin::Add => Choice::Add,
        }
    }
}

/// The text that percent-decoding gives: every `%` with two hexadecimal
/// digits behind it stands for one byte, and the bytes are read as UTF-8
/// with U+FFFD for what is not.
pub uninterp spec fn percent_decoded(input: Seq<u8>) -> Seq<char>;

/// Calls `percent_encoding::percent_decode` and `decode_utf8_lossy` on its
/// result. Trusted: the text is a function of the bytes.
#[verifier::external_body]
fn percent_decode_lossy(input: &[u8]) -> (text: String)
    ensures
        text@ == percent_decoded(input@),
{
    ::percent_encoding::percent_decode(input).decode_utf8_lossy().into_owned()
}

/// Whether `s` starts with `prefix`.
pub open spec fn is_prefix(prefix: Seq<u8>, s: Seq<u8>) -> bool {
    prefix.len() <= s.len() && s.subrange(0, prefix.len() as int) == prefix
}

/// What the address on which the picker was left stands for: the two fixed
/// addresses for the default skin and for adding one; any address outside
/// the picker's own pages for the default skin; any other for the skin
/// whose file name follows the picker's address, percent-encoded.
pub open spec fn choice_of(url: Seq<u8>) -> Choice {
    if url == STEVE_URL.spec_bytes() {
        Choice::Steve
    } else if url == ADD_URL.spec_bytes() {
        Choice::Add
    } else if !is_prefix(LOCALHOST.spec_bytes(), url) {
        Choice::Steve
    } else {
        Choice::Custom(percent_decoded(url.subrange(LOCALHOST.spec_bytes().len() as int, url.len() as int)))
    }
}

fn bytes_eq(a: &[u8], b: &[u8]) -> (same: bool)
    ensures
        same == (a@ == b@),
{
    if a.len() != b.len() {
        return false;
    }
    let mut i: usize = 0;
    while i < a.len()
        invariant
            a@.len() == b@.len(),
            i <= a@.len(),
            forall|k: int| 0 <= k < i ==> a@[k] == b@[k],
        decreases a@.len() - i,
    {
        if a[i] != b[i] {
            return false;
        }
        i += 1;
    }
    assert(a@ =~= b@);
    true
}

fn starts_with(s: &[u8], prefix: &[u8]) -> (b: bool)
    ensures
        b == is_prefix(prefix@, s@),
{
    if s.len() < prefix.len() {
        return false;
    }
    let head = vstd::slice::slice_subrange(s, 0, prefix.len());
    bytes_eq(head, prefix)
}

/// What the address on which the picker was left stands for.
pub fn menu_choice(url: &str) -> (choice: Skin)
    ensures
        choice@ == choice_of(url.spec_bytes()),
{
    let bytes = url.as_bytes();
    if bytes_eq(bytes, STEVE_URL.as_bytes()) {
        Skin::Steve
    } else if bytes_eq(bytes, ADD_URL.as_bytes()) {
        Skin::Add
    } else if !starts_with(bytes, LOCALHOST.as_bytes()) {
        Skin::Steve
    } else {
        let rest = vstd::slice::slice_subrange(bytes, LOCALHOST.len(), bytes.len());
        Skin::Custom(percent_decode_lossy(rest))
    }
}

/// What happened since the picker last asked for something.
pub enum PickerEvent {
    /// The menu was closed on this address.
    MenuClosed(String),
    /// The name field gave this text, or was cancelled.
    NameEntered(Option<String>),
    /// The download of the skin of `username` ended; `saved` tells whether
    /// the skin is now in the cache directory under the name of
    /// [`skin_file_name`].
    Downloaded { username: String, saved: bool },
}

/// What the picker asks for next.
pub enum PickerAction {
    /// Show the menu.
    ShowMenu,
    /// Ask for a player name.
    AskName,
    /// Download the skin of this player into the cache directory.
    Download(String),
    /// The choice is made: the file name of a skin in the cache directory,
    /// or `None` for the default skin.
    Done(Option<String>),
}

/// The file name under which the skin of a player is cached.
pub open spec fn spec_skin_file_name(username: Seq<char>) -> Seq<char> {
    username + ".png"@
}

/// The file name under which the skin of a player is cached.
pub fn skin_file_name(username: &str) -> (name: String)
    ensures
        name@ == spec_skin_file_name(username@),
{
    let mut name = String::from_str(username);
    name.append(".png");
    name
}

/// The address that answers with the profile id of a player.
pub fn profile_url(username: &str) -> (url: String)
    ensures
        url@ == "https://api.mojang.com/users/profiles/minecraft/"@ + username@,
{
    let mut url = String::from_str("https://api.mojang.com/users/profiles/minecraft/");
    url.append(username);
    url
}

/// The address that answers with the profile of a profile id.
pub fn session_url(id: &str) -> (url: String)
    ensures
        url@ == "https://sessionserver.mojang.com/session/minecraft/profile/"@ + id@,
{
    let mut url = String::from_str("https://sessionserver.mojang.com/session/minecraft/profile/");
    url.append(id);
    url
}

/// The bytes that a text in standard base64 stands for; `None` where it is
/// not base64.
pub uninterp spec fn base64_decoded(text: Seq<char>) -> Option<Seq<u8>>;

/// Calls `base64::decode`. Trusted: the result is a function of the text.
#[verifier::external_body]
fn base64_decode(text: &str) -> (bytes: Option<Vec<u8>>)
    ensures
        bytes matches Some(b) ==> base64_decoded(text@) == Some(b@),
        bytes is None ==> base64_decoded(text@) is None,
{
    match ::base64::decode(text) {
        Ok(bytes) => Some(bytes),
        Err(_) => None,
    }
}

/// The textures record of a profile, still encoded as JSON: the value of its
/// first property named `textures`, decoded from base64. `None` where the
/// profile has no such property or its value is not base64.
pub fn textures_json(session: &Session) -> (json: Option<Vec<u8>>)
    ensures
        json matches Some(bytes) ==> exists|i: int|
            is_textures_at(session.properties@, i) && base64_decoded(session.properties@[i].value@) == Some(
                bytes@,
            ),
        json is None ==> forall|i: int|
            is_textures_at(session.properties@, i) ==> base64_decoded(session.properties@[i].value@) is None,
{
    match session.textures_value() {
        None => None,
        Some(value) => {
            proof {
                let at = choose|i: int|
                    is_textures_at(session.properties@, i) && *value == session.properties@[i].value;
                assert forall|i: int| is_textures_at(session.properties@, i) implies i == at by {
                    if i < at {
                        assert(session.properties@[i].name@ != "textures"@);
                    } else if at < i {
                        assert(session.properties@[at].name@ != "textures"@);
                    }
                }
            }
            base64_decode(value.as_str())
        },
    }
}

impl Skins {
    /// One step of choosing a skin. The caller starts by showing the menu,
    /// does what each answer asks for and comes back with what happened,
    /// until the answer is [`PickerAction::Done`].
    ///
    /// A closed menu decides by its address. A cancelled name field leads
    /// back to the menu, an entered name to a download. A failed download
    /// leads back to the menu; a saved one ends the choice with the new
    /// file, which is added to the list.
    pub fn get_skin_path(&mut self, event: PickerEvent) -> (action: PickerAction)
        ensures
            (match event {
                PickerEvent::MenuClosed(url) => final(self).names() == old(self).names() && (match choice_of(
                    vstd::utf8::encode_utf8(url@),
                ) {
                    Choice::Steve => action matches PickerAction::Done(None),
                    Choice::Add => action is AskName,
                    Choice::Custom(name) => (action matches PickerAction::Done(Some(n)) && n@ == name),
                }),
                PickerEvent::NameEntered(None) => final(self).names() == old(self).names()
                    && action is ShowMenu,
                PickerEvent::NameEntered(Some(username)) => final(self).names() == old(self).names() && (
                action matches PickerAction::Download(u) && u == username),
                PickerEvent::Downloaded { username, saved } => if saved {
                    (action matches PickerAction::Done(Some(n)) && n@ == spec_skin_file_name(username@)
                        && final(self).names() == old(self).names().push(n))
                } else {
                    final(self).names() == old(self).names() && action is ShowMenu
                },
            }),
    {
        match event {
            PickerEvent::MenuClosed(url) => match menu_choice(url.as_str()) {
                Skin::Steve => PickerAction::Done(None),
                Skin::Custom(custom) => PickerAction::Done(Some(custom)),
                Skin::Add => PickerAction::AskName,
            },
            PickerEvent::NameEntered(None) => PickerAction::ShowMenu,
            PickerEvent::NameEntered(Some(username)) => PickerAction::Download(username),
            PickerEvent::Downloaded { username, saved } => {
                if saved {
                    let name = skin_file_name(username.as_str());
                    self.skins.push(name.clone());
                    PickerAction::Done(Some(name))
                } else {
                    PickerAction::ShowMenu
                }
            },
        }
    }
}

} // verus!
