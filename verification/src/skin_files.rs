//! The content ids that are served, and what each one asks for.

use crate::error::AssetError;
use crate::packer::{ContainerFormat, NUTEXB_FOOTER};
use crate::slots::SLOT_COUNT;
use vstd::prelude::*;
use vstd::string::StringExecFns;

verus! {

/// What a content id stands for.
#[derive(Clone, Copy, Debug, PartialEq, Eq, Structural)]
pub enum ContentKind {
    /// The texture of the character model.
    PrimaryTexture,
    /// The small icon shown in lists.
    ListIcon,
    /// The small portrait.
    PortraitSmall,
    /// The medium portrait.
    PortraitMedium,
    /// The large portrait.
    PortraitLarge,
}

/// Largest width and height of a model texture.
pub const MAX_WIDTH: usize = 1024;

pub const MAX_HEIGHT: usize = 1024;

/// Payload of the largest model texture.
pub const MAX_DATA_SIZE: usize = 0x40_0000;

/// Capacity of the buffer of a model texture: the largest payload and the footer.
pub const MAX_FILE_SIZE: usize = 0x40_00b0;

/// Capacity of the buffer of a list icon.
pub const MAX_STOCK_ICON_SIZE: usize = 0x9c68;

/// Capacity of the buffer of a large portrait.
pub const MAX_CHARA_3_SIZE: usize = 0x727068;

/// Capacity of the buffer of a small portrait.
pub const MAX_CHARA_4_SIZE: usize = 0x2d068;

/// Capacity of the buffer of a medium portrait.
pub const MAX_CHARA_6_SIZE: usize = 0x81068;

impl ContentKind {
    /// The fixed capacity of the buffers of this kind.
    pub open spec fn spec_capacity(self) -> usize {
        match self {
            ContentKind::PrimaryTexture => MAX_FILE_SIZE,
            ContentKind::ListIcon => MAX_STOCK_ICON_SIZE,
            ContentKind::PortraitSmall => MAX_CHARA_4_SIZE,
            ContentKind::PortraitMedium => MAX_CHARA_6_SIZE,
            ContentKind::PortraitLarge => MAX_CHARA_3_SIZE,
        }
    }

    /// The container format of this kind.
    pub open spec fn spec_format(self) -> ContainerFormat {
        match self {
            ContentKind::PrimaryTexture => ContainerFormat::Nutexb,
            _ => ContainerFormat::Bntx,
        }
    }

    /// The fixed capacity of the buffers of this kind.
    pub fn capacity(&self) -> (c: usize)
        ensures
            c == self.spec_capacity(),
    {
        match self {
            ContentKind::PrimaryTexture => MAX_FILE_SIZE,
            ContentKind::ListIcon => MAX_STOCK_ICON_SIZE,
            ContentKind::PortraitSmall => MAX_CHARA_4_SIZE,
            ContentKind::PortraitMedium => MAX_CHARA_6_SIZE,
            ContentKind::PortraitLarge => MAX_CHARA_3_SIZE,
        }
    }

    /// The container format of this kind.
    pub fn format(&self) -> (f: ContainerFormat)
        ensures
            f == self.spec_format(),
    {
        match self {
            ContentKind::PrimaryTexture => ContainerFormat::Nutexb,
            _ => ContainerFormat::Bntx,
        }
    }
}

/// The capacity of a model texture is the largest payload and the footer.
pub proof fn lemma_texture_capacity()
    ensures
        MAX_DATA_SIZE == MAX_WIDTH * MAX_HEIGHT * 4,
        MAX_FILE_SIZE == MAX_DATA_SIZE + NUTEXB_FOOTER,
{
}

/// The part of an asset path before the slot digit.
pub open spec fn path_prefix(kind: ContentKind) -> Seq<char> {
    match kind {
        ContentKind::PrimaryTexture => "fighter/pickel/model/body/c0"@,
        ContentKind::ListIcon => "ui/replace_patch/chara/chara_2/chara_2_pickel_0"@,
        ContentKind::PortraitSmall => "ui/replace_patch/chara/chara_4/chara_4_pickel_0"@,
        ContentKind::PortraitMedium => "ui/replace_patch/chara/chara_6/chara_6_pickel_0"@,
        ContentKind::PortraitLarge => "ui/replace_patch/chara/chara_3/chara_3_pickel_0"@,
    }
}

/// The part of an asset path after the slot digit.
pub open spec fn path_suffix(kind: ContentKind) -> Seq<char> {
    match kind {
        ContentKind::PrimaryTexture => "/def_pickel_001_col.nutexb"@,
        _ => ".bntx"@,
    }
}

/// The digit of a slot.
pub open spec fn slot_digit(slot: usize) -> Seq<char> {
    if slot == 0 {
        "0"@
    } else if slot == 1 {
        "1"@
    } else if slot == 2 {
        "2"@
    } else if slot == 3 {
        "3"@
    } else if slot == 4 {
        "4"@
    } else if slot == 5 {
        "5"@
    } else if slot == 6 {
        "6"@
    } else {
        "7"@
    }
}

/// The path of the asset of a kind for a slot, as the host names it.
pub open spec fn spec_content_path(kind: ContentKind, slot: usize) -> Seq<char> {
    path_prefix(kind) + slot_digit(slot) + path_suffix(kind)
}

/// The path of the asset of a kind for a slot, as the host names it. The
/// content id of the asset is derived from this path.
pub fn content_path(kind: ContentKind, slot: usize) -> (path: String)
    requires
        slot < SLOT_COUNT,
    ensures
        path@ == spec_content_path(kind, slot),
{
    let prefix = match kind {
        ContentKind::PrimaryTexture => "fighter/pickel/model/body/c0",
        ContentKind::ListIcon => "ui/replace_patch/chara/chara_2/chara_2_pickel_0",
        ContentKind::PortraitSmall => "ui/replace_patch/chara/chara_4/chara_4_pickel_0",
        ContentKind::PortraitMedium => "ui/replace_patch/chara/chara_6/chara_6_pickel_0",
        ContentKind::PortraitLarge => "ui/replace_patch/chara/chara_3/chara_3_pickel_0",
    };
    let digit = if slot == 0 {
        "0"
    } else if slot == 1 {
        "1"
    } else if slot == 2 {
        "2"
    } else if slot == 3 {
        "3"
    } else if slot == 4 {
        "4"
    } else if slot == 5 {
        "5"
    } else if slot == 6 {
        "6"
    } else {
        "7"
    };
    let suffix = match kind {
        ContentKind::PrimaryTexture => "/def_pickel_001_col.nutexb",
        _ => ".bntx",
    };
    let mut path = String::from_str(prefix);
    path.append(digit);
    path.append(suffix);
    path
}

/// What one content id asks for.
#[derive(Clone, Copy, Debug, PartialEq, Eq, Structural)]
pub struct ContentDescriptor {
    pub id: u64,
    pub kind: ContentKind,
    pub slot: usize,
    pub capacity: usize,
    pub format: ContainerFormat,
}

impl ContentDescriptor {
    /// The slot exists, and capacity and format are those of the kind.
    pub open spec fn wf(self) -> bool {
        &&& self.slot < SLOT_COUNT
        &&& self.capacity == self.kind.spec_capacity()
        &&& self.format == self.kind.spec_format()
    }
}

/// The descriptors of all content ids that are served, one for each id.
pub struct ContentTable {
    descriptors: Vec<ContentDescriptor>,
}

impl View for ContentTable {
    type V = Seq<ContentDescriptor>;

    closed spec fn view(&self) -> Seq<ContentDescriptor> {
        self.descriptors@
    }
}

/// Whether a descriptor of `id` is among `table`.
pub open spec fn has_id(table: Seq<ContentDescriptor>, id: u64) -> bool {
    exists|i: int| 0 <= i < table.len() && (#[trigger] table[i]).id == id
}

/// Every descriptor is well formed and no id occurs twice.
pub open spec fn table_wf(table: Seq<ContentDescriptor>) -> bool {
    &&& forall|i: int| 0 <= i < table.len() ==> (#[trigger] table[i]).wf()
    &&& forall|i: int, j: int|
        0 <= i < j < table.len() ==> (#[trigger] table[i]).id != (#[trigger] table[j]).id
}

impl ContentTable {
    /// A table without descriptors.
    pub fn new() -> (table: ContentTable)
        ensures
            table@.len() == 0,
            table_wf(table@),
    {
        ContentTable { descriptors: Vec::new() }
    }

    /// Number of descriptors.
    pub fn len(&self) -> (n: usize)
        ensures
            n == self@.len(),
    {
        self.descriptors.len()
    }

    /// Adds the descriptor of `id`, with the capacity and format of its kind.
    /// Returns `false`, changing nothing, when `id` has a descriptor already.
    pub fn register(&mut self, id: u64, kind: ContentKind, slot: usize) -> (added: bool)
        requires
            table_wf(old(self)@),
            slot < SLOT_COUNT,
        ensures
            table_wf(final(self)@),
            added == !has_id(old(self)@, id),
            !added ==> final(self)@ == old(self)@,
            added ==> final(self)@ == old(self)@.push(
                ContentDescriptor {
                    id,
                    kind,
                    slot,
                    capacity: kind.spec_capacity(),
                    format: kind.spec_format(),
                },
            ),
    {
        if self.resolve(id).is_some() {
            return false;
        }
        let d = ContentDescriptor { id, kind, slot, capacity: kind.capacity(), format: kind.format() };
        self.descriptors.push(d);
        true
    }

    /// The descriptor of `id`, if it has one.
    pub fn resolve(&self, id: u64) -> (found: Option<ContentDescriptor>)
        ensures
            found is Some <==> has_id(self@, id),
            found matches Some(d) ==> d.id == id && self@.contains(d),
    {
        let mut i: usize = 0;
        while i < self.descriptors.len()
            invariant
                i <= self.descriptors@.len(),
                forall|k: int| 0 <= k < i ==> (#[trigger] self.descriptors@[k]).id != id,
            decreases self.descriptors@.len() - i,
        {
            if self.descriptors[i].id == id {
                return Some(self.descriptors[i]);
            }
            i += 1;
        }
        None
    }
}

/// What asking a table for the descriptor of `id` as an asset of `kind`
/// gives: the descriptor of the id where it is of that kind.
pub open spec fn resolved_as(table: Seq<ContentDescriptor>, id: u64, kind: ContentKind) -> Option<
    ContentDescriptor,
> {
    if exists|i: int| 0 <= i < table.len() && (#[trigger] table[i]).id == id && table[i].kind == kind {
        let i = choose|i: int| 0 <= i < table.len() && (#[trigger] table[i]).id == id && table[i].kind == kind;
        Some(table[i])
    } else {
        None
    }
}

impl ContentTable {
    /// The descriptor of `id` where the id stands for an asset of `kind`. An
    /// id that has no descriptor, or one of another kind, is not served.
    pub fn resolve_kind(&self, id: u64, kind: ContentKind) -> (r: Result<ContentDescriptor, AssetError>)
        requires
            table_wf(self@),
        ensures
            r matches Ok(d) ==> resolved_as(self@, id, kind) == Some(d) && self@.contains(d) && d.id == id
                && d.kind == kind && d.wf(),
            r matches Err(e) ==> resolved_as(self@, id, kind) is None && e == AssetError::UnknownContent,
    {
        match self.resolve(id) {
            Some(d) => {
                proof {
                    let at = choose|i: int| 0 <= i < self@.len() && self@[i] == d;
                    assert forall|i: int| 0 <= i < self@.len() && (#[trigger] self@[i]).id == id implies i
                        == at by {
                        if i < at {
                            assert(self@[i].id != self@[at].id);
                        } else if at < i {
                            assert(self@[at].id != self@[i].id);
                        }
                    }
                    assert(self@[at].id == id);
                }
                if d.kind == kind {
                    Ok(d)
                } else {
                    Err(AssetError::UnknownContent)
                }
            },
            None => Err(AssetError::UnknownContent),
        }
    }
}

/// In a well-formed table an id has at most one descriptor, so what
/// [`ContentTable::resolve`] finds is the descriptor of the id.
pub proof fn lemma_descriptor_unique(table: Seq<ContentDescriptor>, a: ContentDescriptor, b: ContentDescriptor)
    requires
        table_wf(table),
        table.contains(a),
        table.contains(b),
        a.id == b.id,
    ensures
        a == b,
{
    let i = choose|i: int| 0 <= i < table.len() && table[i] == a;
    let j = choose|j: int| 0 <= j < table.len() && table[j] == b;
    if i < j {
        assert(table[i].id != table[j].id);
    } else if j < i {
        assert(table[j].id != table[i].id);
    }
}

} // verus!
