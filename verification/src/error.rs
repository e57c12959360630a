//! Why a generation request can fail.

use vstd::prelude::*;

verus! {

/// The ways a single request can fail. None of them is fatal to the process:
/// the caller reports the request as not handled.
#[derive(Clone, Copy, Debug, PartialEq, Eq, Structural)]
pub enum AssetError {
    /// The content id belongs to none of the registered descriptors.
    UnknownContent,
    /// No source image is selected for the slot, or the selected file could not
    /// be read or decoded.
    NoSelection,
    /// The source image does not have the shape the requested content needs.
    Precondition,
    /// The serialised image is larger than the fixed capacity of the content id.
    PackingOverflow,
    /// Palette extraction gave no colours.
    PaletteExtraction,
    /// The container writer rejected the image.
    Serialization,
}

impl AssetError {
    /// A short description for logs.
    pub open spec fn spec_message(self) -> Seq<char> {
        match self {
            AssetError::UnknownContent => "content id is not registered"@,
            AssetError::NoSelection => "no source image is available"@,
            AssetError::Precondition => "source image has the wrong shape"@,
            AssetError::PackingOverflow => "serialised image exceeds the fixed capacity"@,
            AssetError::PaletteExtraction => "palette extraction gave no colours"@,
            AssetError::Serialization => "container writer rejected the image"@,
        }
    }

    /// A short description for logs.
    pub fn message(&self) -> (s: &'static str)
        ensures
            s@ == self.spec_message(),
    {
        match self {
            AssetError::UnknownContent => "content id is not registered",
            AssetError::NoSelection => "no source image is available",
            AssetError::Precondition => "source image has the wrong shape",
            AssetError::PackingOverflow => "serialised image exceeds the fixed capacity",
            AssetError::PaletteExtraction => "palette extraction gave no colours",
            AssetError::Serialization => "container writer rejected the image",
        }
    }
}

} // verus!
