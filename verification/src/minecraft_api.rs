//! The records that the profile service answers with.

use vstd::prelude::*;
use vstd::string::StringExecFns;

verus! {

/// A player name and the id of its profile.
pub struct NameId {
    pub name: String,
    pub id: String,
}

/// A profile with its properties.
pub struct Session {
    pub name: String,
    pub id: String,
    pub properties: Vec<Prop>,
}

/// One property of a profile.
pub struct Prop {
    pub name: String,
    pub value: String,
}

/// The decoded value of the property `textures`.
pub struct Textures {
    pub timestamp: usize,
    pub profile_id: String,
    pub profile_name: String,
    pub textures: TexturesInner,
}

pub struct TexturesInner {
    pub skin: TextureSkin,
}

/// Where the skin of a profile can be fetched.
pub struct TextureSkin {
    pub url: String,
    pub metadata: Option<SkinMetadata>,
}

pub struct SkinMetadata {
    pub model: String,
}

/// Whether property `i` is the first one named `textures`.
pub open spec fn is_textures_at(properties: Seq<Prop>, i: int) -> bool {
    &&& 0 <= i < properties.len()
    &&& properties[i].name@ == "textures"@
    &&& forall|k: int| 0 <= k < i ==> (#[trigger] properties[k]).name@ != "textures"@
}

impl Session {
    /// The value of the first property named `textures`, which holds the
    /// profile's textures in base64.
    pub fn textures_value(&self) -> (value: Option<&String>)
        ensures
            value matches Some(v) ==> exists|i: int|
                is_textures_at(self.properties@, i) && *v == self.properties@[i].value,
            value is None ==> forall|i: int|
                0 <= i < self.properties@.len() ==> (#[trigger] self.properties@[i]).name@ != "textures"@,
    {
        let wanted = String::from_str("textures");
        let mut i: usize = 0;
        while i < self.properties.len()
            invariant
                i <= self.properties@.len(),
                wanted@ == "textures"@,
                forall|k: int| 0 <= k < i ==> (#[trigger] self.properties@[k]).name@ != "textures"@,
            decreases self.properties@.len() - i,
        {
            if self.properties[i].name == wanted {
                assert(is_textures_at(self.properties@, i as int));
                return Some(&self.properties[i].value);
            }
            i += 1;
        }
        None
    }
}

impl Textures {
    /// The address of the skin image.
    pub fn skin_url(&self) -> (url: &String)
        ensures
            *url == self.textures.skin.url,
    {
        &self.textures.skin.url
    }
}

} // verus!
