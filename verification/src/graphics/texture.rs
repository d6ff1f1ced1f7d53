use vstd::prelude::*;

verus! {

/// The textures a scene can refer to, numbered in the order in which they are
/// uploaded to the GPU.
#[derive(Clone, Copy, PartialEq, Eq, Debug, Structural)]
pub enum TextureId {
    NONE,
    ACCRETION,
    SKY,
}

/// The position of a texture in the texture table.
pub open spec fn texture_index(id: TextureId) -> nat {
    match id {
        TextureId::NONE => 0,
        TextureId::ACCRETION => 1,
        TextureId::SKY => 2,
    }
}

impl TextureId {
    /// Number of textures in the table.
    pub const COUNT: usize = 3;

    /// The position of this texture in the texture table.
    pub fn as_index(self) -> (index: usize)
        ensures
            index == texture_index(self),
            index < Self::COUNT,
    {
        match self {
            TextureId::NONE => 0,
            TextureId::ACCRETION => 1,
            TextureId::SKY => 2,
        }
    }
}

/// Every texture has its own place in the table.
pub proof fn lemma_texture_index_injective(a: TextureId, b: TextureId)
    ensures
        texture_index(a) < TextureId::COUNT,
        texture_index(a) == texture_index(b) ==> a == b,
{
}

/// One texture for each `TextureId`, looked up by its position in the table.
/// The entry of `TextureId::NONE` is the fully transparent texture of objects
/// that have none of their own.
pub struct Textures<T> {
    textures: [T; 3],
}

impl<T> Textures<T> {
    /// The texture stored for `id`.
    pub closed spec fn texture(&self, id: TextureId) -> T {
        self.textures@[texture_index(id) as int]
    }

    /// Builds the table from the transparent texture, the accretion disc and the sky.
    pub fn new(none: T, accretion: T, sky: T) -> (textures: Self)
        ensures
            textures.texture(TextureId::NONE) == none,
            textures.texture(TextureId::ACCRETION) == accretion,
            textures.texture(TextureId::SKY) == sky,
    {
        Textures { textures: [none, accretion, sky] }
    }

    /// The texture stored for `id`.
    pub fn get(&self, id: TextureId) -> (texture: &T)
        ensures
            *texture == self.texture(id),
    {
        &self.textures[id.as_index()]
    }
}

/// Looking up a texture in a freshly built table gives back the texture that was
/// given for that id.
pub proof fn lemma_textures_new_get<T>(none: T, accretion: T, sky: T, textures: Textures<T>, id: TextureId)
    requires
        textures.texture(TextureId::NONE) == none,
        textures.texture(TextureId::ACCRETION) == accretion,
        textures.texture(TextureId::SKY) == sky,
    ensures
        textures.texture(id) == match id {
            TextureId::NONE => none,
            TextureId::ACCRETION => accretion,
            TextureId::SKY => sky,
        },
{
}

} // verus!
