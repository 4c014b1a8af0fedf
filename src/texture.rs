use vstd::prelude::*;

verus! {

/// The images that placed objects are drawn with.
#[derive(Clone, Copy, Debug, PartialEq, Eq, Structural, Hash)]
pub enum Texture {
    Brick,
    Hammer,
}

/// The asset path of each image.
pub open spec fn texture_path_spec(t: Texture) -> Seq<char> {
    match t {
        Texture::Brick => "brick.png"@,
        Texture::Hammer => "hammer.png"@,
    }
}

/// The asset path to load for a texture.
pub fn texture_path(t: Texture) -> (r: &'static str)
    ensures
        r@ == texture_path_spec(t),
{
    match t {
        Texture::Brick => "brick.png",
        Texture::Hammer => "hammer.png",
    }
}

} // verus!
