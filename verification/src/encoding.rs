use vstd::prelude::*;

verus! {

/// The shape-to-texture length invariant: a flattened shape encoding fills
/// a one-dimensional RGB texture, three color channels per texel, so its
/// float count must be a multiple of 3. This gives the texel count of a
/// well-formed encoding, and nothing for a malformed one.
pub open spec fn spec_rgb_texel_count(len_floats: int) -> Option<int> {
    if len_floats % 3 == 0 {
        Some(len_floats / 3)
    } else {
        None
    }
}

/// Checks the encoder's length invariant before a texture upload: returns
/// the number of RGB texels the encoding fills when its length is a
/// multiple of 3, and `None` for a malformed length. A malformed encoding
/// is a programming error in the shape model or the host, and the caller
/// treats it as fatal.
pub fn rgb_texel_count(len_floats: usize) -> (r: Option<usize>)
    ensures
        r matches Some(n) ==> spec_rgb_texel_count(len_floats as int) == Some(n as int),
        r is None ==> spec_rgb_texel_count(len_floats as int) is None,
        len_floats % 3 == 0 <==> r is Some,
{
    if len_floats % 3 == 0 {
        Some(len_floats / 3)
    } else {
        None
    }
}

/// The degenerate encoding is well formed: an empty shape flattens to zero
/// floats, which is zero whole texels — valid, drawing nothing.
pub proof fn lemma_empty_encoding_valid()
    ensures
        spec_rgb_texel_count(0) == Some(0int),
{
}

} // verus!
