use vstd::prelude::*;

verus! {

/// A colour as four premultiplied bytes: red, green, blue and alpha.
///
/// All four bytes zero is the "transparent" colour, which plot items use to say
/// that no colour was chosen for them.
#[derive(Clone, Copy, Debug, PartialEq, Eq, Structural)]
pub struct Rgba8 {
    pub r: u8,
    pub g: u8,
    pub b: u8,
    pub a: u8,
}

impl Rgba8 {
    /// All four channels are zero.
    pub open spec fn spec_is_transparent(&self) -> bool {
        self.r == 0 && self.g == 0 && self.b == 0 && self.a == 0
    }

    /// The fully transparent colour, meaning "no colour chosen".
    pub fn transparent() -> (c: Rgba8)
        ensures
            c.spec_is_transparent(),
    {
        Rgba8 { r: 0, g: 0, b: 0, a: 0 }
    }

    /// Whether this is the fully transparent colour.
    #[verifier::when_used_as_spec(spec_is_transparent)]
    pub fn is_transparent(&self) -> (b: bool)
        ensures
            b == self.spec_is_transparent(),
    {
        self.r == 0 && self.g == 0 && self.b == 0 && self.a == 0
    }
}

/// Only the colour whose four channels are all zero means "no colour chosen":
/// any other colour, opaque black among them, is a colour of its own.
pub proof fn lemma_transparent_is_all_zero(c: Rgba8)
    ensures
        c.spec_is_transparent() <==> c == (Rgba8 { r: 0, g: 0, b: 0, a: 0 }),
{
}

} // verus!
