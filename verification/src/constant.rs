//! The per-frame transform that is pushed to the pipeline's constant block.

use vstd::prelude::*;

verus! {

/// Bit pattern of the 32-bit floating-point value one.
pub const ONE: u32 = 0x3f80_0000;

/// Bit pattern of the 32-bit floating-point value zero.
pub const ZERO: u32 = 0;

/// Bit pattern of the 32-bit floating-point value minus one.
pub const MINUS_ONE: u32 = 0xbf80_0000;

/// The transform from UI pixels to normalised device coordinates: a scale
/// and a translation, each a pair of 32-bit floating-point values carried as
/// their bit patterns, which is how they are pushed.
#[derive(Clone, Copy, Debug, PartialEq, Eq, Structural)]
pub struct ImguiPushConstant {
    scale_x: u32,
    scale_y: u32,
    trans_x: u32,
    trans_y: u32,
}

impl ImguiPushConstant {
    /// The four words of the constant block: scale, then translation.
    pub closed spec fn words(&self) -> Seq<u32> {
        seq![self.scale_x, self.scale_y, self.trans_x, self.trans_y]
    }

    /// A constant with the scale and translation given.
    pub fn new(scale_x: u32, scale_y: u32, trans_x: u32, trans_y: u32) -> (out: Self)
        ensures
            out.words() == seq![scale_x, scale_y, trans_x, trans_y],
    {
        ImguiPushConstant { scale_x, scale_y, trans_x, trans_y }
    }

    /// The constant block as it is pushed.
    pub fn raw(&self) -> (out: [u32; 4])
        ensures
            out@ == self.words(),
    {
        let out = [self.scale_x, self.scale_y, self.trans_x, self.trans_y];
        assert(out@ =~= self.words());
        out
    }

    /// The scale.
    pub fn scale(&self) -> (out: (u32, u32))
        ensures
            out.0 == self.words()[0],
            out.1 == self.words()[1],
    {
        (self.scale_x, self.scale_y)
    }

    /// The translation.
    pub fn translation(&self) -> (out: (u32, u32))
        ensures
            out.0 == self.words()[2],
            out.1 == self.words()[3],
    {
        (self.trans_x, self.trans_y)
    }

    /// Replaces the scale and keeps the translation.
    pub fn set_scale(&mut self, scale: (u32, u32))
        ensures
            final(self).words() == seq![
                scale.0,
                scale.1,
                old(self).words()[2],
                old(self).words()[3],
            ],
    {
        self.scale_x = scale.0;
        self.scale_y = scale.1;
    }

    /// Replaces the translation and keeps the scale.
    pub fn set_translation(&mut self, translation: (u32, u32))
        ensures
            final(self).words() == seq![
                old(self).words()[0],
                old(self).words()[1],
                translation.0,
                translation.1,
            ],
    {
        self.trans_x = translation.0;
        self.trans_y = translation.1;
    }

    /// Sets the transform of a frame: the scale given, which is two over the
    /// display size, and the translation by minus one on both axes.
    pub fn set_frame(&mut self, scale: (u32, u32))
        ensures
            final(self).words() == seq![scale.0, scale.1, MINUS_ONE, MINUS_ONE],
    {
        self.set_scale(scale);
        self.set_translation((MINUS_ONE, MINUS_ONE));
    }
}

impl Default for ImguiPushConstant {
    /// The identity: scale one, translation zero.
    fn default() -> (out: Self)
        ensures
            out.words() == seq![ONE, ONE, ZERO, ZERO],
    {
        ImguiPushConstant { scale_x: ONE, scale_y: ONE, trans_x: ZERO, trans_y: ZERO }
    }
}

} // verus!
