//! Packed 32-bit RGBA colours.

use vstd::prelude::*;

verus! {

/// A colour packed into 32 bits: red in the lowest byte, then green, blue and
/// alpha in the highest.
#[derive(Clone, Copy, Debug, PartialEq, Eq, PartialOrd, Structural)]
pub struct ImguiColor(pub u32);

/// The four channels of a packed colour, red first.
pub open spec fn channels_of(packed: u32) -> Seq<u8> {
    seq![
        (packed & 0xff) as u8,
        ((packed >> 8) & 0xff) as u8,
        ((packed >> 16) & 0xff) as u8,
        ((packed >> 24) & 0xff) as u8,
    ]
}

/// The packed value of four channels, red first.
pub open spec fn packed_of(r: u8, g: u8, b: u8, a: u8) -> u32 {
    (r as u32) | ((g as u32) << 8) | ((b as u32) << 16) | ((a as u32) << 24)
}

impl From<u32> for ImguiColor {
    fn from(from: u32) -> (color: Self)
        ensures
            color.0 == from,
    {
        ImguiColor(from)
    }
}

impl vstd::std_specs::convert::FromSpecImpl<u32> for ImguiColor {
    open spec fn obeys_from_spec() -> bool {
        true
    }

    open spec fn from_spec(from: u32) -> Self {
        ImguiColor(from)
    }
}

impl ImguiColor {
    /// Packs four 8-bit channels, red first, into one colour.
    pub fn from_channels(channels: [u8; 4]) -> (color: Self)
        ensures
            color.0 == packed_of(channels[0], channels[1], channels[2], channels[3]),
            channels_of(color.0) == channels@,
    {
        let r: u8 = channels[0];
        let g: u8 = channels[1];
        let b: u8 = channels[2];
        let a: u8 = channels[3];
        let packed: u32 = (r as u32) | ((g as u32) << 8) | ((b as u32) << 16) | ((a as u32) << 24);
        proof {
            lemma_unpack_packed(r, g, b, a);
            assert(channels_of(packed) =~= channels@);
        }
        ImguiColor(packed)
    }

    /// The four 8-bit channels of the colour, red first.
    pub fn channels(&self) -> (out: [u8; 4])
        ensures
            out@ == channels_of(self.0),
    {
        let src: u32 = self.0;
        let out: [u8; 4] = [
            (src & 0xff) as u8,
            ((src >> 8) & 0xff) as u8,
            ((src >> 16) & 0xff) as u8,
            ((src >> 24) & 0xff) as u8,
        ];
        assert(out@ =~= channels_of(src));
        out
    }
}

/// The four channels of a packed colour, each in `0..=255`, red first: the
/// numerators of the normalised colour over the denominator 255.
pub fn normalize(src: u32) -> (out: [u8; 4])
    ensures
        out@ == channels_of(src),
{
    ImguiColor(src).channels()
}

/// Unpacking the packed value of four channels gives the four channels back.
pub proof fn lemma_unpack_packed(r: u8, g: u8, b: u8, a: u8)
    ensures
        channels_of(packed_of(r, g, b, a)) == seq![r, g, b, a],
{
    let p = packed_of(r, g, b, a);
    assert((p & 0xff) as u8 == r && ((p >> 8) & 0xff) as u8 == g && ((p >> 16) & 0xff) as u8 == b
        && ((p >> 24) & 0xff) as u8 == a) by (bit_vector)
        requires
            p == (r as u32) | ((g as u32) << 8) | ((b as u32) << 16) | ((a as u32) << 24),
    ;
}

/// Packing the four channels of a colour gives the colour back.
pub proof fn lemma_pack_unpacked(packed: u32)
    ensures
        packed_of(
            channels_of(packed)[0],
            channels_of(packed)[1],
            channels_of(packed)[2],
            channels_of(packed)[3],
        ) == packed,
{
    assert(((packed & 0xff) as u8 as u32) | ((((packed >> 8) & 0xff) as u8 as u32) << 8) | ((((
    packed >> 16) & 0xff) as u8 as u32) << 16) | ((((packed >> 24) & 0xff) as u8 as u32) << 24)
        == packed) by (bit_vector);
}

} // verus!
