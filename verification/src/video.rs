//! Colour handling shared by video front-ends: an indexed RGBA palette
//! with the stock palette the NES platform uses.

use vstd::prelude::*;

verus! {

/// The video filter a front-end applies when scaling.
#[derive(Debug, Clone, Copy, PartialEq, Eq, Structural)]
pub enum VideoFilter {
    Nearest,
    Linear,
    PixelPerfect,
}

/// An indexed palette of RGBA colours.
#[derive(Debug)]
pub struct ColorPalette {
    colors: Vec<[u8; 4]>,
}

/// The stock 64-entry NES palette.
pub open spec fn nes_palette() -> Seq<[u8; 4]> {
    seq![
        [84u8, 84u8, 84u8, 255u8],
        [0u8, 30u8, 116u8, 255u8],
        [8u8, 16u8, 144u8, 255u8],
        [48u8, 0u8, 136u8, 255u8],
        [68u8, 0u8, 100u8, 255u8],
        [92u8, 0u8, 48u8, 255u8],
        [84u8, 4u8, 0u8, 255u8],
        [60u8, 24u8, 0u8, 255u8],
        [32u8, 42u8, 0u8, 255u8],
        [8u8, 58u8, 0u8, 255u8],
        [0u8, 64u8, 0u8, 255u8],
        [0u8, 60u8, 0u8, 255u8],
        [0u8, 50u8, 60u8, 255u8],
        [0u8, 0u8, 0u8, 255u8],
        [0u8, 0u8, 0u8, 255u8],
        [0u8, 0u8, 0u8, 255u8],
        [152u8, 150u8, 152u8, 255u8],
        [8u8, 76u8, 196u8, 255u8],
        [48u8, 50u8, 236u8, 255u8],
        [92u8, 30u8, 228u8, 255u8],
        [136u8, 20u8, 176u8, 255u8],
        [160u8, 20u8, 100u8, 255u8],
        [152u8, 34u8, 32u8, 255u8],
        [120u8, 60u8, 0u8, 255u8],
        [84u8, 90u8, 0u8, 255u8],
        [40u8, 114u8, 0u8, 255u8],
        [8u8, 124u8, 0u8, 255u8],
        [0u8, 118u8, 40u8, 255u8],
        [0u8, 102u8, 120u8, 255u8],
        [0u8, 0u8, 0u8, 255u8],
        [0u8, 0u8, 0u8, 255u8],
        [0u8, 0u8, 0u8, 255u8],
        [236u8, 238u8, 236u8, 255u8],
        [76u8, 154u8, 236u8, 255u8],
        [120u8, 124u8, 236u8, 255u8],
        [176u8, 98u8, 236u8, 255u8],
        [228u8, 84u8, 236u8, 255u8],
        [236u8, 88u8, 180u8, 255u8],
        [236u8, 106u8, 100u8, 255u8],
        [212u8, 136u8, 32u8, 255u8],
        [160u8, 170u8, 0u8, 255u8],
        [116u8, 196u8, 0u8, 255u8],
        [76u8, 208u8, 32u8, 255u8],
        [56u8, 204u8, 108u8, 255u8],
        [56u8, 180u8, 204u8, 255u8],
        [60u8, 60u8, 60u8, 255u8],
        [0u8, 0u8, 0u8, 255u8],
        [0u8, 0u8, 0u8, 255u8],
        [236u8, 238u8, 236u8, 255u8],
        [168u8, 204u8, 236u8, 255u8],
        [188u8, 188u8, 236u8, 255u8],
        [212u8, 178u8, 236u8, 255u8],
        [236u8, 174u8, 236u8, 255u8],
        [236u8, 174u8, 212u8, 255u8],
        [236u8, 180u8, 176u8, 255u8],
        [228u8, 196u8, 144u8, 255u8],
        [204u8, 210u8, 120u8, 255u8],
        [180u8, 222u8, 120u8, 255u8],
        [168u8, 226u8, 144u8, 255u8],
        [152u8, 226u8, 180u8, 255u8],
        [160u8, 214u8, 228u8, 255u8],
        [160u8, 162u8, 160u8, 255u8],
        [0u8, 0u8, 0u8, 255u8],
        [0u8, 0u8, 0u8, 255u8],
    ]
}

impl View for ColorPalette {
    type V = Seq<[u8; 4]>;

    closed spec fn view(&self) -> Seq<[u8; 4]> {
        self.colors@
    }
}

impl ColorPalette {
    /// A palette of 256 opaque black entries.
    pub fn new() -> (r: ColorPalette)
        ensures
            r@.len() == 256,
            forall|i: int| 0 <= i < 256 ==> r@[i] == [0u8, 0u8, 0u8, 255u8],
    {
        let mut colors: Vec<[u8; 4]> = Vec::new();
        let mut i: usize = 0;
        while i < 256
            invariant
                i <= 256,
                colors@.len() == i,
                forall|k: int| 0 <= k < i ==> colors@[k] == [0u8, 0u8, 0u8, 255u8],
            decreases 256 - i,
        {
            colors.push([0, 0, 0, 255]);
            i = i + 1;
        }
        ColorPalette { colors }
    }

    /// Sets the colour at `index`; an index past the palette is ignored.
    pub fn set_color(&mut self, index: usize, r: u8, g: u8, b: u8, a: u8)
        ensures
            (index as int) < old(self)@.len() ==> final(self)@ == old(self)@.update(
                index as int,
                [r, g, b, a],
            ),
            (index as int) >= old(self)@.len() ==> final(self)@ == old(self)@,
    {
        if index < self.colors.len() {
            self.colors.set(index, [r, g, b, a]);
        }
    }

    /// The colour at `index`, or opaque black past the palette.
    pub fn get_color(&self, index: usize) -> (r: [u8; 4])
        ensures
            (index as int) < self@.len() ==> r == self@[index as int],
            (index as int) >= self@.len() ==> r == [0u8, 0u8, 0u8, 255u8],
    {
        if index < self.colors.len() {
            self.colors[index]
        } else {
            [0, 0, 0, 255]
        }
    }

    /// Loads the stock NES palette into the first 64 entries.
    pub fn load_nes_palette(&mut self)
        ensures
            final(self)@.len() == old(self)@.len(),
            forall|i: int|
                0 <= i < final(self)@.len() ==> final(self)@[i] == (if i < 64 {
                    nes_palette()[i]
                } else {
                    old(self)@[i]
                }),
    {
        let table: [[u8; 4]; 64] = [
            [84, 84, 84, 255],
            [0, 30, 116, 255],
            [8, 16, 144, 255],
            [48, 0, 136, 255],
            [68, 0, 100, 255],
            [92, 0, 48, 255],
            [84, 4, 0, 255],
            [60, 24, 0, 255],
            [32, 42, 0, 255],
            [8, 58, 0, 255],
            [0, 64, 0, 255],
            [0, 60, 0, 255],
            [0, 50, 60, 255],
            [0, 0, 0, 255],
            [0, 0, 0, 255],
            [0, 0, 0, 255],
            [152, 150, 152, 255],
            [8, 76, 196, 255],
            [48, 50, 236, 255],
            [92, 30, 228, 255],
            [136, 20, 176, 255],
            [160, 20, 100, 255],
            [152, 34, 32, 255],
            [120, 60, 0, 255],
            [84, 90, 0, 255],
            [40, 114, 0, 255],
            [8, 124, 0, 255],
            [0, 118, 40, 255],
            [0, 102, 120, 255],
            [0, 0, 0, 255],
            [0, 0, 0, 255],
            [0, 0, 0, 255],
            [236, 238, 236, 255],
            [76, 154, 236, 255],
            [120, 124, 236, 255],
            [176, 98, 236, 255],
            [228, 84, 236, 255],
            [236, 88, 180, 255],
            [236, 106, 100, 255],
            [212, 136, 32, 255],
            [160, 170, 0, 255],
            [116, 196, 0, 255],
            [76, 208, 32, 255],
            [56, 204, 108, 255],
            [56, 180, 204, 255],
            [60, 60, 60, 255],
            [0, 0, 0, 255],
            [0, 0, 0, 255],
            [236, 238, 236, 255],
            [168, 204, 236, 255],
            [188, 188, 236, 255],
            [212, 178, 236, 255],
            [236, 174, 236, 255],
            [236, 174, 212, 255],
            [236, 180, 176, 255],
            [228, 196, 144, 255],
            [204, 210, 120, 255],
            [180, 222, 120, 255],
            [168, 226, 144, 255],
            [152, 226, 180, 255],
            [160, 214, 228, 255],
            [160, 162, 160, 255],
            [0, 0, 0, 255],
            [0, 0, 0, 255],
        ];
        proof {
            assert(table@ =~= nes_palette());
        }
        let mut i: usize = 0;
        while i < 64
            invariant
                i <= 64,
                table@ == nes_palette(),
                self@.len() == old(self)@.len(),
                forall|k: int|
                    0 <= k < self@.len() ==> self@[k] == (if k < i {
                        nes_palette()[k]
                    } else {
                        old(self)@[k]
                    }),
            decreases 64 - i,
        {
            let c = table[i];
            self.set_color(i, c[0], c[1], c[2], c[3]);
            proof {
                assert(c =~= nes_palette()[i as int]);
            }
            i = i + 1;
        }
    }
}

} // verus!
