//! A framebuffer: a grid of 32-bit pixels whose colors are packed according
//! to per-component masks.
use vstd::prelude::*;
use vstd::std_specs::bits::{u32_trailing_zeros, axiom_u32_trailing_zeros};

verus! {

/// A color with 8 bits red, green, and blue components.
#[derive(Debug, Clone, Copy, PartialEq, Eq, Structural, PartialOrd, Ord, Hash)]
pub struct Color {
    pub r: u8,
    pub g: u8,
    pub b: u8,
}

impl Color {
    /// Black.
    pub fn black() -> (c: Self)
        ensures
            c == (Color { r: 0, g: 0, b: 0 }),
    {
        Self { r: 0, g: 0, b: 0 }
    }

    /// White.
    pub fn white() -> (c: Self)
        ensures
            c == (Color { r: 255, g: 255, b: 255 }),
    {
        Self { r: 255, g: 255, b: 255 }
    }
}

/// A component of a color placed under its mask: shifted to the mask's lowest
/// set bit, then masked.
pub open spec fn placed(component: u8, mask: u32) -> u32 {
    ((component as u32) << u32_trailing_zeros(mask)) & mask
}

/// The pixel value of a color, given the masks of the red, green and blue
/// components.
pub open spec fn pixel_of(color: Color, red_mask: u32, green_mask: u32, blue_mask: u32) -> u32 {
    placed(color.r, red_mask) | placed(color.g, green_mask) | placed(color.b, blue_mask)
}

/// Why a framebuffer format is not supported.
#[derive(Debug, Clone, Copy, PartialEq, Eq, Structural)]
pub enum FormatError {
    /// The pixels are not 32 bits wide.
    BitsPerPixel,
    /// The green component is not 8 bits wide.
    GreenMask,
    /// The blue component is not 8 bits wide.
    BlueMask,
    /// The red component is not 8 bits wide.
    RedMask,
}

/// What checking a framebuffer format gives: the first unsupported property,
/// the pixel size first, then the green, blue and red mask sizes.
pub open spec fn format_check(bpp: u16, red_size: u8, green_size: u8, blue_size: u8) -> Result<(), FormatError> {
    if bpp != 32 {
        Err(FormatError::BitsPerPixel)
    } else if green_size != 8 {
        Err(FormatError::GreenMask)
    } else if blue_size != 8 {
        Err(FormatError::BlueMask)
    } else if red_size != 8 {
        Err(FormatError::RedMask)
    } else {
        Ok(())
    }
}

/// Checks that a framebuffer format is supported: 32 bits per pixel, with
/// 8-bit red, green and blue components.
pub fn check_format(bpp: u16, red_size: u8, green_size: u8, blue_size: u8) -> (r: Result<(), FormatError>)
    ensures
        r == format_check(bpp, red_size, green_size, blue_size),
{
    if bpp != 32 {
        Err(FormatError::BitsPerPixel)
    } else if green_size != 8 {
        Err(FormatError::GreenMask)
    } else if blue_size != 8 {
        Err(FormatError::BlueMask)
    } else if red_size != 8 {
        Err(FormatError::RedMask)
    } else {
        Ok(())
    }
}

/// The mask of a color component of `size` bits starting at bit `shift`.
pub open spec fn spec_color_mask(size: u8, shift: u8) -> u32 {
    (((1u32 << size) - 1) as u32) << shift
}

/// Computes the mask of a color component of `size` bits starting at bit
/// `shift`, both below 32 (the shifts overflow otherwise). Bits shifted past
/// bit 31 are lost.
pub fn color_mask(size: u8, shift: u8) -> (r: u32)
    requires
        size < 32,
        shift < 32,
    ensures
        r == spec_color_mask(size, shift),
{
    let one: u32 = 1;
    let bits = size as u32;
    assert((one << bits) >= 1) by (bit_vector)
        requires
            one == 1,
            bits < 32,
    ;
    let ones = (one << bits) - 1;
    ones << shift as u32
}

/// A framebuffer: `width * height` pixels of `bpp` bytes, whose color
/// components are packed under the red, green and blue masks.
///
/// Only 32-bit framebuffers with 8-bit red, green, and blue masks are
/// supported: the most common format, but older systems that use 24-bit
/// framebuffers to save memory are not.
pub struct Framebuffer<'a> {
    /// The width of the framebuffer, in pixels.
    pub width: usize,
    /// The height of the framebuffer, in pixels.
    pub height: usize,
    /// The number of bytes per pixel.
    pub bpp: usize,
    /// The red mask to extract the red component from a pixel.
    pub red_mask: u32,
    /// The green mask to extract the green component from a pixel.
    pub green_mask: u32,
    /// The blue mask to extract the blue component from a pixel.
    pub blue_mask: u32,
    /// The pixels, line by line.
    pub buffer: &'a mut [u32],
}

impl Framebuffer<'static> {
    /// Creates a placeholder framebuffer with no buffer and all fields zeroed,
    /// for when a framebuffer object is needed but there is no framebuffer to
    /// initialize it with.
    pub fn none() -> (r: Self)
        ensures
            r.buffer@.len() == 0,
            r.width == 0,
            r.height == 0,
            r.bpp == 0,
            r.red_mask == 0,
            r.green_mask == 0,
            r.blue_mask == 0,
    {
        Self { buffer: &mut [], width: 0, height: 0, bpp: 0, red_mask: 0, green_mask: 0, blue_mask: 0 }
    }
}

impl Default for Framebuffer<'static> {
    /// The placeholder framebuffer.
    fn default() -> (r: Self)
        ensures
            r.buffer@.len() == 0,
            r.width == 0,
            r.height == 0,
            r.bpp == 0,
            r.red_mask == 0,
            r.green_mask == 0,
            r.blue_mask == 0,
    {
        Self::none()
    }
}

impl<'a> Framebuffer<'a> {
    /// The masks are not empty, so that colors can be placed under them.
    pub open spec fn has_masks(&self) -> bool {
        &&& self.red_mask != 0
        &&& self.green_mask != 0
        &&& self.blue_mask != 0
    }

    /// The pixel value of `color` in this framebuffer.
    pub open spec fn pixel(&self, color: Color) -> u32 {
        pixel_of(color, self.red_mask, self.green_mask, self.blue_mask)
    }

    /// The framebuffer has pixels and sizes.
    pub open spec fn spec_is_valid(&self) -> bool {
        self.buffer@.len() > 0 && self.width > 0 && self.height > 0 && self.bpp > 0
    }

    /// Tells whether the framebuffer is valid: it has pixels and sizes. An
    /// invalid framebuffer is probably not initialized or does not exist.
    pub fn is_valid(&self) -> (r: bool)
        ensures
            r == self.spec_is_valid(),
    {
        self.buffer.len() != 0 && self.width > 0 && self.height > 0 && self.bpp > 0
    }

    /// Computes the 32-bit pixel value of a color: each component is shifted
    /// to the lowest set bit of its mask and masked. The masks must not be
    /// empty (the shift overflows otherwise).
    pub fn make_pixel(&self, color: Color) -> (r: u32)
        requires
            self.has_masks(),
        ensures
            r == self.pixel(color),
    {
        proof {
            axiom_u32_trailing_zeros(self.red_mask);
            axiom_u32_trailing_zeros(self.green_mask);
            axiom_u32_trailing_zeros(self.blue_mask);
        }
        let green_shift = self.green_mask.trailing_zeros();
        let blue_shift = self.blue_mask.trailing_zeros();
        let red_shift = self.red_mask.trailing_zeros();
        let r = color.r as u32;
        let g = color.g as u32;
        let b = color.b as u32;
        (r << red_shift) & self.red_mask | (g << green_shift) & self.green_mask | (b << blue_shift)
            & self.blue_mask
    }

    /// Sets the pixel at the given coordinates, which must be on the screen
    /// and within the buffer.
    pub fn draw_pixel_unsafe(&mut self, x: usize, y: usize, c: Color)
        requires
            old(self).has_masks(),
            x < old(self).width,
            y < old(self).height,
            y * old(self).width + x < old(self).buffer@.len(),
        ensures
            final(self).width == old(self).width,
            final(self).height == old(self).height,
            final(self).bpp == old(self).bpp,
            final(self).red_mask == old(self).red_mask,
            final(self).green_mask == old(self).green_mask,
            final(self).blue_mask == old(self).blue_mask,
            final(self).buffer@ == old(self).buffer@.update(
                y * old(self).width + x,
                old(self).pixel(c),
            ),
    {
        let pixel = self.make_pixel(c);
        let len = self.buffer.len();
        let index = y * self.width + x;
        self.buffer[index] = pixel;
    }

    /// Sets the pixel at the given coordinates. Coordinates off the screen are
    /// ignored; a pixel on the screen must be within the buffer, and the masks
    /// must not be empty.
    pub fn draw_pixel(&mut self, x: usize, y: usize, c: Color)
        requires
            x < old(self).width && y < old(self).height ==> old(self).has_masks() && y * old(
                self,
            ).width + x < old(self).buffer@.len(),
        ensures
            final(self).width == old(self).width,
            final(self).height == old(self).height,
            final(self).bpp == old(self).bpp,
            final(self).red_mask == old(self).red_mask,
            final(self).green_mask == old(self).green_mask,
            final(self).blue_mask == old(self).blue_mask,
            final(self).buffer@ == if x < old(self).width && y < old(self).height {
                old(self).buffer@.update(y * old(self).width + x, old(self).pixel(c))
            } else {
                old(self).buffer@
            },
    {
        if x < self.width && y < self.height {
            self.draw_pixel_unsafe(x, y, c);
        }
    }

    /// Fills the whole buffer with a color.
    pub fn clear(&mut self, color: Color)
        requires
            old(self).has_masks(),
        ensures
            final(self).width == old(self).width,
            final(self).height == old(self).height,
            final(self).bpp == old(self).bpp,
            final(self).red_mask == old(self).red_mask,
            final(self).green_mask == old(self).green_mask,
            final(self).blue_mask == old(self).blue_mask,
            final(self).buffer@ == Seq::new(old(self).buffer@.len(), |i: int| old(self).pixel(color)),
    {
        let pixel = self.make_pixel(color);
        let len = self.buffer.len();
        let mut i: usize = 0;
        while i < len
            invariant
                i <= len,
                len == self.buffer@.len(),
                len == old(self).buffer@.len(),
                pixel == old(self).pixel(color),
                self.width == old(self).width,
                self.height == old(self).height,
                self.bpp == old(self).bpp,
                self.red_mask == old(self).red_mask,
                self.green_mask == old(self).green_mask,
                self.blue_mask == old(self).blue_mask,
                forall|k: int| 0 <= k < i ==> self.buffer@[k] == pixel,
            decreases len - i,
        {
            self.buffer[i] = pixel;
            i = i + 1;
        }
        assert(self.buffer@ =~= Seq::new(old(self).buffer@.len(), |i: int| old(self).pixel(color)));
    }
}

/// Black is the pixel value 0, whatever the masks.
pub proof fn lemma_black_is_zero(red_mask: u32, green_mask: u32, blue_mask: u32)
    ensures
        pixel_of(Color { r: 0, g: 0, b: 0 }, red_mask, green_mask, blue_mask) == 0,
{
    let rs = u32_trailing_zeros(red_mask);
    let gs = u32_trailing_zeros(green_mask);
    let bs = u32_trailing_zeros(blue_mask);
    assert(((0u32 << rs) & red_mask) | ((0u32 << gs) & green_mask) | ((0u32 << bs) & blue_mask)
        == 0) by (bit_vector);
}

/// A component of a color only sets bits of its mask.
pub proof fn lemma_placed_within_mask(component: u8, mask: u32)
    ensures
        placed(component, mask) & !mask == 0,
{
    let s = u32_trailing_zeros(mask);
    let c = component as u32;
    assert(((c << s) & mask) & !mask == 0) by (bit_vector);
}

} // verus!
