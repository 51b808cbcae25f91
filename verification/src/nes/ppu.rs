//! The framebuffer peripheral: a fixed-size pixel array the core never reads
//! or interprets. It exists as an attachment point for a future rendering
//! stage and carries no behavioral contract beyond its size.

use vstd::prelude::*;

verus! {

/// Framebuffer width in pixels.
pub const SCREEN_WIDTH: usize = 256;

/// Framebuffer height in pixels.
pub const SCREEN_HEIGHT: usize = 240;

/// Number of cells in the framebuffer, row-major, one packed pixel per cell.
pub const SCREEN_PIXELS: usize = 61440;

/// The pixel-output peripheral: one packed 0RGB color value per cell.
pub struct Ppu {
    pub screen_buffer: Vec<u32>,
}

impl Ppu {
    /// Well-formed when the buffer holds exactly width times height cells.
    pub open spec fn wf(&self) -> bool {
        self.screen_buffer@.len() == SCREEN_PIXELS
    }

    /// A framebuffer with every pixel opaque black.
    pub fn new() -> (r: Ppu)
        ensures
            r.wf(),
    {
        Ppu { screen_buffer: vec![0xFF000000u32; SCREEN_PIXELS] }
    }

    /// Rendering stage placeholder: the graphics unit is not part of this
    /// core, so a frame leaves the buffer exactly as it was.
    pub fn update_screen(&mut self, _memory: &crate::nes::mmu::Mmu)
        ensures
            *final(self) == *old(self),
    {
    }
}

} // verus!
