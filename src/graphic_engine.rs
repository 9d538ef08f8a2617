use vstd::prelude::*;

use crate::machine::Effect;

verus! {

/// The display and input boundary that a backend implements.
pub trait GraphicEngine {
    fn clear_screen(&mut self);

    /// Draw a sprite from bytes.
    /// One byte is a line of 8 pixels, one pixel for each bit.
    /// If the bit equals one the pixel is on, off otherwise.
    /// Returns whether a pixel that was on was turned off.
    fn draw_sprite(&mut self, x: u8, y: u8, sprite_bytes: &[u8]) -> bool;

    /// Presents what was drawn during the current tick.
    fn flush(&mut self);

    /// Whether the display, and with it the process, should keep running.
    fn is_running(&self) -> bool;

    /// One-time initialisation; may start the backend's own thread.
    fn init(&mut self);

    /// The keypad state: bit `k` is set while key `k` is held.
    fn pressed_keys(&self) -> u16;
}

/// Hands the display request of one tick to the backend.
pub fn present<G: GraphicEngine>(engine: &mut G, effect: &Effect) {
    match effect {
        Effect::Nothing => {},
        Effect::ClearScreen => {
            engine.clear_screen();
        },
        Effect::DrawSprite { x, y, sprite } => {
            let _collision = engine.draw_sprite(*x, *y, sprite.as_slice());
        },
    }
}

} // verus!
