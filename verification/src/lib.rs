//! Application logic for a small 2D game client: a main menu (Play and
//! Toggle Fullscreen buttons under a title image) and a playing scene in
//! which a sprite follows the mouse cursor while the arrow keys cycle the
//! sprite-sheet frame.
//!
//! Rendering, windowing, input delivery and asset loading belong to the
//! game framework and stay outside this crate; what is verified here is the
//! application-owned logic: the phase state machine, the menu scene and its
//! button dispatch, the player's frame cycling, and the window-to-world
//! cursor mapping. Fractional quantities that the framework takes as
//! floating point (colors, scales) are held here as exact integers in
//! thousandths.

pub mod color;
pub mod geom;
pub mod menu;
pub mod phase;
pub mod player;
pub mod window;
pub mod world;
