//! FlashCap's logic: command-line and URL handling, the start-up handshake with the
//! front end, saving and re-encoding images, capture settings and working directories,
//! the menu bar, text recognition and screen recording.

pub mod args;
pub mod auto_copy;
pub mod capture;
pub mod codec;
pub mod handshake;
pub mod images;
pub mod menu_bar;
pub mod ocr;
pub mod opened;
pub mod paths;
pub mod startup;
pub mod text;
pub mod video;
