pub mod decoder;
pub mod keystrokes;
pub mod modifiers;
pub mod pattern;
pub mod rmlvo;
pub mod text;
pub mod tracker;

pub use decoder::{DecoderState, KeymapBuild, KeymapError, KeystrokeDecoder, EVDEV_OFFSET};
pub use keystrokes::{KeyEvent, KeyTransition, Keystrokes};
pub use modifiers::{Modifier, Modifiers};
pub use rmlvo::{Component, Names, Rmlvo};
pub use tracker::{KeyDirection, KeyTracker};
