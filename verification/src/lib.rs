//! A small color-model library: the HSV (hue/saturation/value) color
//! representation and its conversion to RGB, generic over fixed-point
//! integer channel depths (8, 16 and 32 bits per channel).

pub mod channel;
pub mod deg;
pub mod hsv;
pub mod rgb;

pub use channel::Channel;
pub use deg::Deg;
pub use hsv::{ColorError, Hsv, ToHsv};
pub use rgb::Rgb;
