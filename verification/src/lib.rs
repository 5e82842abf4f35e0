//! Terminal string styling with ANSI escape sequences.
//!
//! A `ColorString` wraps a text payload with an optional foreground color;
//! rendering it consults a `Policy` that decides whether escape sequences
//! are emitted at all, from a tty probe, the `TERM_COLOR` environment flag
//! and an explicit force override.

pub mod color;
pub mod laws;
pub mod policy;
pub mod styled;

pub use color::Color;
pub use policy::flag_default;
pub use policy::hastty;
pub use policy::Policy;
pub use styled::ColorString;
pub use styled::Colorable;
pub use styled::StyledView;
