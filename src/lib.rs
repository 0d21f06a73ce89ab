//! Resonant-orbit parameters: parsing of altitudes, resonance ratios and
//! body references, with the rules that tie them together.

pub mod altitude;
pub mod body;
pub mod error;
pub mod params;
pub mod ratio;
pub mod text;
pub mod two_part;

pub use altitude::{is_synchronous_lowered, Altitude, EmptyNumber, ParseAltitudeError};
pub use body::{get_body_radius, radius_of_lowered, resolve_body, BodyRadius, EARTH_RADIUS, KERBIN_RADIUS};
pub use error::BuildParametersError;
pub use params::Parameters;
pub use ratio::{ParseRatioError, Ratio};
pub use text::same_text;
pub use two_part::{parse_two, split_segments, ParseTwoErr};
