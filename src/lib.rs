//! Celestial body lookup and classification: the parts of an apparent-position
//! pipeline that decide which body is meant, how its coordinates are derived,
//! and how a lunar phase is named.
pub mod text;
pub mod coords;
pub mod planet;
pub mod moon;
pub mod star;
