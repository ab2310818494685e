//! Planet lookup by name.
use vstd::prelude::*;
use crate::coords::AstroError;
use crate::text::{lower_of, lowercase, same_text};

verus! {

/// The planets whose heliocentric positions the ephemeris provides.
#[derive(Debug, Clone, Copy, PartialEq, Eq, Structural)]
pub enum Planet {
    Mercury,
    Venus,
    Earth,
    Mars,
    Jupiter,
    Saturn,
    Uranus,
    Neptune,
}

/// The planet whose lower-case name is `s`, if any.
pub open spec fn planet_named(s: Seq<char>) -> Option<Planet> {
    if s == "mercury"@ {
        Some(Planet::Mercury)
    } else if s == "venus"@ {
        Some(Planet::Venus)
    } else if s == "earth"@ {
        Some(Planet::Earth)
    } else if s == "mars"@ {
        Some(Planet::Mars)
    } else if s == "jupiter"@ {
        Some(Planet::Jupiter)
    } else if s == "saturn"@ {
        Some(Planet::Saturn)
    } else if s == "uranus"@ {
        Some(Planet::Uranus)
    } else if s == "neptune"@ {
        Some(Planet::Neptune)
    } else {
        None
    }
}

/// The lookup result for a lower-case name.
pub open spec fn lookup_result(s: Seq<char>) -> Result<Planet, AstroError> {
    match planet_named(s) {
        Some(p) => Ok(p),
        None => Err(AstroError::UnsupportedBody),
    }
}

/// Looks up a planet by a name that is already in lower case.
pub fn planet_from_lowercase(name: &str) -> (r: Result<Planet, AstroError>)
    ensures
        r == lookup_result(name@),
{
    if same_text(name, "mercury") {
        Ok(Planet::Mercury)
    } else if same_text(name, "venus") {
        Ok(Planet::Venus)
    } else if same_text(name, "earth") {
        Ok(Planet::Earth)
    } else if same_text(name, "mars") {
        Ok(Planet::Mars)
    } else if same_text(name, "jupiter") {
        Ok(Planet::Jupiter)
    } else if same_text(name, "saturn") {
        Ok(Planet::Saturn)
    } else if same_text(name, "uranus") {
        Ok(Planet::Uranus)
    } else if same_text(name, "neptune") {
        Ok(Planet::Neptune)
    } else {
        Err(AstroError::UnsupportedBody)
    }
}

/// Looks up a planet by name, ignoring case; any other name is an
/// unsupported body.
pub fn planet_from_name(name: &str) -> (r: Result<Planet, AstroError>)
    ensures
        r == lookup_result(lower_of(name@)),
{
    let lowered = lowercase(name);
    planet_from_lowercase(lowered.as_str())
}

} // verus!
