//! Body kinds, the error taxonomy, and how each kind's equatorial
//! coordinates are derived from its stored geocentric vector.
use vstd::prelude::*;

verus! {

/// The kinds of body that a position can describe.
#[derive(Debug, Clone, Copy, PartialEq, Eq, Structural)]
pub enum CelestialBodyType {
    Planet,
    Star,
    Sun,
    Moon,
}

/// The failures a lookup or derivation can report.
#[derive(Debug, Clone, Copy, PartialEq, Eq, Structural)]
pub enum AstroError {
    /// A planet name outside the supported set.
    UnsupportedBody,
    /// No catalog row carries the requested star name.
    NotFound,
    /// A body kind that the generic equatorial derivation does not handle.
    UnsupportedKind,
    /// The bundled catalog text is malformed.
    CatalogParse,
}

impl AstroError {
    /// A short human-readable description of the error.
    pub fn message(&self) -> (r: &'static str)
        ensures
            r@ == error_message(*self)@,
    {
        match self {
            AstroError::UnsupportedBody => "Couldnt find planet.",
            AstroError::NotFound => "No star with that name found",
            AstroError::UnsupportedKind => "Unsupported body kind for this derivation",
            AstroError::CatalogParse => "Malformed star catalog",
        }
    }
}

/// The description that `AstroError::message` gives for each error.
pub open spec fn error_message(e: AstroError) -> &'static str {
    match e {
        AstroError::UnsupportedBody => "Couldnt find planet.",
        AstroError::NotFound => "No star with that name found",
        AstroError::UnsupportedKind => "Unsupported body kind for this derivation",
        AstroError::CatalogParse => "Malformed star catalog",
    }
}

/// How equatorial coordinates are obtained from a stored geocentric vector.
#[derive(Debug, Clone, Copy, PartialEq, Eq, Structural)]
pub enum EquatorialDerivation {
    /// The vector is already equatorial: read it off as spherical coordinates.
    FromCartesian,
    /// The vector is ecliptic: take spherical coordinates, then rotate by the
    /// mean obliquity of the date.
    RotatedFromEcliptic,
}

/// The derivation each kind takes; the Moon has its own analytic pipeline and
/// no generic one.
pub open spec fn derivation_of(kind: CelestialBodyType) -> Option<EquatorialDerivation> {
    match kind {
        CelestialBodyType::Star => Some(EquatorialDerivation::FromCartesian),
        CelestialBodyType::Planet => Some(EquatorialDerivation::RotatedFromEcliptic),
        CelestialBodyType::Sun => Some(EquatorialDerivation::RotatedFromEcliptic),
        CelestialBodyType::Moon => None,
    }
}

/// Chooses the equatorial derivation for a body kind, or reports that the
/// kind is not handled by the generic path.
pub fn equatorial_derivation(kind: CelestialBodyType) -> (r: Result<EquatorialDerivation, AstroError>)
    ensures
        r == match derivation_of(kind) {
            Some(d) => Ok::<EquatorialDerivation, AstroError>(d),
            None => Err(AstroError::UnsupportedKind),
        },
{
    match kind {
        CelestialBodyType::Star => Ok(EquatorialDerivation::FromCartesian),
        CelestialBodyType::Planet | CelestialBodyType::Sun => Ok(
            EquatorialDerivation::RotatedFromEcliptic,
        ),
        CelestialBodyType::Moon => Err(AstroError::UnsupportedKind),
    }
}

} // verus!
