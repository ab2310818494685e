use astral::coords::{equatorial_derivation, AstroError, CelestialBodyType, EquatorialDerivation};
use astral::planet::{planet_from_lowercase, planet_from_name, Planet};
use astral::text::{same_text, same_text_ignoring_case};

#[test]
fn planet_names_ignore_case() {
    assert_eq!(planet_from_name("Venus"), Ok(Planet::Venus));
    assert_eq!(planet_from_name("venus"), Ok(Planet::Venus));
    assert_eq!(planet_from_name("MARS"), Ok(Planet::Mars));
    assert_eq!(planet_from_name("mErCuRy"), Ok(Planet::Mercury));
}

#[test]
fn every_supported_planet_is_found() {
    let expected = [
        ("mercury", Planet::Mercury),
        ("venus", Planet::Venus),
        ("earth", Planet::Earth),
        ("mars", Planet::Mars),
        ("jupiter", Planet::Jupiter),
        ("saturn", Planet::Saturn),
        ("uranus", Planet::Uranus),
        ("neptune", Planet::Neptune),
    ];
    for (name, planet) in expected.iter() {
        assert_eq!(planet_from_lowercase(name), Ok(*planet));
        assert_eq!(planet_from_name(&name.to_uppercase()), Ok(*planet));
    }
}

#[test]
fn unsupported_planet_is_an_error() {
    assert_eq!(planet_from_name("Pluto"), Err(AstroError::UnsupportedBody));
    assert_eq!(planet_from_name(""), Err(AstroError::UnsupportedBody));
    assert_eq!(planet_from_name("venus "), Err(AstroError::UnsupportedBody));
    assert_eq!(AstroError::UnsupportedBody.message(), "Couldnt find planet.");
}

#[test]
fn lowercase_lookup_needs_lowercase_input() {
    assert_eq!(planet_from_lowercase("Venus"), Err(AstroError::UnsupportedBody));
    assert_eq!(planet_from_lowercase("venus"), Ok(Planet::Venus));
}

#[test]
fn text_comparison() {
    assert!(same_text("full", "full"));
    assert!(!same_text("full", "Full"));
    assert!(!same_text("full", "ful"));
    assert!(same_text("", ""));
    assert!(same_text_ignoring_case("Polaris", "pOLARIS"));
    assert!(!same_text_ignoring_case("Polaris", "Polaris "));
}

#[test]
fn equatorial_derivation_by_kind() {
    assert_eq!(
        equatorial_derivation(CelestialBodyType::Star),
        Ok(EquatorialDerivation::FromCartesian)
    );
    assert_eq!(
        equatorial_derivation(CelestialBodyType::Planet),
        Ok(EquatorialDerivation::RotatedFromEcliptic)
    );
    assert_eq!(
        equatorial_derivation(CelestialBodyType::Sun),
        Ok(EquatorialDerivation::RotatedFromEcliptic)
    );
    assert_eq!(
        equatorial_derivation(CelestialBodyType::Moon),
        Err(AstroError::UnsupportedKind)
    );
}
