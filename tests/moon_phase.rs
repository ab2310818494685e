use astral::moon::{getMoonPhaseImage, getMoonPhaseName, moon_phase_from_percent, MoonPhase};
use astral::moon::{MOON_IMAGE_FULL, MOON_IMAGE_NEW, MOON_IMAGE_NONE, MOON_IMAGE_WANING_C};

#[test]
fn phase_bucket_edges() {
    let cases = [
        (0, "new"),
        (2, "new"),
        (3, "waxing crescent"),
        (19, "waxing crescent"),
        (20, "first quarter"),
        (29, "first quarter"),
        (30, "waxing gibbous"),
        (46, "waxing gibbous"),
        (47, "full"),
        (52, "full"),
        (53, "waning gibbous"),
        (69, "waning gibbous"),
        (70, "last quarter"),
        (84, "last quarter"),
        (85, "waning crescent"),
        (98, "waning crescent"),
        (99, "anything"),
        (100, "anything"),
        (-1, "anything"),
    ];
    for (p, name) in cases.iter() {
        assert_eq!(getMoonPhaseName(*p), *name, "percent {}", p);
    }
}

#[test]
fn overlap_resolves_to_new_every_time() {
    for _ in 0..3 {
        assert_eq!(moon_phase_from_percent(2), MoonPhase::New);
        assert_eq!(moon_phase_from_percent(3), MoonPhase::WaxingCrescent);
    }
}

#[test]
fn every_percent_has_one_phase() {
    for p in 0..99 {
        assert_ne!(moon_phase_from_percent(p), MoonPhase::Unnamed);
    }
    assert_eq!(moon_phase_from_percent(99), MoonPhase::Unnamed);
}

#[test]
fn images_follow_names() {
    assert_eq!(getMoonPhaseImage("new"), MOON_IMAGE_NEW);
    assert_eq!(getMoonPhaseImage("full"), MOON_IMAGE_FULL);
    assert_eq!(getMoonPhaseImage("waning crescent"), MOON_IMAGE_WANING_C);
    assert_eq!(getMoonPhaseImage("Full"), MOON_IMAGE_NONE);
    assert_eq!(getMoonPhaseImage("anything"), "no image found");
    for p in 0..99 {
        assert_ne!(getMoonPhaseImage(getMoonPhaseName(p)), MOON_IMAGE_NONE);
    }
}

#[test]
fn phase_names_round_trip() {
    let phases = [
        MoonPhase::New,
        MoonPhase::WaxingCrescent,
        MoonPhase::FirstQuarter,
        MoonPhase::WaxingGibbous,
        MoonPhase::Full,
        MoonPhase::WaningGibbous,
        MoonPhase::LastQuarter,
        MoonPhase::WaningCrescent,
    ];
    let mut seen: Vec<&str> = Vec::new();
    for ph in phases.iter() {
        let image = getMoonPhaseImage(ph.name());
        assert!(!seen.contains(&image));
        seen.push(image);
    }
}
