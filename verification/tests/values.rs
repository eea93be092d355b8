use space_sim::composition::Mixture;
use space_sim::composition::Phase;
use space_sim::composition::Substance;
use space_sim::composition::Temperature;
use space_sim::composition::KELVIN_TO_CELSIUS;
use space_sim::SCALE;

#[test]
fn temperature_round_trip() {
    // from_celsius followed by as_celsius returns the reading unchanged.
    for c in [0i64, 1, -1, 12_345, -98_765, 27_315_000, 5_000_000_000] {
        assert_eq!(Temperature::from_celsius(c).as_celsius(), c);
    }
}

#[test]
fn temperature_conversions_are_the_stated_affine_transforms() {
    // 20.00 degrees Celsius reads back from a stored value offset by
    // exactly 273.15 in fixed point.
    let t = Temperature::from_celsius(20 * SCALE as i64);
    assert_eq!(t.0, 20 * SCALE as i64 - KELVIN_TO_CELSIUS);
    assert_eq!(t.as_celsius(), 20 * SCALE as i64);
    assert_eq!(Temperature::absolute_zero().0, 0);
    assert_eq!(Temperature::absolute_zero().as_celsius(), KELVIN_TO_CELSIUS);
}

#[test]
fn default_mixture_is_standard_air() {
    let air = Mixture::default();
    assert_eq!(
        air.contents,
        vec![(Substance::Oxygen, 21_000), (Substance::Nitrogen, 79_000)]
    );
    assert_eq!(air.fraction_total(), SCALE);
    assert!(air.is_normalized());
}

#[test]
fn unnormalized_mixture_is_detected() {
    let lopsided = Mixture {
        contents: vec![(Substance::Oxygen, 30_000), (Substance::Hydrogen, 80_000)],
    };
    assert_eq!(lopsided.fraction_total(), 110_000);
    assert!(!lopsided.is_normalized());
    let empty = Mixture { contents: Vec::new() };
    assert_eq!(empty.fraction_total(), 0);
    assert!(!empty.is_normalized());
}

#[test]
fn substance_catalog_is_fixed() {
    assert_eq!(Substance::Oxygen.name(), "Oxygen");
    assert_eq!(Substance::Nitrogen.name(), "Nitrogen");
    assert_eq!(Substance::Hydrogen.name(), "Hydrogen");
    // Densities in fixed point: 1.429, 1.2506 and 0.08988.
    assert_eq!(Substance::Oxygen.density(), 142_900);
    assert_eq!(Substance::Nitrogen.density(), 125_060);
    assert_eq!(Substance::Hydrogen.density(), 8_988);
    assert_eq!(Substance::Oxygen.phase(), Phase::Gas);
    assert_eq!(Substance::Nitrogen.phase(), Phase::Gas);
    assert_eq!(Substance::Hydrogen.phase(), Phase::Gas);
}
