use amoca_climate_insurance::float64::Float64;
use amoca_climate_insurance::state::{
    ClimateDataType, ClimateRiskType, GeoBounds, GeographicCoordinate, OracleType, PayoutFormula,
    PolicyStatus, TriggerConditions,
};

fn bounds(latitude: f64, longitude: f64) -> GeoBounds {
    GeoBounds {
        latitude: Float64::from_bits(latitude.to_bits()),
        longitude: Float64::from_bits(longitude.to_bits()),
        radius: Float64::from_bits(25.0f64.to_bits()),
    }
}

#[test]
fn enums_default_to_their_first_variant() {
    assert_eq!(PolicyStatus::default(), PolicyStatus::Inactive);
    assert_eq!(ClimateRiskType::default(), ClimateRiskType::DroughtProtection);
    assert_eq!(ClimateDataType::default(), ClimateDataType::Temperature);
    assert_eq!(OracleType::default(), OracleType::ChainlinkWeather);
    assert_eq!(PayoutFormula::default(), PayoutFormula::LinearScale);
}

#[test]
fn geo_bounds_default_to_the_origin_and_a_hundred_kilometres() {
    let bounds = GeoBounds::default();
    assert_eq!(bounds.latitude.to_bits(), 0.0f64.to_bits());
    assert_eq!(bounds.longitude.to_bits(), 0.0f64.to_bits());
    assert_eq!(bounds.radius.to_bits(), 100.0f64.to_bits());
}

#[test]
fn trigger_conditions_default_to_no_threshold() {
    let conditions = TriggerConditions::default();
    assert!(conditions.rainfall_threshold.is_none());
    assert!(conditions.temperature_threshold.is_none());
    assert!(conditions.wind_speed_threshold.is_none());
    assert!(conditions.water_level_threshold.is_none());
    assert!(conditions.fire_proximity_threshold.is_none());
    assert_eq!(conditions.measurement_period, 7);
    assert_eq!(conditions.minimum_duration, 24);
}

#[test]
fn geographic_coordinate_defaults_to_the_origin() {
    let coordinate = GeographicCoordinate::default();
    assert_eq!(coordinate.latitude.to_bits(), 0.0f64.to_bits());
    assert_eq!(coordinate.longitude.to_bits(), 0.0f64.to_bits());
    assert!(coordinate.altitude.is_none());
}

#[test]
fn points_on_the_globe_are_accepted() {
    assert!(GeoBounds::default().is_on_globe());
    assert!(bounds(0.0, 0.0).is_on_globe());
    assert!(bounds(-0.0, -0.0).is_on_globe());
    assert!(bounds(45.5, -122.6).is_on_globe());
    assert!(bounds(90.0, 180.0).is_on_globe());
    assert!(bounds(-90.0, -180.0).is_on_globe());
    assert!(bounds(90.0, -180.0).is_on_globe());
    assert!(bounds(5e-324, -5e-324).is_on_globe());
}

#[test]
fn points_off_the_globe_are_refused() {
    assert!(!bounds(90.00000000000001, 0.0).is_on_globe());
    assert!(!bounds(-90.00000000000001, 0.0).is_on_globe());
    assert!(!bounds(0.0, 180.00000000000003).is_on_globe());
    assert!(!bounds(0.0, -180.00000000000003).is_on_globe());
    assert!(!bounds(91.0, 0.0).is_on_globe());
    assert!(!bounds(0.0, 181.0).is_on_globe());
    assert!(!bounds(f64::INFINITY, 0.0).is_on_globe());
    assert!(!bounds(0.0, f64::NEG_INFINITY).is_on_globe());
}

#[test]
fn coordinates_that_are_not_numbers_are_refused() {
    assert!(!bounds(f64::NAN, 0.0).is_on_globe());
    assert!(!bounds(0.0, f64::NAN).is_on_globe());
    assert!(!bounds(-f64::NAN, -f64::NAN).is_on_globe());
}

#[test]
fn is_on_globe_agrees_with_native_comparisons() {
    let values = [
        -1e9, -180.5, -180.0, -179.5, -90.5, -90.0, -89.5, -1.0, -0.0, 0.0, 1.0, 89.5, 90.0, 90.5,
        179.5, 180.0, 180.5, 1e9,
    ];
    for latitude in values {
        for longitude in values {
            let expected =
                latitude >= -90.0 && latitude <= 90.0 && longitude >= -180.0 && longitude <= 180.0;
            assert_eq!(bounds(latitude, longitude).is_on_globe(), expected);
        }
    }
}
