use amoca_climate_insurance::accounts::SubmitClimateData;
use amoca_climate_insurance::error::AmocaError;
use amoca_climate_insurance::float64::Float64;
use amoca_climate_insurance::instructions::submit_climate_data;
use amoca_climate_insurance::oracle::{
    MAX_DATA_AGE, MAX_DATA_POINTS, MAX_REPUTATION, MIN_CONFIDENCE,
};
use amoca_climate_insurance::pubkey::Pubkey;
use amoca_climate_insurance::state::{
    ClimateDataPoint, ClimateDataType, GeographicCoordinate, GlobalState, OracleData, OracleType,
};

const NOW: i64 = 1_700_000_000;

fn key(n: u8) -> Pubkey {
    Pubkey::new_from_array([n; 32])
}

fn global_state() -> GlobalState {
    GlobalState {
        bump: 253,
        authority: key(1),
        total_policies: 4,
        total_premiums_collected: 1_000,
        total_payouts: 300,
        is_paused: false,
    }
}

fn oracle(reputation_score: u16) -> OracleData {
    OracleData {
        bump: 252,
        provider: key(4),
        oracle_type: OracleType::WeatherStation,
        reputation_score,
        last_update: NOW - 7_200,
        is_active: true,
        data_points_count: 40,
    }
}

fn accounts(oracle_data: OracleData) -> SubmitClimateData {
    SubmitClimateData { oracle_provider: key(4), oracle_data, global_state: global_state() }
}

fn point(timestamp: i64, confidence_level: u8) -> ClimateDataPoint {
    ClimateDataPoint {
        data_type: ClimateDataType::Rainfall,
        location: GeographicCoordinate::default(),
        value: Float64::from_bits(12.5f64.to_bits()),
        timestamp,
        confidence_level,
        source_id: key(4),
        verification_hash: vec![1, 2, 3],
    }
}

fn fresh(confidences: &[u8]) -> Vec<ClimateDataPoint> {
    confidences.iter().map(|&confidence| point(NOW - 10, confidence)).collect()
}

fn submit(
    ctx: &mut SubmitClimateData,
    points: Vec<ClimateDataPoint>,
    now: i64,
) -> Result<(), AmocaError> {
    assert!(ctx.is_in_range(&points, now));
    submit_climate_data(ctx, points, now)
}

fn assert_same_oracle(left: &OracleData, right: &OracleData) {
    assert_eq!(format!("{:?}", left), format!("{:?}", right));
}

#[test]
fn limits_are_as_documented() {
    assert_eq!(MAX_DATA_POINTS, 10);
    assert_eq!(MAX_DATA_AGE, 3_600);
    assert_eq!(MIN_CONFIDENCE, 50);
    assert_eq!(MAX_REPUTATION, 100);
}

#[test]
fn submission_counts_points_and_blends_reputation() {
    let mut ctx = accounts(oracle(80));
    assert_eq!(submit(&mut ctx, fresh(&[60, 70]), NOW), Ok(()));
    let expected =
        OracleData { last_update: NOW, data_points_count: 42, reputation_score: 72, ..oracle(80) };
    assert_same_oracle(&ctx.oracle_data, &expected);
    assert_eq!(ctx.oracle_provider, key(4));
    assert_eq!(ctx.global_state.total_policies, 4);
    assert!(!ctx.global_state.is_paused);
}

#[test]
fn mean_confidence_is_rounded_down() {
    let mut ctx = accounts(oracle(0));
    assert_eq!(submit(&mut ctx, fresh(&[50, 51, 51]), NOW), Ok(()));
    assert_eq!(ctx.oracle_data.reputation_score, 25);
    let mut ctx = accounts(oracle(1));
    assert_eq!(submit(&mut ctx, fresh(&[50, 51, 51]), NOW), Ok(()));
    assert_eq!(ctx.oracle_data.reputation_score, 25);
    let mut ctx = accounts(oracle(2));
    assert_eq!(submit(&mut ctx, fresh(&[50, 51, 51]), NOW), Ok(()));
    assert_eq!(ctx.oracle_data.reputation_score, 26);
}

#[test]
fn reputation_is_capped_at_a_hundred() {
    let mut ctx = accounts(oracle(100));
    assert_eq!(submit(&mut ctx, fresh(&[255]), NOW), Ok(()));
    assert_eq!(ctx.oracle_data.reputation_score, 100);
    let mut ctx = accounts(oracle(200));
    assert_eq!(submit(&mut ctx, fresh(&[90]), NOW), Ok(()));
    assert_eq!(ctx.oracle_data.reputation_score, 100);
    let mut ctx = accounts(oracle(65_280));
    assert_eq!(submit(&mut ctx, fresh(&[255]), NOW), Ok(()));
    assert_eq!(ctx.oracle_data.reputation_score, 100);
    let mut ctx = accounts(oracle(100));
    assert_eq!(submit(&mut ctx, fresh(&[100]), NOW), Ok(()));
    assert_eq!(ctx.oracle_data.reputation_score, 100);
    let mut ctx = accounts(oracle(100));
    assert_eq!(submit(&mut ctx, fresh(&[99]), NOW), Ok(()));
    assert_eq!(ctx.oracle_data.reputation_score, 99);
}

#[test]
fn five_points_of_least_confidence_are_accepted() {
    let mut ctx = accounts(oracle(60));
    assert_eq!(submit(&mut ctx, fresh(&[50, 50, 50, 50, 50]), NOW), Ok(()));
    assert_eq!(ctx.oracle_data.reputation_score, 55);
    assert_eq!(ctx.oracle_data.data_points_count, 45);
    let mut ctx = accounts(oracle(60));
    assert_eq!(submit(&mut ctx, fresh(&[51, 51, 51, 51, 51]), NOW), Ok(()));
    assert_eq!(ctx.oracle_data.reputation_score, 55);
}

#[test]
fn sum_of_confidence_must_fit_in_a_byte() {
    let ctx = accounts(oracle(60));
    assert!(ctx.is_in_range(&fresh(&[51, 51, 51, 51, 51]), NOW));
    assert!(!ctx.is_in_range(&fresh(&[52, 51, 51, 51, 51]), NOW));
    assert!(!ctx.is_in_range(&fresh(&[50, 50, 50, 50, 50, 50]), NOW));
    assert!(!ctx.is_in_range(&fresh(&[50; 10]), NOW));
    assert!(ctx.is_in_range(&fresh(&[255]), NOW));
    assert!(!ctx.is_in_range(&fresh(&[255, 50]), NOW));
    assert!(ctx.is_in_range(&fresh(&[128, 127]), NOW));
    assert!(!ctx.is_in_range(&fresh(&[128, 128]), NOW));
}

#[test]
fn reputation_plus_mean_must_fit_in_sixteen_bits() {
    assert!(accounts(oracle(65_280)).is_in_range(&fresh(&[255]), NOW));
    assert!(!accounts(oracle(65_281)).is_in_range(&fresh(&[255]), NOW));
    assert!(accounts(oracle(65_485)).is_in_range(&fresh(&[50]), NOW));
    assert!(!accounts(oracle(65_486)).is_in_range(&fresh(&[50]), NOW));
    assert!(accounts(oracle(u16::MAX)).is_in_range(&fresh(&[49]), NOW));
}

#[test]
fn rejected_submissions_are_in_range_whatever_they_sum_to() {
    let ctx = accounts(oracle(60));
    assert!(ctx.is_in_range(&fresh(&[50; 11]), NOW));
    assert!(ctx.is_in_range(&fresh(&[]), NOW));
    assert!(ctx.is_in_range(&fresh(&[255, 255, 49]), NOW));
    let mut inactive = accounts(OracleData { is_active: false, ..oracle(60) });
    assert!(inactive.is_in_range(&fresh(&[255; 10]), NOW));
    assert_eq!(
        submit(&mut inactive, fresh(&[255; 10]), NOW),
        Err(AmocaError::OracleNotAuthorized)
    );
    let full = accounts(OracleData { data_points_count: u32::MAX, ..oracle(60) });
    assert!(full.is_in_range(&fresh(&[255, 255]), NOW));
}

#[test]
fn age_of_a_point_must_fit_in_sixty_four_bits() {
    let ctx = accounts(oracle(60));
    assert!(!ctx.is_in_range(&vec![point(i64::MIN, 90)], NOW));
    assert!(!ctx.is_in_range(&vec![point(NOW - i64::MAX - 1, 90)], NOW));
    assert!(ctx.is_in_range(&vec![point(NOW - i64::MAX, 90)], NOW));
    assert!(!ctx.is_in_range(&vec![point(i64::MAX, 90)], -2));
    assert!(ctx.is_in_range(&vec![point(i64::MAX, 90)], -1));
    assert!(ctx.is_in_range(&vec![point(NOW - 4_000, 90), point(i64::MIN, 90)], NOW));
    assert!(ctx.is_in_range(&vec![point(NOW, 49), point(i64::MIN, 90)], NOW));
    assert!(!ctx.is_in_range(&vec![point(NOW, 50), point(i64::MIN, 90)], NOW));
}

#[test]
fn submission_is_for_the_provider_of_the_oracle() {
    let mut ctx = accounts(oracle(80));
    ctx.oracle_provider = key(5);
    assert_eq!(submit(&mut ctx, fresh(&[60]), NOW), Err(AmocaError::Unauthorized));
    assert_same_oracle(&ctx.oracle_data, &oracle(80));
}

#[test]
fn submission_is_refused_while_paused() {
    let mut ctx = accounts(oracle(80));
    ctx.global_state.is_paused = true;
    assert_eq!(submit(&mut ctx, fresh(&[60]), NOW), Err(AmocaError::ProgramPaused));
    assert_same_oracle(&ctx.oracle_data, &oracle(80));
    ctx.oracle_provider = key(5);
    assert_eq!(submit(&mut ctx, fresh(&[60]), NOW), Err(AmocaError::Unauthorized));
}

#[test]
fn submission_is_for_an_active_oracle() {
    let inactive = OracleData { is_active: false, ..oracle(80) };
    let mut ctx = accounts(inactive);
    assert_eq!(submit(&mut ctx, fresh(&[60]), NOW), Err(AmocaError::OracleNotAuthorized));
    assert_same_oracle(&ctx.oracle_data, &inactive);
    assert_eq!(submit(&mut ctx, fresh(&[]), NOW), Err(AmocaError::OracleNotAuthorized));
}

#[test]
fn submission_needs_a_point() {
    let mut ctx = accounts(oracle(80));
    assert_eq!(submit(&mut ctx, Vec::new(), NOW), Err(AmocaError::InvalidOracleData));
    assert_same_oracle(&ctx.oracle_data, &oracle(80));
}

#[test]
fn submission_holds_at_most_ten_points() {
    let mut ctx = accounts(oracle(80));
    assert_eq!(submit(&mut ctx, fresh(&[90; 11]), NOW), Err(AmocaError::TooManyDataPoints));
    assert_eq!(submit(&mut ctx, fresh(&[10; 200]), NOW), Err(AmocaError::TooManyDataPoints));
    assert_same_oracle(&ctx.oracle_data, &oracle(80));
    let mut ten = fresh(&[90; 10]);
    ten[9].confidence_level = 49;
    assert_eq!(submit(&mut ctx, ten, NOW), Err(AmocaError::LowConfidenceData));
}

#[test]
fn points_older_than_an_hour_are_stale() {
    let mut ctx = accounts(oracle(80));
    assert_eq!(
        submit(&mut ctx, vec![point(NOW - 3_601, 90)], NOW),
        Err(AmocaError::StaleOracleData)
    );
    assert_same_oracle(&ctx.oracle_data, &oracle(80));
    assert_eq!(
        submit(&mut ctx, vec![point(NOW - 10, 90), point(0, 90)], NOW),
        Err(AmocaError::StaleOracleData)
    );
    assert_same_oracle(&ctx.oracle_data, &oracle(80));
    assert_eq!(submit(&mut ctx, vec![point(NOW - 3_600, 90)], NOW), Ok(()));
    assert_eq!(ctx.oracle_data.reputation_score, 85);
}

#[test]
fn points_from_the_time_ahead_are_fresh() {
    let mut ctx = accounts(oracle(80));
    assert_eq!(submit(&mut ctx, vec![point(NOW + 1_000_000, 90)], NOW), Ok(()));
    assert_eq!(ctx.oracle_data.last_update, NOW);
}

#[test]
fn points_of_low_confidence_are_refused() {
    let mut ctx = accounts(oracle(80));
    assert_eq!(submit(&mut ctx, fresh(&[49]), NOW), Err(AmocaError::LowConfidenceData));
    assert_eq!(submit(&mut ctx, fresh(&[0]), NOW), Err(AmocaError::LowConfidenceData));
    assert_eq!(submit(&mut ctx, fresh(&[90, 49, 90]), NOW), Err(AmocaError::LowConfidenceData));
    assert_same_oracle(&ctx.oracle_data, &oracle(80));
    assert_eq!(submit(&mut ctx, fresh(&[50]), NOW), Ok(()));
    assert_eq!(ctx.oracle_data.reputation_score, 65);
}

#[test]
fn first_refused_point_decides_the_error() {
    let mut ctx = accounts(oracle(80));
    let stale_then_low = vec![point(NOW - 10, 90), point(NOW - 4_000, 90), point(NOW - 10, 10)];
    assert_eq!(submit(&mut ctx, stale_then_low, NOW), Err(AmocaError::StaleOracleData));
    let low_then_stale = vec![point(NOW - 10, 90), point(NOW - 10, 10), point(NOW - 4_000, 90)];
    assert_eq!(submit(&mut ctx, low_then_stale, NOW), Err(AmocaError::LowConfidenceData));
    let stale_and_low = vec![point(NOW - 4_000, 10)];
    assert_eq!(submit(&mut ctx, stale_and_low, NOW), Err(AmocaError::StaleOracleData));
    assert_same_oracle(&ctx.oracle_data, &oracle(80));
}

#[test]
fn count_of_points_does_not_overflow() {
    let nearly = OracleData { data_points_count: u32::MAX - 2, ..oracle(80) };
    let mut ctx = accounts(nearly);
    assert_eq!(submit(&mut ctx, fresh(&[60, 60, 60]), NOW), Err(AmocaError::MathOverflow));
    assert_same_oracle(&ctx.oracle_data, &nearly);
    assert_eq!(submit(&mut ctx, fresh(&[60, 60]), NOW), Ok(()));
    assert_eq!(ctx.oracle_data.data_points_count, u32::MAX);
    assert_eq!(ctx.oracle_data.reputation_score, 70);
}

#[test]
fn submission_tries_its_conditions_in_order() {
    let mut ctx = accounts(OracleData {
        is_active: false,
        data_points_count: u32::MAX,
        ..oracle(80)
    });
    ctx.global_state.is_paused = true;
    ctx.oracle_provider = key(5);
    let eleven_bad = vec![point(0, 0); 11];
    assert_eq!(submit(&mut ctx, eleven_bad.clone(), NOW), Err(AmocaError::Unauthorized));
    ctx.oracle_provider = key(4);
    assert_eq!(submit(&mut ctx, eleven_bad.clone(), NOW), Err(AmocaError::ProgramPaused));
    ctx.global_state.is_paused = false;
    assert_eq!(submit(&mut ctx, eleven_bad.clone(), NOW), Err(AmocaError::OracleNotAuthorized));
    ctx.oracle_data.is_active = true;
    assert_eq!(submit(&mut ctx, eleven_bad, NOW), Err(AmocaError::TooManyDataPoints));
    assert_eq!(submit(&mut ctx, vec![point(0, 0); 10], NOW), Err(AmocaError::StaleOracleData));
    assert_eq!(submit(&mut ctx, vec![point(NOW, 0); 10], NOW), Err(AmocaError::LowConfidenceData));
    assert_eq!(submit(&mut ctx, vec![point(NOW, 50); 10], NOW), Err(AmocaError::MathOverflow));
}
