//! The data that the program keeps in accounts and takes as arguments.

use crate::float64::Float64;
use crate::pubkey::Pubkey;
use vstd::prelude::*;

verus! {

/// Program-wide counters and the pause switch.
#[derive(Clone, Copy, Debug)]
pub struct GlobalState {
    pub bump: u8,
    pub authority: Pubkey,
    pub total_policies: u64,
    pub total_premiums_collected: u64,
    pub total_payouts: u64,
    pub is_paused: bool,
}

/// One insurance policy.
#[derive(Clone, Debug)]
pub struct ClimatePolicy {
    pub bump: u8,
    pub owner: Pubkey,
    pub status: PolicyStatus,
    pub policy_type: ClimateRiskType,
    pub geographic_bounds: GeoBounds,
    pub trigger_thresholds: TriggerConditions,
    /// At most five sources fit in the account.
    pub oracle_sources: Vec<Pubkey>,
    pub monitoring_frequency: u32,
    pub last_data_update: i64,
    pub risk_score: u8,
    pub payout_calculation: PayoutFormula,
    pub coverage_amount: u64,
    pub premium_amount: u64,
    pub start_timestamp: i64,
    pub end_timestamp: i64,
}

/// A policy as a mathematical value.
pub struct ClimatePolicyView {
    pub bump: u8,
    pub owner: Pubkey,
    pub status: PolicyStatus,
    pub policy_type: ClimateRiskType,
    pub geographic_bounds: GeoBounds,
    pub trigger_thresholds: TriggerConditions,
    pub oracle_sources: Seq<Pubkey>,
    pub monitoring_frequency: u32,
    pub last_data_update: i64,
    pub risk_score: u8,
    pub payout_calculation: PayoutFormula,
    pub coverage_amount: u64,
    pub premium_amount: u64,
    pub start_timestamp: i64,
    pub end_timestamp: i64,
}

impl View for ClimatePolicy {
    type V = ClimatePolicyView;

    open spec fn view(&self) -> ClimatePolicyView {
        ClimatePolicyView {
            bump: self.bump,
            owner: self.owner,
            status: self.status,
            policy_type: self.policy_type,
            geographic_bounds: self.geographic_bounds,
            trigger_thresholds: self.trigger_thresholds,
            oracle_sources: self.oracle_sources@,
            monitoring_frequency: self.monitoring_frequency,
            last_data_update: self.last_data_update,
            risk_score: self.risk_score,
            payout_calculation: self.payout_calculation,
            coverage_amount: self.coverage_amount,
            premium_amount: self.premium_amount,
            start_timestamp: self.start_timestamp,
            end_timestamp: self.end_timestamp,
        }
    }
}

/// What is known of one oracle provider.
#[derive(Clone, Copy, Debug)]
pub struct OracleData {
    pub bump: u8,
    pub provider: Pubkey,
    pub oracle_type: OracleType,
    pub reputation_score: u16,
    pub last_update: i64,
    pub is_active: bool,
    pub data_points_count: u32,
}

/// The arguments of policy creation.
#[derive(Clone, Debug)]
pub struct PolicyParams {
    pub policy_id: u64,
    pub policy_type: ClimateRiskType,
    pub geographic_bounds: GeoBounds,
    pub trigger_conditions: TriggerConditions,
    /// At most five sources fit in the policy account.
    pub oracle_sources: Vec<Pubkey>,
    pub coverage_amount: u64,
    pub premium_amount: u64,
    pub end_timestamp: i64,
}

/// The arguments of policy creation as a mathematical value.
pub struct PolicyParamsView {
    pub policy_id: u64,
    pub policy_type: ClimateRiskType,
    pub geographic_bounds: GeoBounds,
    pub trigger_conditions: TriggerConditions,
    pub oracle_sources: Seq<Pubkey>,
    pub coverage_amount: u64,
    pub premium_amount: u64,
    pub end_timestamp: i64,
}

impl View for PolicyParams {
    type V = PolicyParamsView;

    open spec fn view(&self) -> PolicyParamsView {
        PolicyParamsView {
            policy_id: self.policy_id,
            policy_type: self.policy_type,
            geographic_bounds: self.geographic_bounds,
            trigger_conditions: self.trigger_conditions,
            oracle_sources: self.oracle_sources@,
            coverage_amount: self.coverage_amount,
            premium_amount: self.premium_amount,
            end_timestamp: self.end_timestamp,
        }
    }
}

/// Where a policy stands in its life.
#[derive(Clone, Copy, Debug, PartialEq, Eq, Structural)]
pub enum PolicyStatus {
    Inactive,
    Active,
    Monitoring,
    Triggered,
    Claimed,
    Expired,
}

impl Default for PolicyStatus {
    fn default() -> (status: PolicyStatus)
        ensures
            status == PolicyStatus::Inactive,
    {
        PolicyStatus::Inactive
    }
}

/// The peril that a policy insures.
#[derive(Clone, Copy, Debug, PartialEq, Eq, Structural)]
pub enum ClimateRiskType {
    DroughtProtection,
    FloodInsurance,
    HurricaneCoverage,
    AgriculturalClimate,
    WildfireProtection,
    SeaLevelRise,
    ExtremeTemperature,
}

impl Default for ClimateRiskType {
    fn default() -> (risk: ClimateRiskType)
        ensures
            risk == ClimateRiskType::DroughtProtection,
    {
        ClimateRiskType::DroughtProtection
    }
}

/// The insured area: a centre in degrees and a radius in kilometres.
#[derive(Clone, Copy, Debug)]
pub struct GeoBounds {
    pub latitude: Float64,
    pub longitude: Float64,
    pub radius: Float64,
}

impl GeoBounds {
    /// Whether the centre is a point on the globe: latitude within 90
    /// degrees of the equator, longitude within 180 degrees of the prime
    /// meridian, both of them numbers.
    pub open spec fn spec_is_on_globe(&self) -> bool {
        &&& self.latitude.in_integer_range(-90, 90)
        &&& self.longitude.in_integer_range(-180, 180)
    }

    /// Whether the centre is a point on the globe.
    #[verifier::when_used_as_spec(spec_is_on_globe)]
    pub fn is_on_globe(&self) -> (r: bool)
        ensures
            r == self.spec_is_on_globe(),
    {
        self.latitude.ge(&Float64::from_i32(-90)) && self.latitude.le(&Float64::from_i32(90))
            && self.longitude.ge(&Float64::from_i32(-180)) && self.longitude.le(
            &Float64::from_i32(180),
        )
    }
}

impl Default for GeoBounds {
    /// The origin with a radius of 100 kilometres.
    fn default() -> (bounds: GeoBounds)
        ensures
            bounds.latitude.bits == 0,
            bounds.longitude.bits == 0,
            bounds.radius.is_integer(100),
            !bounds.radius.is_sign_negative(),
    {
        GeoBounds {
            latitude: Float64::from_bits(0),
            longitude: Float64::from_bits(0),
            radius: Float64::from_i32(100),
        }
    }
}

/// The thresholds that a policy watches. A missing threshold is not watched.
#[derive(Clone, Copy, Debug)]
pub struct TriggerConditions {
    /// Millimetres per measurement period.
    pub rainfall_threshold: Option<Float64>,
    /// Degrees Celsius.
    pub temperature_threshold: Option<Float64>,
    /// Miles per hour.
    pub wind_speed_threshold: Option<Float64>,
    /// Metres above normal.
    pub water_level_threshold: Option<Float64>,
    /// Kilometres.
    pub fire_proximity_threshold: Option<Float64>,
    /// Days.
    pub measurement_period: u32,
    /// Hours for which the condition must last.
    pub minimum_duration: u32,
}

impl Default for TriggerConditions {
    /// No threshold, a period of seven days and a duration of 24 hours.
    fn default() -> (conditions: TriggerConditions)
        ensures
            conditions == (TriggerConditions {
                rainfall_threshold: None,
                temperature_threshold: None,
                wind_speed_threshold: None,
                water_level_threshold: None,
                fire_proximity_threshold: None,
                measurement_period: 7,
                minimum_duration: 24,
            }),
    {
        TriggerConditions {
            rainfall_threshold: None,
            temperature_threshold: None,
            wind_speed_threshold: None,
            water_level_threshold: None,
            fire_proximity_threshold: None,
            measurement_period: 7,
            minimum_duration: 24,
        }
    }
}

/// One measurement reported by an oracle.
#[derive(Clone, Debug)]
pub struct ClimateDataPoint {
    pub data_type: ClimateDataType,
    pub location: GeographicCoordinate,
    pub value: Float64,
    pub timestamp: i64,
    /// Data quality from 0 to 100.
    pub confidence_level: u8,
    /// The provider that reports the measurement.
    pub source_id: Pubkey,
    /// At most 32 bytes.
    pub verification_hash: Vec<u8>,
}

/// A measurement as a mathematical value.
pub struct ClimateDataPointView {
    pub data_type: ClimateDataType,
    pub location: GeographicCoordinate,
    pub value: Float64,
    pub timestamp: i64,
    pub confidence_level: u8,
    pub source_id: Pubkey,
    pub verification_hash: Seq<u8>,
}

impl View for ClimateDataPoint {
    type V = ClimateDataPointView;

    open spec fn view(&self) -> ClimateDataPointView {
        ClimateDataPointView {
            data_type: self.data_type,
            location: self.location,
            value: self.value,
            timestamp: self.timestamp,
            confidence_level: self.confidence_level,
            source_id: self.source_id,
            verification_hash: self.verification_hash@,
        }
    }
}

/// What a measurement measures.
#[derive(Clone, Copy, Debug, PartialEq, Eq, Structural)]
pub enum ClimateDataType {
    Temperature,
    Rainfall,
    WindSpeed,
    Humidity,
    WaterLevel,
    FireDetection,
    VegetationIndex,
    AtmosphericPressure,
}

impl Default for ClimateDataType {
    fn default() -> (data_type: ClimateDataType)
        ensures
            data_type == ClimateDataType::Temperature,
    {
        ClimateDataType::Temperature
    }
}

/// A point on the globe, with an altitude where one is known.
#[derive(Clone, Copy, Debug)]
pub struct GeographicCoordinate {
    pub latitude: Float64,
    pub longitude: Float64,
    pub altitude: Option<Float64>,
}

impl Default for GeographicCoordinate {
    /// The origin, altitude unknown.
    fn default() -> (coordinate: GeographicCoordinate)
        ensures
            coordinate.latitude.bits == 0,
            coordinate.longitude.bits == 0,
            coordinate.altitude is None,
    {
        GeographicCoordinate {
            latitude: Float64::from_bits(0),
            longitude: Float64::from_bits(0),
            altitude: None,
        }
    }
}

/// The kind of an oracle provider.
#[derive(Clone, Copy, Debug, PartialEq, Eq, Structural)]
pub enum OracleType {
    ChainlinkWeather,
    PythSatellite,
    NasaModis,
    WeatherStation,
    IoTSensor,
    SwitchboardNetwork,
}

impl Default for OracleType {
    fn default() -> (oracle_type: OracleType)
        ensures
            oracle_type == OracleType::ChainlinkWeather,
    {
        OracleType::ChainlinkWeather
    }
}

/// How the payout follows from the risk score.
#[derive(Clone, Copy, Debug, PartialEq, Eq, Structural)]
pub enum PayoutFormula {
    LinearScale,
    StepFunction,
    Exponential,
    Composite,
}

impl Default for PayoutFormula {
    fn default() -> (formula: PayoutFormula)
        ensures
            formula == PayoutFormula::LinearScale,
    {
        PayoutFormula::LinearScale
    }
}

} // verus!
