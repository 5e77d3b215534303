use vstd::prelude::*;
use crate::datetime::GribDate;
use crate::datetime::date_add_minutes;
use crate::datetime::date_plus_minutes;
use crate::utils::be_u16_of;
use crate::utils::be_u32_of;

verus! {

/// The identity of a decoded variable: a human-readable name, a short
/// abbreviation and a unit, resolved from (discipline, category, number).
#[derive(Debug, Clone, PartialEq, Eq)]
pub struct Parameter {
    pub name: String,
    pub abbrev: String,
    pub unit: String,
}

/// Cluster analysis methods of the ensemble product tables.
#[derive(Debug, Clone, Copy, PartialEq, Eq, Structural)]
pub enum ClusteringMethod {
    AnomolyCorrelation,
    RMS,
}

impl ClusteringMethod {
    /// The variant encoded by code `v`, or `None` for a code outside the table.
    pub open spec fn spec_from_value(v: u8) -> Option<ClusteringMethod> {
        if v == 0 {
            Some(ClusteringMethod::AnomolyCorrelation)
        } else if v == 1 {
            Some(ClusteringMethod::RMS)
        } else {
            None
        }
    }

    pub fn from_value(v: u8) -> (r: Option<ClusteringMethod>)
        ensures
            r == ClusteringMethod::spec_from_value(v),
    {
        match v {
            0 => Some(ClusteringMethod::AnomolyCorrelation),
            1 => Some(ClusteringMethod::RMS),
            _ => None,
        }
    }
}

/// Types of fixed surface a product is valid for.
#[derive(Debug, Clone, Copy, PartialEq, Eq, Structural)]
pub enum FixedSurfaceTypes {
    GroundOrWater,
    CloudBase,
    CloudTop,
    OrderedSequence,
}

impl FixedSurfaceTypes {
    /// The variant encoded by code `v`, or `None` for a code outside the table.
    pub open spec fn spec_from_value(v: u8) -> Option<FixedSurfaceTypes> {
        if v == 1 {
            Some(FixedSurfaceTypes::GroundOrWater)
        } else if v == 2 {
            Some(FixedSurfaceTypes::CloudBase)
        } else if v == 3 {
            Some(FixedSurfaceTypes::CloudTop)
        } else if v == 241 {
            Some(FixedSurfaceTypes::OrderedSequence)
        } else {
            None
        }
    }

    pub fn from_value(v: u8) -> (r: Option<FixedSurfaceTypes>)
        ensures
            r == FixedSurfaceTypes::spec_from_value(v),
    {
        match v {
            1 => Some(FixedSurfaceTypes::GroundOrWater),
            2 => Some(FixedSurfaceTypes::CloudBase),
            3 => Some(FixedSurfaceTypes::CloudTop),
            241 => Some(FixedSurfaceTypes::OrderedSequence),
            _ => None,
        }
    }
}

/// The process that generated the data.
#[derive(Debug, Clone, Copy, PartialEq, Eq, Structural)]
pub enum GeneratingProcess {
    Analysis,
    Initialization,
    Forecast,
    BiasCorrectedForecast,
    EnsembleForecast,
    ProbabilityForecast,
    ForecastError,
    AnalysisError,
    Observation,
    Climatological,
    ProbabilityWeightedForecast,
    BiasCorrectedEnsembleForecast,
    PostProcessedAnalysis,
    PostProcessedForecast,
    Nowcast,
    Hindcast,
    PhysicalRetrieval,
    RegressionAnalysis,
    DifferenceBetweenTwoForecasts,
    ForecastConfidenceIndicator,
    ProbabilityMatchedMean,
    NeighborhoodProbability,
    BiasCorrectedDownscaledEnsembleForecast,
    PerturbedAnalysisForEnsembleInitialization,
}

impl GeneratingProcess {
    /// The variant encoded by code `v`, or `None` for a code outside the table.
    pub open spec fn spec_from_value(v: u8) -> Option<GeneratingProcess> {
        if v == 0 {
            Some(GeneratingProcess::Analysis)
        } else if v == 1 {
            Some(GeneratingProcess::Initialization)
        } else if v == 2 {
            Some(GeneratingProcess::Forecast)
        } else if v == 3 {
            Some(GeneratingProcess::BiasCorrectedForecast)
        } else if v == 4 {
            Some(GeneratingProcess::EnsembleForecast)
        } else if v == 5 {
            Some(GeneratingProcess::ProbabilityForecast)
        } else if v == 6 {
            Some(GeneratingProcess::ForecastError)
        } else if v == 7 {
            Some(GeneratingProcess::AnalysisError)
        } else if v == 8 {
            Some(GeneratingProcess::Observation)
        } else if v == 9 {
            Some(GeneratingProcess::Climatological)
        } else if v == 10 {
            Some(GeneratingProcess::ProbabilityWeightedForecast)
        } else if v == 11 {
            Some(GeneratingProcess::BiasCorrectedEnsembleForecast)
        } else if v == 12 {
            Some(GeneratingProcess::PostProcessedAnalysis)
        } else if v == 13 {
            Some(GeneratingProcess::PostProcessedForecast)
        } else if v == 14 {
            Some(GeneratingProcess::Nowcast)
        } else if v == 15 {
            Some(GeneratingProcess::Hindcast)
        } else if v == 16 {
            Some(GeneratingProcess::PhysicalRetrieval)
        } else if v == 17 {
            Some(GeneratingProcess::RegressionAnalysis)
        } else if v == 18 {
            Some(GeneratingProcess::DifferenceBetweenTwoForecasts)
        } else if v == 192 {
            Some(GeneratingProcess::ForecastConfidenceIndicator)
        } else if v == 193 {
            Some(GeneratingProcess::ProbabilityMatchedMean)
        } else if v == 194 {
            Some(GeneratingProcess::NeighborhoodProbability)
        } else if v == 195 {
            Some(GeneratingProcess::BiasCorrectedDownscaledEnsembleForecast)
        } else if v == 196 {
            Some(GeneratingProcess::PerturbedAnalysisForEnsembleInitialization)
        } else {
            None
        }
    }

    pub fn from_value(v: u8) -> (r: Option<GeneratingProcess>)
        ensures
            r == GeneratingProcess::spec_from_value(v),
    {
        match v {
            0 => Some(GeneratingProcess::Analysis),
            1 => Some(GeneratingProcess::Initialization),
            2 => Some(GeneratingProcess::Forecast),
            3 => Some(GeneratingProcess::BiasCorrectedForecast),
            4 => Some(GeneratingProcess::EnsembleForecast),
            5 => Some(GeneratingProcess::ProbabilityForecast),
            6 => Some(GeneratingProcess::ForecastError),
            7 => Some(GeneratingProcess::AnalysisError),
            8 => Some(GeneratingProcess::Observation),
            9 => Some(GeneratingProcess::Climatological),
            10 => Some(GeneratingProcess::ProbabilityWeightedForecast),
            11 => Some(GeneratingProcess::BiasCorrectedEnsembleForecast),
            12 => Some(GeneratingProcess::PostProcessedAnalysis),
            13 => Some(GeneratingProcess::PostProcessedForecast),
            14 => Some(GeneratingProcess::Nowcast),
            15 => Some(GeneratingProcess::Hindcast),
            16 => Some(GeneratingProcess::PhysicalRetrieval),
            17 => Some(GeneratingProcess::RegressionAnalysis),
            18 => Some(GeneratingProcess::DifferenceBetweenTwoForecasts),
            192 => Some(GeneratingProcess::ForecastConfidenceIndicator),
            193 => Some(GeneratingProcess::ProbabilityMatchedMean),
            194 => Some(GeneratingProcess::NeighborhoodProbability),
            195 => Some(GeneratingProcess::BiasCorrectedDownscaledEnsembleForecast),
            196 => Some(GeneratingProcess::PerturbedAnalysisForEnsembleInitialization),
            _ => None,
        }
    }
}

/// The unit of a forecast time offset.
#[derive(Debug, Clone, Copy, PartialEq, Eq, Structural)]
pub enum TimeUnit {
    Minute,
    Hour,
    Day,
    Month,
    Year,
    Decade,
    Normal,
    Century,
    ThreeHours,
    SixHours,
    TwelveHours,
}

impl TimeUnit {
    /// The variant encoded by code `v`, or `None` for a code outside the table.
    pub open spec fn spec_from_value(v: u8) -> Option<TimeUnit> {
        if v == 0 {
            Some(TimeUnit::Minute)
        } else if v == 1 {
            Some(TimeUnit::Hour)
        } else if v == 2 {
            Some(TimeUnit::Day)
        } else if v == 3 {
            Some(TimeUnit::Month)
        } else if v == 4 {
            Some(TimeUnit::Year)
        } else if v == 5 {
            Some(TimeUnit::Decade)
        } else if v == 6 {
            Some(TimeUnit::Normal)
        } else if v == 7 {
            Some(TimeUnit::Century)
        } else if v == 8 {
            Some(TimeUnit::ThreeHours)
        } else if v == 9 {
            Some(TimeUnit::SixHours)
        } else if v == 10 {
            Some(TimeUnit::TwelveHours)
        } else {
            None
        }
    }

    pub fn from_value(v: u8) -> (r: Option<TimeUnit>)
        ensures
            r == TimeUnit::spec_from_value(v),
    {
        match v {
            0 => Some(TimeUnit::Minute),
            1 => Some(TimeUnit::Hour),
            2 => Some(TimeUnit::Day),
            3 => Some(TimeUnit::Month),
            4 => Some(TimeUnit::Year),
            5 => Some(TimeUnit::Decade),
            6 => Some(TimeUnit::Normal),
            7 => Some(TimeUnit::Century),
            8 => Some(TimeUnit::ThreeHours),
            9 => Some(TimeUnit::SixHours),
            10 => Some(TimeUnit::TwelveHours),
            _ => None,
        }
    }

    /// The length of this unit in minutes (months as 30 days, years as
    /// 365 days, a normal as 30 years).
    pub open spec fn spec_minutes(&self) -> int {
        match self {
            TimeUnit::Minute => 1,
            TimeUnit::Hour => 60,
            TimeUnit::Day => 1440,
            TimeUnit::Month => 43200,
            TimeUnit::Year => 525600,
            TimeUnit::Decade => 5256000,
            TimeUnit::Normal => 15768000,
            TimeUnit::Century => 52560000,
            TimeUnit::ThreeHours => 180,
            TimeUnit::SixHours => 360,
            TimeUnit::TwelveHours => 720,
        }
    }

    pub fn minutes(&self) -> (r: u32)
        ensures
            r == self.spec_minutes(),
            1 <= r <= 52560000,
    {
        match self {
            TimeUnit::Minute => 1,
            TimeUnit::Hour => 60,
            TimeUnit::Day => 1440,
            TimeUnit::Month => 43200,
            TimeUnit::Year => 525600,
            TimeUnit::Decade => 5256000,
            TimeUnit::Normal => 15768000,
            TimeUnit::Century => 52560000,
            TimeUnit::ThreeHours => 180,
            TimeUnit::SixHours => 360,
            TimeUnit::TwelveHours => 720,
        }
    }
}

/// Temperature products of the meteorological discipline (category 0).
#[derive(Debug, Clone, Copy, PartialEq, Eq, Structural)]
pub enum TemperatureProduct {
    Temperature,
    VirtualTemperature,
    PotentialTemperature,
    PseudoAdiabaticPotentialTemperature,
    MaximumTemperature,
    MinimumTemperature,
    DewpointTemperature,
    DewpointDepression,
    LapseRate,
    HeatIndex,
    WindChillFactor,
}

/// The (name, abbreviation, unit) of one TemperatureProduct entry.
pub open spec fn spec_temperature_parameter(p: TemperatureProduct) -> (Seq<char>, Seq<char>, Seq<char>) {
    match p {
        TemperatureProduct::Temperature => ("Temperature"@, "TMP"@, "K"@),
        TemperatureProduct::VirtualTemperature => ("virtual temperature"@, "VTMP"@, "K"@),
        TemperatureProduct::PotentialTemperature => ("potential temperature"@, "POT"@, "K"@),
        TemperatureProduct::PseudoAdiabaticPotentialTemperature => ("pseudo-adiabatic potential temperature"@, "EPOT"@, "K"@),
        TemperatureProduct::MaximumTemperature => ("maximum temperature"@, "TMAX"@, "K"@),
        TemperatureProduct::MinimumTemperature => ("minimum temperature"@, "TMIN"@, "K"@),
        TemperatureProduct::DewpointTemperature => ("depoint temperature"@, "DPT"@, "K"@),
        TemperatureProduct::DewpointDepression => ("dewpoint depression"@, "DEPR"@, "K"@),
        TemperatureProduct::LapseRate => ("lapse rate"@, "LAPR"@, "Km-1"@),
        TemperatureProduct::HeatIndex => ("heat index"@, "HEATX"@, "K"@),
        TemperatureProduct::WindChillFactor => ("wind chill factor"@, "WCF"@, "K"@),
    }
}

impl TemperatureProduct {
    /// The variant encoded by parameter number `v`, or `None` for a
    /// number outside the table.
    pub open spec fn spec_from_value(v: u8) -> Option<TemperatureProduct> {
        if v == 0 {
            Some(TemperatureProduct::Temperature)
        } else if v == 1 {
            Some(TemperatureProduct::VirtualTemperature)
        } else if v == 2 {
            Some(TemperatureProduct::PotentialTemperature)
        } else if v == 3 {
            Some(TemperatureProduct::PseudoAdiabaticPotentialTemperature)
        } else if v == 4 {
            Some(TemperatureProduct::MaximumTemperature)
        } else if v == 5 {
            Some(TemperatureProduct::MinimumTemperature)
        } else if v == 6 {
            Some(TemperatureProduct::DewpointTemperature)
        } else if v == 7 {
            Some(TemperatureProduct::DewpointDepression)
        } else if v == 8 {
            Some(TemperatureProduct::LapseRate)
        } else if v == 12 {
            Some(TemperatureProduct::HeatIndex)
        } else if v == 13 {
            Some(TemperatureProduct::WindChillFactor)
        } else {
            None
        }
    }

    pub fn from_value(v: u8) -> (r: Option<TemperatureProduct>)
        ensures
            r == TemperatureProduct::spec_from_value(v),
    {
        match v {
            0 => Some(TemperatureProduct::Temperature),
            1 => Some(TemperatureProduct::VirtualTemperature),
            2 => Some(TemperatureProduct::PotentialTemperature),
            3 => Some(TemperatureProduct::PseudoAdiabaticPotentialTemperature),
            4 => Some(TemperatureProduct::MaximumTemperature),
            5 => Some(TemperatureProduct::MinimumTemperature),
            6 => Some(TemperatureProduct::DewpointTemperature),
            7 => Some(TemperatureProduct::DewpointDepression),
            8 => Some(TemperatureProduct::LapseRate),
            12 => Some(TemperatureProduct::HeatIndex),
            13 => Some(TemperatureProduct::WindChillFactor),
            _ => None,
        }
    }

    /// The parameter identity of this entry of the table.
    pub fn parameter(&self) -> (r: Parameter)
        ensures
            (r.name@, r.abbrev@, r.unit@) == spec_temperature_parameter(*self),
    {
        match self {
            TemperatureProduct::Temperature => Parameter {
                name: "Temperature".to_owned(),
                abbrev: "TMP".to_owned(),
                unit: "K".to_owned(),
            },
            TemperatureProduct::VirtualTemperature => Parameter {
                name: "virtual temperature".to_owned(),
                abbrev: "VTMP".to_owned(),
                unit: "K".to_owned(),
            },
            TemperatureProduct::PotentialTemperature => Parameter {
                name: "potential temperature".to_owned(),
                abbrev: "POT".to_owned(),
                unit: "K".to_owned(),
            },
            TemperatureProduct::PseudoAdiabaticPotentialTemperature => Parameter {
                name: "pseudo-adiabatic potential temperature".to_owned(),
                abbrev: "EPOT".to_owned(),
                unit: "K".to_owned(),
            },
            TemperatureProduct::MaximumTemperature => Parameter {
                name: "maximum temperature".to_owned(),
                abbrev: "TMAX".to_owned(),
                unit: "K".to_owned(),
            },
            TemperatureProduct::MinimumTemperature => Parameter {
                name: "minimum temperature".to_owned(),
                abbrev: "TMIN".to_owned(),
                unit: "K".to_owned(),
            },
            TemperatureProduct::DewpointTemperature => Parameter {
                name: "depoint temperature".to_owned(),
                abbrev: "DPT".to_owned(),
                unit: "K".to_owned(),
            },
            TemperatureProduct::DewpointDepression => Parameter {
                name: "dewpoint depression".to_owned(),
                abbrev: "DEPR".to_owned(),
                unit: "K".to_owned(),
            },
            TemperatureProduct::LapseRate => Parameter {
                name: "lapse rate".to_owned(),
                abbrev: "LAPR".to_owned(),
                unit: "Km-1".to_owned(),
            },
            TemperatureProduct::HeatIndex => Parameter {
                name: "heat index".to_owned(),
                abbrev: "HEATX".to_owned(),
                unit: "K".to_owned(),
            },
            TemperatureProduct::WindChillFactor => Parameter {
                name: "wind chill factor".to_owned(),
                abbrev: "WCF".to_owned(),
                unit: "K".to_owned(),
            },
        }
    }
}

/// Moisture products of the meteorological discipline (category 1).
#[derive(Debug, Clone, Copy, PartialEq, Eq, Structural)]
pub enum MoistureProduct {
    SpecificHumidity,
    RelativeHumidity,
    HumidityMixingRatio,
    PrecipitableWater,
    Evaporation,
    PrecipitationRate,
    TotalPrecipitation,
}

/// The (name, abbreviation, unit) of one MoistureProduct entry.
pub open spec fn spec_moisture_parameter(p: MoistureProduct) -> (Seq<char>, Seq<char>, Seq<char>) {
    match p {
        MoistureProduct::SpecificHumidity => ("specific humidity"@, "SPFH"@, "kgkg-1"@),
        MoistureProduct::RelativeHumidity => ("relative humidity"@, "RH"@, "%"@),
        MoistureProduct::HumidityMixingRatio => ("humidity mixing ratio"@, "MIXR"@, "kgkg-1"@),
        MoistureProduct::PrecipitableWater => ("precipitable water"@, "PWAT"@, "kgm-2"@),
        MoistureProduct::Evaporation => ("Evaporation"@, "EVP"@, "kgm-2"@),
        MoistureProduct::PrecipitationRate => ("precipitation rate"@, "PRATE"@, "kgm-2s-1"@),
        MoistureProduct::TotalPrecipitation => ("total precipitation"@, "APCP"@, "kgm-2"@),
    }
}

impl MoistureProduct {
    /// The variant encoded by parameter number `v`, or `None` for a
    /// number outside the table.
    pub open spec fn spec_from_value(v: u8) -> Option<MoistureProduct> {
        if v == 0 {
            Some(MoistureProduct::SpecificHumidity)
        } else if v == 1 {
            Some(MoistureProduct::RelativeHumidity)
        } else if v == 2 {
            Some(MoistureProduct::HumidityMixingRatio)
        } else if v == 3 {
            Some(MoistureProduct::PrecipitableWater)
        } else if v == 4 {
            Some(MoistureProduct::Evaporation)
        } else if v == 5 {
            Some(MoistureProduct::PrecipitationRate)
        } else if v == 8 {
            Some(MoistureProduct::TotalPrecipitation)
        } else {
            None
        }
    }

    pub fn from_value(v: u8) -> (r: Option<MoistureProduct>)
        ensures
            r == MoistureProduct::spec_from_value(v),
    {
        match v {
            0 => Some(MoistureProduct::SpecificHumidity),
            1 => Some(MoistureProduct::RelativeHumidity),
            2 => Some(MoistureProduct::HumidityMixingRatio),
            3 => Some(MoistureProduct::PrecipitableWater),
            4 => Some(MoistureProduct::Evaporation),
            5 => Some(MoistureProduct::PrecipitationRate),
            8 => Some(MoistureProduct::TotalPrecipitation),
            _ => None,
        }
    }

    /// The parameter identity of this entry of the table.
    pub fn parameter(&self) -> (r: Parameter)
        ensures
            (r.name@, r.abbrev@, r.unit@) == spec_moisture_parameter(*self),
    {
        match self {
            MoistureProduct::SpecificHumidity => Parameter {
                name: "specific humidity".to_owned(),
                abbrev: "SPFH".to_owned(),
                unit: "kgkg-1".to_owned(),
            },
            MoistureProduct::RelativeHumidity => Parameter {
                name: "relative humidity".to_owned(),
                abbrev: "RH".to_owned(),
                unit: "%".to_owned(),
            },
            MoistureProduct::HumidityMixingRatio => Parameter {
                name: "humidity mixing ratio".to_owned(),
                abbrev: "MIXR".to_owned(),
                unit: "kgkg-1".to_owned(),
            },
            MoistureProduct::PrecipitableWater => Parameter {
                name: "precipitable water".to_owned(),
                abbrev: "PWAT".to_owned(),
                unit: "kgm-2".to_owned(),
            },
            MoistureProduct::Evaporation => Parameter {
                name: "Evaporation".to_owned(),
                abbrev: "EVP".to_owned(),
                unit: "kgm-2".to_owned(),
            },
            MoistureProduct::PrecipitationRate => Parameter {
                name: "precipitation rate".to_owned(),
                abbrev: "PRATE".to_owned(),
                unit: "kgm-2s-1".to_owned(),
            },
            MoistureProduct::TotalPrecipitation => Parameter {
                name: "total precipitation".to_owned(),
                abbrev: "APCP".to_owned(),
                unit: "kgm-2".to_owned(),
            },
        }
    }
}

/// Momentum products of the meteorological discipline (category 2).
#[derive(Debug, Clone, Copy, PartialEq, Eq, Structural)]
pub enum MomentumProduct {
    WindDirection,
    WindSpeed,
    UComponentWindSpeed,
    VComponentWindSpeed,
    MaximumWindSpeed,
    WindGust,
    UComponentWindGust,
    VComponentWindGust,
    WindFetch,
}

/// The (name, abbreviation, unit) of one MomentumProduct entry.
pub open spec fn spec_momentum_parameter(p: MomentumProduct) -> (Seq<char>, Seq<char>, Seq<char>) {
    match p {
        MomentumProduct::WindDirection => ("wind direction"@, "WDIR"@, "degrees"@),
        MomentumProduct::WindSpeed => ("wind speed"@, "WIND"@, "ms-1"@),
        MomentumProduct::UComponentWindSpeed => ("u-component of wind speed"@, "UGRD"@, "ms-1"@),
        MomentumProduct::VComponentWindSpeed => ("v-component of wind speed"@, "VGRD"@, "ms-1"@),
        MomentumProduct::MaximumWindSpeed => ("Maximum wind speed"@, "MAXGUST"@, "ms-1"@),
        MomentumProduct::WindGust => ("wind gust speed"@, "GUST"@, "ms-1"@),
        MomentumProduct::UComponentWindGust => ("u-component of wind gust"@, "UGUST"@, "ms-1"@),
        MomentumProduct::VComponentWindGust => ("v-component of wind gust"@, "VGUST"@, "ms-1"@),
        MomentumProduct::WindFetch => ("wind fetch"@, "WINDF"@, "m"@),
    }
}

impl MomentumProduct {
    /// The variant encoded by parameter number `v`, or `None` for a
    /// number outside the table.
    pub open spec fn spec_from_value(v: u8) -> Option<MomentumProduct> {
        if v == 0 {
            Some(MomentumProduct::WindDirection)
        } else if v == 1 {
            Some(MomentumProduct::WindSpeed)
        } else if v == 2 {
            Some(MomentumProduct::UComponentWindSpeed)
        } else if v == 3 {
            Some(MomentumProduct::VComponentWindSpeed)
        } else if v == 21 {
            Some(MomentumProduct::MaximumWindSpeed)
        } else if v == 22 {
            Some(MomentumProduct::WindGust)
        } else if v == 23 {
            Some(MomentumProduct::UComponentWindGust)
        } else if v == 24 {
            Some(MomentumProduct::VComponentWindGust)
        } else if v == 33 {
            Some(MomentumProduct::WindFetch)
        } else {
            None
        }
    }

    pub fn from_value(v: u8) -> (r: Option<MomentumProduct>)
        ensures
            r == MomentumProduct::spec_from_value(v),
    {
        match v {
            0 => Some(MomentumProduct::WindDirection),
            1 => Some(MomentumProduct::WindSpeed),
            2 => Some(MomentumProduct::UComponentWindSpeed),
            3 => Some(MomentumProduct::VComponentWindSpeed),
            21 => Some(MomentumProduct::MaximumWindSpeed),
            22 => Some(MomentumProduct::WindGust),
            23 => Some(MomentumProduct::UComponentWindGust),
            24 => Some(MomentumProduct::VComponentWindGust),
            33 => Some(MomentumProduct::WindFetch),
            _ => None,
        }
    }

    /// The parameter identity of this entry of the table.
    pub fn parameter(&self) -> (r: Parameter)
        ensures
            (r.name@, r.abbrev@, r.unit@) == spec_momentum_parameter(*self),
    {
        match self {
            MomentumProduct::WindDirection => Parameter {
                name: "wind direction".to_owned(),
                abbrev: "WDIR".to_owned(),
                unit: "degrees".to_owned(),
            },
            MomentumProduct::WindSpeed => Parameter {
                name: "wind speed".to_owned(),
                abbrev: "WIND".to_owned(),
                unit: "ms-1".to_owned(),
            },
            MomentumProduct::UComponentWindSpeed => Parameter {
                name: "u-component of wind speed".to_owned(),
                abbrev: "UGRD".to_owned(),
                unit: "ms-1".to_owned(),
            },
            MomentumProduct::VComponentWindSpeed => Parameter {
                name: "v-component of wind speed".to_owned(),
                abbrev: "VGRD".to_owned(),
                unit: "ms-1".to_owned(),
            },
            MomentumProduct::MaximumWindSpeed => Parameter {
                name: "Maximum wind speed".to_owned(),
                abbrev: "MAXGUST".to_owned(),
                unit: "ms-1".to_owned(),
            },
            MomentumProduct::WindGust => Parameter {
                name: "wind gust speed".to_owned(),
                abbrev: "GUST".to_owned(),
                unit: "ms-1".to_owned(),
            },
            MomentumProduct::UComponentWindGust => Parameter {
                name: "u-component of wind gust".to_owned(),
                abbrev: "UGUST".to_owned(),
                unit: "ms-1".to_owned(),
            },
            MomentumProduct::VComponentWindGust => Parameter {
                name: "v-component of wind gust".to_owned(),
                abbrev: "VGUST".to_owned(),
                unit: "ms-1".to_owned(),
            },
            MomentumProduct::WindFetch => Parameter {
                name: "wind fetch".to_owned(),
                abbrev: "WINDF".to_owned(),
                unit: "m".to_owned(),
            },
        }
    }
}

/// Mass products of the meteorological discipline (category 3).
#[derive(Debug, Clone, Copy, PartialEq, Eq, Structural)]
pub enum MassProduct {
    Pressure,
    PressureReducedMSL,
    PressureTendency,
}

/// The (name, abbreviation, unit) of one MassProduct entry.
pub open spec fn spec_mass_parameter(p: MassProduct) -> (Seq<char>, Seq<char>, Seq<char>) {
    match p {
        MassProduct::Pressure => ("Pressure"@, "PRES"@, "pa"@),
        MassProduct::PressureReducedMSL => ("pressure reduced to MSL"@, "PRMSL"@, "pa"@),
        MassProduct::PressureTendency => ("pressure tendency"@, "PTEND"@, "pas-1"@),
    }
}

impl MassProduct {
    /// The variant encoded by parameter number `v`, or `None` for a
    /// number outside the table.
    pub open spec fn spec_from_value(v: u8) -> Option<MassProduct> {
        if v == 0 {
            Some(MassProduct::Pressure)
        } else if v == 1 {
            Some(MassProduct::PressureReducedMSL)
        } else if v == 2 {
            Some(MassProduct::PressureTendency)
        } else {
            None
        }
    }

    pub fn from_value(v: u8) -> (r: Option<MassProduct>)
        ensures
            r == MassProduct::spec_from_value(v),
    {
        match v {
            0 => Some(MassProduct::Pressure),
            1 => Some(MassProduct::PressureReducedMSL),
            2 => Some(MassProduct::PressureTendency),
            _ => None,
        }
    }

    /// The parameter identity of this entry of the table.
    pub fn parameter(&self) -> (r: Parameter)
        ensures
            (r.name@, r.abbrev@, r.unit@) == spec_mass_parameter(*self),
    {
        match self {
            MassProduct::Pressure => Parameter {
                name: "Pressure".to_owned(),
                abbrev: "PRES".to_owned(),
                unit: "pa".to_owned(),
            },
            MassProduct::PressureReducedMSL => Parameter {
                name: "pressure reduced to MSL".to_owned(),
                abbrev: "PRMSL".to_owned(),
                unit: "pa".to_owned(),
            },
            MassProduct::PressureTendency => Parameter {
                name: "pressure tendency".to_owned(),
                abbrev: "PTEND".to_owned(),
                unit: "pas-1".to_owned(),
            },
        }
    }
}

/// Wave products of the oceanographic discipline (category 0).
#[derive(Debug, Clone, Copy, PartialEq, Eq, Structural)]
pub enum WavesProduct {
    WaveSpectra1,
    WaveSpectra2,
    WaveSpectra3,
    SignificantWaveHeight,
    WindWaveDirection,
    WindSignificantWaveHeight,
    WindWaveMeanPeriod,
    SwellWaveDirection,
    SwellSignificantWaveHeight,
    SwellMeanPeriod,
    PrimaryWaveDirection,
    PrimaryMeanPeriod,
    SecondaryWaveDirection,
    SecondaryMeanPeriod,
    CombinedWaveDirection,
    CombinedMeanPeriod,
    WaveDragCoefficient,
    FrictionVelocity,
    WaveStress,
    NormalizedWaveStress,
    MeanSquareWaveSlope,
    UComponentStokesDrift,
    VComponentStokesDrift,
    MaxWaveHeightPeriod,
    MaxWaveHeight,
    InverseMeanWaveFrequency,
    InverseMeanWindWaveFrequency,
    InverseMeanTotalSwellFrequency,
    MeanZeroCrossingWavePeriod,
    MeanZeroCrossingWindWavePeriod,
    MeanZeroCrossingTotalSwellPeriod,
    DirectionalWidthWaves,
    DirectionalWidthWindWaves,
    DirectionalWidthTotalSwell,
    PeakWavePeriod,
    PeakWindWavePeriod,
    PeakTotalSwellPeriod,
    AltimeterWaveHeight,
    AltimeterCorrectedWaveHeight,
    AltimeterRangeRelativeCorrection,
    NeutralWindSpeedOverWaves,
    WindDirectionOverWaves,
    WaveEnergySpectrum,
    KurtosisFromWaves,
    BejaminFeirIndex,
    SpectralPeakednessFactor,
    WaveSteepness,
    WaveLength,
}

/// The (name, abbreviation, unit) of one WavesProduct entry.
pub open spec fn spec_waves_parameter(p: WavesProduct) -> (Seq<char>, Seq<char>, Seq<char>) {
    match p {
        WavesProduct::WaveSpectra1 => ("primary wave spectra"@, "WVSP1"@, "-"@),
        WavesProduct::WaveSpectra2 => ("secondary wave spectra"@, "-"@, "WVSP2"@),
        WavesProduct::WaveSpectra3 => ("tertiary wave spectra"@, "-"@, "WVSP3"@),
        WavesProduct::SignificantWaveHeight => ("significant wave height of combined wind and swell waves"@, "HTSGW"@, "m"@),
        WavesProduct::WindWaveDirection => ("direction of wind waves"@, "WVDIR"@, "degree"@),
        WavesProduct::WindSignificantWaveHeight => ("significant height of wind waves"@, "WVHGT"@, "m"@),
        WavesProduct::WindWaveMeanPeriod => ("mean period of wind waves"@, "WVPER"@, "s"@),
        WavesProduct::SwellWaveDirection => ("direction of swell waves"@, "SWDIR"@, "degree"@),
        WavesProduct::SwellSignificantWaveHeight => ("significant height of swell waves"@, "SWELL"@, "m"@),
        WavesProduct::SwellMeanPeriod => ("mean period of swell waves"@, "SWPER"@, "s"@),
        WavesProduct::PrimaryWaveDirection => ("primary wave direction"@, "DIRPW"@, "degree"@),
        WavesProduct::PrimaryMeanPeriod => ("primary wave mean period"@, "PERPW"@, "s"@),
        WavesProduct::SecondaryWaveDirection => ("secondary wave direction"@, "DIRSW"@, "degree"@),
        WavesProduct::SecondaryMeanPeriod => ("secondary wave mean period"@, "PERSW"@, "s"@),
        WavesProduct::CombinedWaveDirection => ("direction of combined wind and swell waves"@, "WWSDIR"@, "degree"@),
        WavesProduct::CombinedMeanPeriod => ("mean period of combined wind and swell waves"@, "MWSPER"@, "s"@),
        WavesProduct::WaveDragCoefficient => ("coefficient of drag with waves"@, "CDWW"@, "-"@),
        WavesProduct::FrictionVelocity => ("friction velocity"@, "FRICV"@, "ms-1"@),
        WavesProduct::WaveStress => ("wave stress"@, "WSTR"@, "Nm-2"@),
        WavesProduct::NormalizedWaveStress => ("normalized wave stress"@, "NWSTR"@, "-"@),
        WavesProduct::MeanSquareWaveSlope => ("mean square slope of waves"@, "MSSW"@, "-"@),
        WavesProduct::UComponentStokesDrift => ("u-component of stokes drift"@, "USSD"@, "ms-1"@),
        WavesProduct::VComponentStokesDrift => ("v-component of stokes drift"@, "VSSD"@, "ms-1"@),
        WavesProduct::MaxWaveHeightPeriod => ("period of maximumm individual wave height"@, "PMAXWH"@, "s"@),
        WavesProduct::MaxWaveHeight => ("maximum individual wave height"@, "MAXWH"@, "m"@),
        WavesProduct::InverseMeanWaveFrequency => ("inverse mean wave frequency"@, "IMWF"@, "s"@),
        WavesProduct::InverseMeanWindWaveFrequency => ("inverse mean frequency of the wind waves"@, "IMFWW"@, "s"@),
        WavesProduct::InverseMeanTotalSwellFrequency => ("inverse mean frequency of the total swell"@, "IMFTSW"@, "s"@),
        WavesProduct::MeanZeroCrossingWavePeriod => ("mean zero crossing wave period"@, "MZWPER"@, "s"@),
        WavesProduct::MeanZeroCrossingWindWavePeriod => ("mean zero crossing period of the wind waves"@, "MZPWW"@, "s"@),
        WavesProduct::MeanZeroCrossingTotalSwellPeriod => ("mean zero crossing of the total swell"@, "MZPTSW"@, "s"@),
        WavesProduct::DirectionalWidthWaves => ("wave directional width"@, "WDIRW"@, "-"@),
        WavesProduct::DirectionalWidthWindWaves => ("directional width of the wind waves"@, "DIRWWW"@, "-"@),
        WavesProduct::DirectionalWidthTotalSwell => ("directional width of the total swell"@, "DIRWTS"@, "-"@),
        WavesProduct::PeakWavePeriod => ("peak wave period"@, "PWPER"@, "s"@),
        WavesProduct::PeakWindWavePeriod => ("peak period of the wind waves"@, "PPERWW"@, "s"@),
        WavesProduct::PeakTotalSwellPeriod => ("peak period of the total swell"@, "PPERTS"@, "s"@),
        WavesProduct::AltimeterWaveHeight => ("altimeter wave height"@, "ALTWH"@, "m"@),
        WavesProduct::AltimeterCorrectedWaveHeight => ("altimeter corrected wave height"@, "ALCWH"@, "m"@),
        WavesProduct::AltimeterRangeRelativeCorrection => ("altimeter range relative correction"@, "ALRRC"@, "-"@),
        WavesProduct::NeutralWindSpeedOverWaves => ("10 meter neutral wind speed over waves"@, "MNWSOW"@, "ms-1"@),
        WavesProduct::WindDirectionOverWaves => ("10 meter wind direction over waves"@, "MWDIRW"@, "degree"@),
        WavesProduct::WaveEnergySpectrum => ("wave energy spectrum"@, "WESP"@, "m-2 s rad-1"@),
        WavesProduct::KurtosisFromWaves => ("kurtosis of the sea surface elevation due to waves"@, "KSSEW"@, "-"@),
        WavesProduct::BejaminFeirIndex => ("benjamin-feir index"@, "BENINX"@, "-"@),
        WavesProduct::SpectralPeakednessFactor => ("spectral peakedness factor"@, "SPFTR"@, "s-1"@),
        WavesProduct::WaveSteepness => ("wave steepness"@, "WSTP"@, "porportion"@),
        WavesProduct::WaveLength => ("wave length"@, "WLENG"@, "-"@),
    }
}

impl WavesProduct {
    /// The variant encoded by parameter number `v`, or `None` for a
    /// number outside the table.
    pub open spec fn spec_from_value(v: u8) -> Option<WavesProduct> {
        if v == 0 {
            Some(WavesProduct::WaveSpectra1)
        } else if v == 1 {
            Some(WavesProduct::WaveSpectra2)
        } else if v == 2 {
            Some(WavesProduct::WaveSpectra3)
        } else if v == 3 {
            Some(WavesProduct::SignificantWaveHeight)
        } else if v == 4 {
            Some(WavesProduct::WindWaveDirection)
        } else if v == 5 {
            Some(WavesProduct::WindSignificantWaveHeight)
        } else if v == 6 {
            Some(WavesProduct::WindWaveMeanPeriod)
        } else if v == 7 {
            Some(WavesProduct::SwellWaveDirection)
        } else if v == 8 {
            Some(WavesProduct::SwellSignificantWaveHeight)
        } else if v == 9 {
            Some(WavesProduct::SwellMeanPeriod)
        } else if v == 10 {
            Some(WavesProduct::PrimaryWaveDirection)
        } else if v == 11 {
            Some(WavesProduct::PrimaryMeanPeriod)
        } else if v == 12 {
            Some(WavesProduct::SecondaryWaveDirection)
        } else if v == 13 {
            Some(WavesProduct::SecondaryMeanPeriod)
        } else if v == 14 {
            Some(WavesProduct::CombinedWaveDirection)
        } else if v == 15 {
            Some(WavesProduct::CombinedMeanPeriod)
        } else if v == 16 {
            Some(WavesProduct::WaveDragCoefficient)
        } else if v == 17 {
            Some(WavesProduct::FrictionVelocity)
        } else if v == 18 {
            Some(WavesProduct::WaveStress)
        } else if v == 19 {
            Some(WavesProduct::NormalizedWaveStress)
        } else if v == 20 {
            Some(WavesProduct::MeanSquareWaveSlope)
        } else if v == 21 {
            Some(WavesProduct::UComponentStokesDrift)
        } else if v == 22 {
            Some(WavesProduct::VComponentStokesDrift)
        } else if v == 23 {
            Some(WavesProduct::MaxWaveHeightPeriod)
        } else if v == 24 {
            Some(WavesProduct::MaxWaveHeight)
        } else if v == 25 {
            Some(WavesProduct::InverseMeanWaveFrequency)
        } else if v == 26 {
            Some(WavesProduct::InverseMeanWindWaveFrequency)
        } else if v == 27 {
            Some(WavesProduct::InverseMeanTotalSwellFrequency)
        } else if v == 28 {
            Some(WavesProduct::MeanZeroCrossingWavePeriod)
        } else if v == 29 {
            Some(WavesProduct::MeanZeroCrossingWindWavePeriod)
        } else if v == 30 {
            Some(WavesProduct::MeanZeroCrossingTotalSwellPeriod)
        } else if v == 31 {
            Some(WavesProduct::DirectionalWidthWaves)
        } else if v == 32 {
            Some(WavesProduct::DirectionalWidthWindWaves)
        } else if v == 33 {
            Some(WavesProduct::DirectionalWidthTotalSwell)
        } else if v == 34 {
            Some(WavesProduct::PeakWavePeriod)
        } else if v == 35 {
            Some(WavesProduct::PeakWindWavePeriod)
        } else if v == 36 {
            Some(WavesProduct::PeakTotalSwellPeriod)
        } else if v == 37 {
            Some(WavesProduct::AltimeterWaveHeight)
        } else if v == 38 {
            Some(WavesProduct::AltimeterCorrectedWaveHeight)
        } else if v == 39 {
            Some(WavesProduct::AltimeterRangeRelativeCorrection)
        } else if v == 40 {
            Some(WavesProduct::NeutralWindSpeedOverWaves)
        } else if v == 41 {
            Some(WavesProduct::WindDirectionOverWaves)
        } else if v == 42 {
            Some(WavesProduct::WaveEnergySpectrum)
        } else if v == 43 {
            Some(WavesProduct::KurtosisFromWaves)
        } else if v == 44 {
            Some(WavesProduct::BejaminFeirIndex)
        } else if v == 45 {
            Some(WavesProduct::SpectralPeakednessFactor)
        } else if v == 192 {
            Some(WavesProduct::WaveSteepness)
        } else if v == 193 {
            Some(WavesProduct::WaveLength)
        } else {
            None
        }
    }

    pub fn from_value(v: u8) -> (r: Option<WavesProduct>)
        ensures
            r == WavesProduct::spec_from_value(v),
    {
        match v {
            0 => Some(WavesProduct::WaveSpectra1),
            1 => Some(WavesProduct::WaveSpectra2),
            2 => Some(WavesProduct::WaveSpectra3),
            3 => Some(WavesProduct::SignificantWaveHeight),
            4 => Some(WavesProduct::WindWaveDirection),
            5 => Some(WavesProduct::WindSignificantWaveHeight),
            6 => Some(WavesProduct::WindWaveMeanPeriod),
            7 => Some(WavesProduct::SwellWaveDirection),
            8 => Some(WavesProduct::SwellSignificantWaveHeight),
            9 => Some(WavesProduct::SwellMeanPeriod),
            10 => Some(WavesProduct::PrimaryWaveDirection),
            11 => Some(WavesProduct::PrimaryMeanPeriod),
            12 => Some(WavesProduct::SecondaryWaveDirection),
            13 => Some(WavesProduct::SecondaryMeanPeriod),
            14 => Some(WavesProduct::CombinedWaveDirection),
            15 => Some(WavesProduct::CombinedMeanPeriod),
            16 => Some(WavesProduct::WaveDragCoefficient),
            17 => Some(WavesProduct::FrictionVelocity),
            18 => Some(WavesProduct::WaveStress),
            19 => Some(WavesProduct::NormalizedWaveStress),
            20 => Some(WavesProduct::MeanSquareWaveSlope),
            21 => Some(WavesProduct::UComponentStokesDrift),
            22 => Some(WavesProduct::VComponentStokesDrift),
            23 => Some(WavesProduct::MaxWaveHeightPeriod),
            24 => Some(WavesProduct::MaxWaveHeight),
            25 => Some(WavesProduct::InverseMeanWaveFrequency),
            26 => Some(WavesProduct::InverseMeanWindWaveFrequency),
            27 => Some(WavesProduct::InverseMeanTotalSwellFrequency),
            28 => Some(WavesProduct::MeanZeroCrossingWavePeriod),
            29 => Some(WavesProduct::MeanZeroCrossingWindWavePeriod),
            30 => Some(WavesProduct::MeanZeroCrossingTotalSwellPeriod),
            31 => Some(WavesProduct::DirectionalWidthWaves),
            32 => Some(WavesProduct::DirectionalWidthWindWaves),
            33 => Some(WavesProduct::DirectionalWidthTotalSwell),
            34 => Some(WavesProduct::PeakWavePeriod),
            35 => Some(WavesProduct::PeakWindWavePeriod),
            36 => Some(WavesProduct::PeakTotalSwellPeriod),
            37 => Some(WavesProduct::AltimeterWaveHeight),
            38 => Some(WavesProduct::AltimeterCorrectedWaveHeight),
            39 => Some(WavesProduct::AltimeterRangeRelativeCorrection),
            40 => Some(WavesProduct::NeutralWindSpeedOverWaves),
            41 => Some(WavesProduct::WindDirectionOverWaves),
            42 => Some(WavesProduct::WaveEnergySpectrum),
            43 => Some(WavesProduct::KurtosisFromWaves),
            44 => Some(WavesProduct::BejaminFeirIndex),
            45 => Some(WavesProduct::SpectralPeakednessFactor),
            192 => Some(WavesProduct::WaveSteepness),
            193 => Some(WavesProduct::WaveLength),
            _ => None,
        }
    }

    /// The parameter identity of this entry of the table.
    pub fn parameter(&self) -> (r: Parameter)
        ensures
            (r.name@, r.abbrev@, r.unit@) == spec_waves_parameter(*self),
    {
        match self {
            WavesProduct::WaveSpectra1 => Parameter {
                name: "primary wave spectra".to_owned(),
                abbrev: "WVSP1".to_owned(),
                unit: "-".to_owned(),
            },
            WavesProduct::WaveSpectra2 => Parameter {
                name: "secondary wave spectra".to_owned(),
                abbrev: "-".to_owned(),
                unit: "WVSP2".to_owned(),
            },
            WavesProduct::WaveSpectra3 => Parameter {
                name: "tertiary wave spectra".to_owned(),
                abbrev: "-".to_owned(),
                unit: "WVSP3".to_owned(),
            },
            WavesProduct::SignificantWaveHeight => Parameter {
                name: "significant wave height of combined wind and swell waves".to_owned(),
                abbrev: "HTSGW".to_owned(),
                unit: "m".to_owned(),
            },
            WavesProduct::WindWaveDirection => Parameter {
                name: "direction of wind waves".to_owned(),
                abbrev: "WVDIR".to_owned(),
                unit: "degree".to_owned(),
            },
            WavesProduct::WindSignificantWaveHeight => Parameter {
                name: "significant height of wind waves".to_owned(),
                abbrev: "WVHGT".to_owned(),
                unit: "m".to_owned(),
            },
            WavesProduct::WindWaveMeanPeriod => Parameter {
                name: "mean period of wind waves".to_owned(),
                abbrev: "WVPER".to_owned(),
                unit: "s".to_owned(),
            },
            WavesProduct::SwellWaveDirection => Parameter {
                name: "direction of swell waves".to_owned(),
                abbrev: "SWDIR".to_owned(),
                unit: "degree".to_owned(),
            },
            WavesProduct::SwellSignificantWaveHeight => Parameter {
                name: "significant height of swell waves".to_owned(),
                abbrev: "SWELL".to_owned(),
                unit: "m".to_owned(),
            },
            WavesProduct::SwellMeanPeriod => Parameter {
                name: "mean period of swell waves".to_owned(),
                abbrev: "SWPER".to_owned(),
                unit: "s".to_owned(),
            },
            WavesProduct::PrimaryWaveDirection => Parameter {
                name: "primary wave direction".to_owned(),
                abbrev: "DIRPW".to_owned(),
                unit: "degree".to_owned(),
            },
            WavesProduct::PrimaryMeanPeriod => Parameter {
                name: "primary wave mean period".to_owned(),
                abbrev: "PERPW".to_owned(),
                unit: "s".to_owned(),
            },
            WavesProduct::SecondaryWaveDirection => Parameter {
                name: "secondary wave direction".to_owned(),
                abbrev: "DIRSW".to_owned(),
                unit: "degree".to_owned(),
            },
            WavesProduct::SecondaryMeanPeriod => Parameter {
                name: "secondary wave mean period".to_owned(),
                abbrev: "PERSW".to_owned(),
                unit: "s".to_owned(),
            },
            WavesProduct::CombinedWaveDirection => Parameter {
                name: "direction of combined wind and swell waves".to_owned(),
                abbrev: "WWSDIR".to_owned(),
                unit: "degree".to_owned(),
            },
            WavesProduct::CombinedMeanPeriod => Parameter {
                name: "mean period of combined wind and swell waves".to_owned(),
                abbrev: "MWSPER".to_owned(),
                unit: "s".to_owned(),
            },
            WavesProduct::WaveDragCoefficient => Parameter {
                name: "coefficient of drag with waves".to_owned(),
                abbrev: "CDWW".to_owned(),
                unit: "-".to_owned(),
            },
            WavesProduct::FrictionVelocity => Parameter {
                name: "friction velocity".to_owned(),
                abbrev: "FRICV".to_owned(),
                unit: "ms-1".to_owned(),
            },
            WavesProduct::WaveStress => Parameter {
                name: "wave stress".to_owned(),
                abbrev: "WSTR".to_owned(),
                unit: "Nm-2".to_owned(),
            },
            WavesProduct::NormalizedWaveStress => Parameter {
                name: "normalized wave stress".to_owned(),
                abbrev: "NWSTR".to_owned(),
                unit: "-".to_owned(),
            },
            WavesProduct::MeanSquareWaveSlope => Parameter {
                name: "mean square slope of waves".to_owned(),
                abbrev: "MSSW".to_owned(),
                unit: "-".to_owned(),
            },
            WavesProduct::UComponentStokesDrift => Parameter {
                name: "u-component of stokes drift".to_owned(),
                abbrev: "USSD".to_owned(),
                unit: "ms-1".to_owned(),
            },
            WavesProduct::VComponentStokesDrift => Parameter {
                name: "v-component of stokes drift".to_owned(),
                abbrev: "VSSD".to_owned(),
                unit: "ms-1".to_owned(),
            },
            WavesProduct::MaxWaveHeightPeriod => Parameter {
                name: "period of maximumm individual wave height".to_owned(),
                abbrev: "PMAXWH".to_owned(),
                unit: "s".to_owned(),
            },
            WavesProduct::MaxWaveHeight => Parameter {
                name: "maximum individual wave height".to_owned(),
                abbrev: "MAXWH".to_owned(),
                unit: "m".to_owned(),
            },
            WavesProduct::InverseMeanWaveFrequency => Parameter {
                name: "inverse mean wave frequency".to_owned(),
                abbrev: "IMWF".to_owned(),
                unit: "s".to_owned(),
            },
            WavesProduct::InverseMeanWindWaveFrequency => Parameter {
                name: "inverse mean frequency of the wind waves".to_owned(),
                abbrev: "IMFWW".to_owned(),
                unit: "s".to_owned(),
            },
            WavesProduct::InverseMeanTotalSwellFrequency => Parameter {
                name: "inverse mean frequency of the total swell".to_owned(),
                abbrev: "IMFTSW".to_owned(),
                unit: "s".to_owned(),
            },
            WavesProduct::MeanZeroCrossingWavePeriod => Parameter {
                name: "mean zero crossing wave period".to_owned(),
                abbrev: "MZWPER".to_owned(),
                unit: "s".to_owned(),
            },
            WavesProduct::MeanZeroCrossingWindWavePeriod => Parameter {
                name: "mean zero crossing period of the wind waves".to_owned(),
                abbrev: "MZPWW".to_owned(),
                unit: "s".to_owned(),
            },
            WavesProduct::MeanZeroCrossingTotalSwellPeriod => Parameter {
                name: "mean zero crossing of the total swell".to_owned(),
                abbrev: "MZPTSW".to_owned(),
                unit: "s".to_owned(),
            },
            WavesProduct::DirectionalWidthWaves => Parameter {
                name: "wave directional width".to_owned(),
                abbrev: "WDIRW".to_owned(),
                unit: "-".to_owned(),
            },
            WavesProduct::DirectionalWidthWindWaves => Parameter {
                name: "directional width of the wind waves".to_owned(),
                abbrev: "DIRWWW".to_owned(),
                unit: "-".to_owned(),
            },
            WavesProduct::DirectionalWidthTotalSwell => Parameter {
                name: "directional width of the total swell".to_owned(),
                abbrev: "DIRWTS".to_owned(),
                unit: "-".to_owned(),
            },
            WavesProduct::PeakWavePeriod => Parameter {
                name: "peak wave period".to_owned(),
                abbrev: "PWPER".to_owned(),
                unit: "s".to_owned(),
            },
            WavesProduct::PeakWindWavePeriod => Parameter {
                name: "peak period of the wind waves".to_owned(),
                abbrev: "PPERWW".to_owned(),
                unit: "s".to_owned(),
            },
            WavesProduct::PeakTotalSwellPeriod => Parameter {
                name: "peak period of the total swell".to_owned(),
                abbrev: "PPERTS".to_owned(),
                unit: "s".to_owned(),
            },
            WavesProduct::AltimeterWaveHeight => Parameter {
                name: "altimeter wave height".to_owned(),
                abbrev: "ALTWH".to_owned(),
                unit: "m".to_owned(),
            },
            WavesProduct::AltimeterCorrectedWaveHeight => Parameter {
                name: "altimeter corrected wave height".to_owned(),
                abbrev: "ALCWH".to_owned(),
                unit: "m".to_owned(),
            },
            WavesProduct::AltimeterRangeRelativeCorrection => Parameter {
                name: "altimeter range relative correction".to_owned(),
                abbrev: "ALRRC".to_owned(),
                unit: "-".to_owned(),
            },
            WavesProduct::NeutralWindSpeedOverWaves => Parameter {
                name: "10 meter neutral wind speed over waves".to_owned(),
                abbrev: "MNWSOW".to_owned(),
                unit: "ms-1".to_owned(),
            },
            WavesProduct::WindDirectionOverWaves => Parameter {
                name: "10 meter wind direction over waves".to_owned(),
                abbrev: "MWDIRW".to_owned(),
                unit: "degree".to_owned(),
            },
            WavesProduct::WaveEnergySpectrum => Parameter {
                name: "wave energy spectrum".to_owned(),
                abbrev: "WESP".to_owned(),
                unit: "m-2 s rad-1".to_owned(),
            },
            WavesProduct::KurtosisFromWaves => Parameter {
                name: "kurtosis of the sea surface elevation due to waves".to_owned(),
                abbrev: "KSSEW".to_owned(),
                unit: "-".to_owned(),
            },
            WavesProduct::BejaminFeirIndex => Parameter {
                name: "benjamin-feir index".to_owned(),
                abbrev: "BENINX".to_owned(),
                unit: "-".to_owned(),
            },
            WavesProduct::SpectralPeakednessFactor => Parameter {
                name: "spectral peakedness factor".to_owned(),
                abbrev: "SPFTR".to_owned(),
                unit: "s-1".to_owned(),
            },
            WavesProduct::WaveSteepness => Parameter {
                name: "wave steepness".to_owned(),
                abbrev: "WSTP".to_owned(),
                unit: "porportion".to_owned(),
            },
            WavesProduct::WaveLength => Parameter {
                name: "wave length".to_owned(),
                abbrev: "WLENG".to_owned(),
                unit: "-".to_owned(),
            },
        }
    }
}

/// Resolves (discipline, category, number) against the static parameter
/// tables, as (name, abbreviation, unit) views; `None` when the triple is
/// absent from every table.
pub open spec fn spec_parameter_for(discipline: u8, category: u8, number: u8) -> Option<
    (Seq<char>, Seq<char>, Seq<char>),
> {
    if discipline == 0 {
        if category == 0 {
            match TemperatureProduct::spec_from_value(number) {
                Some(p) => Some(spec_temperature_parameter(p)),
                None => None,
            }
        } else if category == 1 {
            match MoistureProduct::spec_from_value(number) {
                Some(p) => Some(spec_moisture_parameter(p)),
                None => None,
            }
        } else if category == 2 {
            match MomentumProduct::spec_from_value(number) {
                Some(p) => Some(spec_momentum_parameter(p)),
                None => None,
            }
        } else if category == 3 {
            match MassProduct::spec_from_value(number) {
                Some(p) => Some(spec_mass_parameter(p)),
                None => None,
            }
        } else {
            None
        }
    } else if discipline == 10 {
        if category == 0 {
            match WavesProduct::spec_from_value(number) {
                Some(p) => Some(spec_waves_parameter(p)),
                None => None,
            }
        } else {
            None
        }
    } else {
        None
    }
}

/// Looks (discipline, category, number) up in the matching static table.
pub fn parameter_for(discipline: u8, category: u8, number: u8) -> (r: Option<Parameter>)
    ensures
        r is Some <==> spec_parameter_for(discipline, category, number) is Some,
        r matches Some(p) ==> (p.name@, p.abbrev@, p.unit@) == spec_parameter_for(
            discipline,
            category,
            number,
        ).unwrap(),
{
    if discipline == 0 {
        if category == 0 {
            match TemperatureProduct::from_value(number) {
                Some(p) => Some(p.parameter()),
                None => None,
            }
        } else if category == 1 {
            match MoistureProduct::from_value(number) {
                Some(p) => Some(p.parameter()),
                None => None,
            }
        } else if category == 2 {
            match MomentumProduct::from_value(number) {
                Some(p) => Some(p.parameter()),
                None => None,
            }
        } else if category == 3 {
            match MassProduct::from_value(number) {
                Some(p) => Some(p.parameter()),
                None => None,
            }
        } else {
            None
        }
    } else if discipline == 10 {
        if category == 0 {
            match WavesProduct::from_value(number) {
                Some(p) => Some(p.parameter()),
                None => None,
            }
        } else {
            None
        }
    } else {
        None
    }
}

/// The fields of a horizontal analysis/forecast product template
/// (discriminator 0), copied out of its section, together with the
/// message's discipline, which parameter resolution needs.
#[derive(Debug, Clone, Copy, PartialEq, Eq, Structural)]
pub struct HorizontalAnalysisForecastTemplate {
    pub discipline: u8,
    pub category: u8,
    pub parameter_number: u8,
    pub generating_process: u8,
    pub time_unit: u8,
    pub forecast_time: u32,
    pub first_fixed_surface_type: u8,
}

/// The product definition template of a section, resolved by its
/// discriminator; an unrecognised or truncated template is the explicit
/// `Unsupported` marker, never a crash.
#[derive(Debug, Clone, Copy, PartialEq, Eq, Structural)]
pub enum ProductTemplate {
    HorizontalAnalysisForecast(HorizontalAnalysisForecastTemplate),
    Unsupported,
}

/// The field values of a horizontal analysis/forecast template, read from
/// a product definition section of at least 34 bytes.
pub open spec fn spec_horizontal_template(s: Seq<u8>, discipline: u8)
    -> HorizontalAnalysisForecastTemplate {
    HorizontalAnalysisForecastTemplate {
        discipline,
        category: s[9],
        parameter_number: s[10],
        generating_process: s[11],
        time_unit: s[17],
        forecast_time: be_u32_of(s, 18) as u32,
        first_fixed_surface_type: s[22],
    }
}

/// The template encoded by a product definition section's bytes.
pub open spec fn spec_product_definition_template(s: Seq<u8>, discipline: u8) -> ProductTemplate {
    if be_u16_of(s, 7) == 0 && s.len() >= 34 {
        ProductTemplate::HorizontalAnalysisForecast(spec_horizontal_template(s, discipline))
    } else {
        ProductTemplate::Unsupported
    }
}

impl HorizontalAnalysisForecastTemplate {
    /// The parameter identity of this product, or `None` when its
    /// (discipline, category, number) triple is absent from the tables.
    pub fn parameter(&self) -> (r: Option<Parameter>)
        ensures
            r is Some <==> spec_parameter_for(
                self.discipline,
                self.category,
                self.parameter_number,
            ) is Some,
            r matches Some(p) ==> (p.name@, p.abbrev@, p.unit@) == spec_parameter_for(
                self.discipline,
                self.category,
                self.parameter_number,
            ).unwrap(),
    {
        parameter_for(self.discipline, self.category, self.parameter_number)
    }

    /// The forecast offset in minutes: the forecast time times its unit,
    /// or `None` when the time unit code is outside the table.
    pub open spec fn spec_offset_minutes(&self) -> Option<int> {
        match TimeUnit::spec_from_value(self.time_unit) {
            Some(u) => Some(self.forecast_time * u.spec_minutes()),
            None => None,
        }
    }

    pub fn offset_minutes(&self) -> (r: Option<u64>)
        ensures
            r is Some <==> self.spec_offset_minutes() is Some,
            r matches Some(m) ==> Some(m as int) == self.spec_offset_minutes(),
    {
        match TimeUnit::from_value(self.time_unit) {
            Some(u) => {
                let m = u.minutes();
                proof {
                    vstd::arithmetic::mul::lemma_mul_upper_bound(
                        self.forecast_time as int,
                        0xFFFFFFFF,
                        m as int,
                        52560000,
                    );
                }
                Some((self.forecast_time as u64) * (m as u64))
            },
            None => None,
        }
    }

    /// The forecast date: the reference date advanced by the forecast
    /// offset, or `None` when the time unit code is outside the table.
    pub fn forecast_datetime(&self, reference: &GribDate) -> (r: Option<GribDate>)
        ensures
            r is Some <==> self.spec_offset_minutes() is Some,
            r matches Some(d) ==> d == date_plus_minutes(
                reference.year as int,
                reference.month as int,
                reference.day as int,
                reference.hour as int,
                reference.minute as int,
                reference.second as int,
                self.spec_offset_minutes().unwrap(),
            ),
    {
        match self.offset_minutes() {
            Some(m) => Some(date_add_minutes(reference, m)),
            None => None,
        }
    }
}

} // verus!
