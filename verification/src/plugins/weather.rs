//! Weather conditions that the weather plugins report.
use vstd::prelude::*;

verus! {

#[derive(Debug, Copy, Clone, PartialEq, Eq, Structural)]
pub enum Conditions {
    Clear,
    MainlyClear,
    PartlyCloudy,
    MostlyCloudy,
    Cloudy,
    LightRain,
    HeavyRain,
    Rain,
    Thunderstorm,
    Flurries,
    Squalls,
    LightSnow,
    HeavySnow,
    Snow,
    Drizzle,
    LightFreezingRain,
    FreezingRain,
    HeavyFreezingRain,
    Fog,
    Hail,
    Unknown,
}

/// The name of a condition, as its `Debug` form writes it.
pub open spec fn condition_name(c: Conditions) -> Seq<char> {
    match c {
        Conditions::Clear => "Clear"@,
        Conditions::MainlyClear => "MainlyClear"@,
        Conditions::PartlyCloudy => "PartlyCloudy"@,
        Conditions::MostlyCloudy => "MostlyCloudy"@,
        Conditions::Cloudy => "Cloudy"@,
        Conditions::LightRain => "LightRain"@,
        Conditions::HeavyRain => "HeavyRain"@,
        Conditions::Rain => "Rain"@,
        Conditions::Thunderstorm => "Thunderstorm"@,
        Conditions::Flurries => "Flurries"@,
        Conditions::Squalls => "Squalls"@,
        Conditions::LightSnow => "LightSnow"@,
        Conditions::HeavySnow => "HeavySnow"@,
        Conditions::Snow => "Snow"@,
        Conditions::Drizzle => "Drizzle"@,
        Conditions::LightFreezingRain => "LightFreezingRain"@,
        Conditions::FreezingRain => "FreezingRain"@,
        Conditions::HeavyFreezingRain => "HeavyFreezingRain"@,
        Conditions::Fog => "Fog"@,
        Conditions::Hail => "Hail"@,
        Conditions::Unknown => "Unknown"@,
    }
}

impl Conditions {
    /// The name of this condition.
    pub fn to_string(&self) -> (r: String)
        ensures
            r@ == condition_name(*self),
    {
        let s: &str = match self {
            Conditions::Clear => "Clear",
            Conditions::MainlyClear => "MainlyClear",
            Conditions::PartlyCloudy => "PartlyCloudy",
            Conditions::MostlyCloudy => "MostlyCloudy",
            Conditions::Cloudy => "Cloudy",
            Conditions::LightRain => "LightRain",
            Conditions::HeavyRain => "HeavyRain",
            Conditions::Rain => "Rain",
            Conditions::Thunderstorm => "Thunderstorm",
            Conditions::Flurries => "Flurries",
            Conditions::Squalls => "Squalls",
            Conditions::LightSnow => "LightSnow",
            Conditions::HeavySnow => "HeavySnow",
            Conditions::Snow => "Snow",
            Conditions::Drizzle => "Drizzle",
            Conditions::LightFreezingRain => "LightFreezingRain",
            Conditions::FreezingRain => "FreezingRain",
            Conditions::HeavyFreezingRain => "HeavyFreezingRain",
            Conditions::Fog => "Fog",
            Conditions::Hail => "Hail",
            Conditions::Unknown => "Unknown",
        };
        String::from_str(s)
    }
}

} // verus!
