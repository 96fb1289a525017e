use vstd::prelude::*;

verus! {

/// A device class of a button.
#[derive(Clone, Copy, Debug, PartialEq, Eq, Structural)]
pub enum ButtonClass {
    Identify,
    Restart,
    Update,
}

impl ButtonClass {
    /// The name of the class as the discovery consumer knows it.
    pub open spec fn name(self) -> Seq<char> {
        match self {
            ButtonClass::Identify => "identify"@,
            ButtonClass::Restart => "restart"@,
            ButtonClass::Update => "update"@,
        }
    }

    pub fn as_ref(&self) -> (r: &'static str)
        ensures
            r@ == self.name(),
    {
        match self {
            ButtonClass::Identify => "identify",
            ButtonClass::Restart => "restart",
            ButtonClass::Update => "update",
        }
    }
}

/// A device class of a binary sensor.
#[derive(Clone, Copy, Debug, PartialEq, Eq, Structural)]
pub enum BinarySensorClass {
    Motion,
}

impl BinarySensorClass {
    /// The name of the class as the discovery consumer knows it.
    pub open spec fn name(self) -> Seq<char> {
        match self {
            BinarySensorClass::Motion => "motion"@,
        }
    }

    pub fn as_ref(&self) -> (r: &'static str)
        ensures
            r@ == self.name(),
    {
        match self {
            BinarySensorClass::Motion => "motion",
        }
    }
}

/// A device class of a switch.
#[derive(Clone, Copy, Debug, PartialEq, Eq, Structural)]
pub enum SwitchClass {
    Outlet,
    Switch,
}

impl SwitchClass {
    /// The name of the class as the discovery consumer knows it.
    pub open spec fn name(self) -> Seq<char> {
        match self {
            SwitchClass::Outlet => "outlet"@,
            SwitchClass::Switch => "switch"@,
        }
    }

    pub fn as_ref(&self) -> (r: &'static str)
        ensures
            r@ == self.name(),
    {
        match self {
            SwitchClass::Outlet => "outlet",
            SwitchClass::Switch => "switch",
        }
    }
}

/// A device class of a sensor.
#[derive(Clone, Copy, Debug, PartialEq, Eq, Structural)]
pub enum SensorClass {
    ApparentPower,
    Aqi,
    AtmosphericPressure,
    Battery,
    Co2,
    Co,
    Current,
    DataRate,
    DataSize,
    Date,
    Distance,
    Duration,
    Energy,
    EnergyStorage,
    Enum,
    Frequency,
    Gas,
    Humidity,
    Illuminance,
    Irradiance,
    Moisture,
    Monetary,
    NitrogenDioxide,
    NitrogenMonoxide,
    NitrousOxide,
    Ozone,
    Ph,
    Pm1,
    Pm25,
    Pm10,
    Power,
    PowerFactor,
    Precipitation,
    PrecipitationDensity,
    Pressure,
    ReactivePower,
    SignalStrength,
    SoundPressure,
    Speed,
    SulphurDioxide,
    Temperature,
    Timestamp,
    VolatileOrganicCompounds,
    VolatileOrganicCompoundsParst,
    Voltage,
    Volume,
    VolumeFlowRate,
    VolumeStorage,
    Water,
    Weight,
    WindSpeed,
}

impl SensorClass {
    /// The name of the class as the discovery consumer knows it.
    pub open spec fn name(self) -> Seq<char> {
        match self {
            SensorClass::ApparentPower => "apparent_power"@,
            SensorClass::Aqi => "aqi"@,
            SensorClass::AtmosphericPressure => "atmospheric_pressure"@,
            SensorClass::Battery => "battery"@,
            SensorClass::Co2 => "carbon_dioxide"@,
            SensorClass::Co => "carbon_monoxide"@,
            SensorClass::Current => "current"@,
            SensorClass::DataRate => "data_rate"@,
            SensorClass::DataSize => "data_size"@,
            SensorClass::Date => "date"@,
            SensorClass::Distance => "distance"@,
            SensorClass::Duration => "duration"@,
            SensorClass::Energy => "energy"@,
            SensorClass::EnergyStorage => "energy_storage"@,
            SensorClass::Enum => "enum"@,
            SensorClass::Frequency => "frequency"@,
            SensorClass::Gas => "gas"@,
            SensorClass::Humidity => "humidity"@,
            SensorClass::Illuminance => "illuminance"@,
            SensorClass::Irradiance => "irradiance"@,
            SensorClass::Moisture => "moisture"@,
            SensorClass::Monetary => "monetary"@,
            SensorClass::NitrogenDioxide => "nitrogen_dioxide"@,
            SensorClass::NitrogenMonoxide => "nitrogen_monoxide"@,
            SensorClass::NitrousOxide => "nitrous_oxide"@,
            SensorClass::Ozone => "ozone"@,
            SensorClass::Ph => "ph"@,
            SensorClass::Pm1 => "pm1"@,
            SensorClass::Pm25 => "pm25"@,
            SensorClass::Pm10 => "pm10"@,
            SensorClass::Power => "power"@,
            SensorClass::PowerFactor => "power_factor"@,
            SensorClass::Precipitation => "precipitation"@,
            SensorClass::PrecipitationDensity => "precipitation_density"@,
            SensorClass::Pressure => "pressure"@,
            SensorClass::ReactivePower => "reactive_power"@,
            SensorClass::SignalStrength => "signal_strength"@,
            SensorClass::SoundPressure => "sound_pressure"@,
            SensorClass::Speed => "speed"@,
            SensorClass::SulphurDioxide => "sulphur_dioxide"@,
            SensorClass::Temperature => "temperature"@,
            SensorClass::Timestamp => "timestamp"@,
            SensorClass::VolatileOrganicCompounds => "volatile_organic_compounds"@,
            SensorClass::VolatileOrganicCompoundsParst => "volatile_organic_compounds_parst"@,
            SensorClass::Voltage => "voltage"@,
            SensorClass::Volume => "volume"@,
            SensorClass::VolumeFlowRate => "volume_flow_rate"@,
            SensorClass::VolumeStorage => "volume_storage"@,
            SensorClass::Water => "water"@,
            SensorClass::Weight => "weight"@,
            SensorClass::WindSpeed => "wind_speed"@,
        }
    }

    pub fn as_ref(&self) -> (r: &'static str)
        ensures
            r@ == self.name(),
    {
        match self {
            SensorClass::ApparentPower => "apparent_power",
            SensorClass::Aqi => "aqi",
            SensorClass::AtmosphericPressure => "atmospheric_pressure",
            SensorClass::Battery => "battery",
            SensorClass::Co2 => "carbon_dioxide",
            SensorClass::Co => "carbon_monoxide",
            SensorClass::Current => "current",
            SensorClass::DataRate => "data_rate",
            SensorClass::DataSize => "data_size",
            SensorClass::Date => "date",
            SensorClass::Distance => "distance",
            SensorClass::Duration => "duration",
            SensorClass::Energy => "energy",
            SensorClass::EnergyStorage => "energy_storage",
            SensorClass::Enum => "enum",
            SensorClass::Frequency => "frequency",
            SensorClass::Gas => "gas",
            SensorClass::Humidity => "humidity",
            SensorClass::Illuminance => "illuminance",
            SensorClass::Irradiance => "irradiance",
            SensorClass::Moisture => "moisture",
            SensorClass::Monetary => "monetary",
            SensorClass::NitrogenDioxide => "nitrogen_dioxide",
            SensorClass::NitrogenMonoxide => "nitrogen_monoxide",
            SensorClass::NitrousOxide => "nitrous_oxide",
            SensorClass::Ozone => "ozone",
            SensorClass::Ph => "ph",
            SensorClass::Pm1 => "pm1",
            SensorClass::Pm25 => "pm25",
            SensorClass::Pm10 => "pm10",
            SensorClass::Power => "power",
            SensorClass::PowerFactor => "power_factor",
            SensorClass::Precipitation => "precipitation",
            SensorClass::PrecipitationDensity => "precipitation_density",
            SensorClass::Pressure => "pressure",
            SensorClass::ReactivePower => "reactive_power",
            SensorClass::SignalStrength => "signal_strength",
            SensorClass::SoundPressure => "sound_pressure",
            SensorClass::Speed => "speed",
            SensorClass::SulphurDioxide => "sulphur_dioxide",
            SensorClass::Temperature => "temperature",
            SensorClass::Timestamp => "timestamp",
            SensorClass::VolatileOrganicCompounds => "volatile_organic_compounds",
            SensorClass::VolatileOrganicCompoundsParst => "volatile_organic_compounds_parst",
            SensorClass::Voltage => "voltage",
            SensorClass::Volume => "volume",
            SensorClass::VolumeFlowRate => "volume_flow_rate",
            SensorClass::VolumeStorage => "volume_storage",
            SensorClass::Water => "water",
            SensorClass::Weight => "weight",
            SensorClass::WindSpeed => "wind_speed",
        }
    }
}

/// Whether two strings hold the same characters.
fn same_text(a: &str, b: &str) -> (r: bool)
    ensures
        r == (a@ == b@),
{
    let n = a.unicode_len();
    if n != b.unicode_len() {
        return false;
    }
    let mut i: usize = 0;
    while i < n
        invariant
            n == a@.len(),
            n == b@.len(),
            i <= n,
            forall|j: int| 0 <= j < i ==> a@[j] == b@[j],
        decreases n - i,
    {
        if a.get_char(i) != b.get_char(i) {
            return false;
        }
        i = i + 1;
    }
    assert(a@ =~= b@);
    true
}

impl SensorClass {
    /// Every sensor class, in declaration order.
    pub open spec fn all_classes() -> Seq<SensorClass> {
        seq![
            SensorClass::ApparentPower,
            SensorClass::Aqi,
            SensorClass::AtmosphericPressure,
            SensorClass::Battery,
            SensorClass::Co2,
            SensorClass::Co,
            SensorClass::Current,
            SensorClass::DataRate,
            SensorClass::DataSize,
            SensorClass::Date,
            SensorClass::Distance,
            SensorClass::Duration,
            SensorClass::Energy,
            SensorClass::EnergyStorage,
            SensorClass::Enum,
            SensorClass::Frequency,
            SensorClass::Gas,
            SensorClass::Humidity,
            SensorClass::Illuminance,
            SensorClass::Irradiance,
            SensorClass::Moisture,
            SensorClass::Monetary,
            SensorClass::NitrogenDioxide,
            SensorClass::NitrogenMonoxide,
            SensorClass::NitrousOxide,
            SensorClass::Ozone,
            SensorClass::Ph,
            SensorClass::Pm1,
            SensorClass::Pm25,
            SensorClass::Pm10,
            SensorClass::Power,
            SensorClass::PowerFactor,
            SensorClass::Precipitation,
            SensorClass::PrecipitationDensity,
            SensorClass::Pressure,
            SensorClass::ReactivePower,
            SensorClass::SignalStrength,
            SensorClass::SoundPressure,
            SensorClass::Speed,
            SensorClass::SulphurDioxide,
            SensorClass::Temperature,
            SensorClass::Timestamp,
            SensorClass::VolatileOrganicCompounds,
            SensorClass::VolatileOrganicCompoundsParst,
            SensorClass::Voltage,
            SensorClass::Volume,
            SensorClass::VolumeFlowRate,
            SensorClass::VolumeStorage,
            SensorClass::Water,
            SensorClass::Weight,
            SensorClass::WindSpeed,
        ]
    }

    /// Every sensor class, in declaration order.
    pub fn all() -> (r: Vec<SensorClass>)
        ensures
            r@ == Self::all_classes(),
    {
        let r: Vec<SensorClass> = vec![
            SensorClass::ApparentPower,
            SensorClass::Aqi,
            SensorClass::AtmosphericPressure,
            SensorClass::Battery,
            SensorClass::Co2,
            SensorClass::Co,
            SensorClass::Current,
            SensorClass::DataRate,
            SensorClass::DataSize,
            SensorClass::Date,
            SensorClass::Distance,
            SensorClass::Duration,
            SensorClass::Energy,
            SensorClass::EnergyStorage,
            SensorClass::Enum,
            SensorClass::Frequency,
            SensorClass::Gas,
            SensorClass::Humidity,
            SensorClass::Illuminance,
            SensorClass::Irradiance,
            SensorClass::Moisture,
            SensorClass::Monetary,
            SensorClass::NitrogenDioxide,
            SensorClass::NitrogenMonoxide,
            SensorClass::NitrousOxide,
            SensorClass::Ozone,
            SensorClass::Ph,
            SensorClass::Pm1,
            SensorClass::Pm25,
            SensorClass::Pm10,
            SensorClass::Power,
            SensorClass::PowerFactor,
            SensorClass::Precipitation,
            SensorClass::PrecipitationDensity,
            SensorClass::Pressure,
            SensorClass::ReactivePower,
            SensorClass::SignalStrength,
            SensorClass::SoundPressure,
            SensorClass::Speed,
            SensorClass::SulphurDioxide,
            SensorClass::Temperature,
            SensorClass::Timestamp,
            SensorClass::VolatileOrganicCompounds,
            SensorClass::VolatileOrganicCompoundsParst,
            SensorClass::Voltage,
            SensorClass::Volume,
            SensorClass::VolumeFlowRate,
            SensorClass::VolumeStorage,
            SensorClass::Water,
            SensorClass::Weight,
            SensorClass::WindSpeed,
        ];
        assert(r@ =~= Self::all_classes());
        r
    }

    /// The names of every sensor class, in declaration order.
    pub fn variant_names() -> (r: Vec<&'static str>)
        ensures
            r@.len() == Self::all_classes().len(),
            forall|i: int| 0 <= i < r@.len() ==> #[trigger] r@[i]@ == Self::all_classes()[i].name(),
    {
        let all = Self::all();
        let mut r: Vec<&'static str> = Vec::new();
        let mut i: usize = 0;
        while i < all.len()
            invariant
                all@ == Self::all_classes(),
                i <= all@.len(),
                r@.len() == i,
                forall|j: int| 0 <= j < i ==> #[trigger] r@[j]@ == Self::all_classes()[j].name(),
            decreases all@.len() - i,
        {
            r.push(all[i].as_ref());
            i = i + 1;
        }
        r
    }

    /// The sensor class with the given name, if there is one.
    pub fn from_name(name: &str) -> (r: Option<SensorClass>)
        ensures
            r matches Some(c) ==> c.name() == name@,
            r is None ==> forall|c: SensorClass| #[trigger] c.name() != name@,
    {
        if same_text(name, "apparent_power") {
            return Some(SensorClass::ApparentPower);
        }
        if same_text(name, "aqi") {
            return Some(SensorClass::Aqi);
        }
        if same_text(name, "atmospheric_pressure") {
            return Some(SensorClass::AtmosphericPressure);
        }
        if same_text(name, "battery") {
            return Some(SensorClass::Battery);
        }
        if same_text(name, "carbon_dioxide") {
            return Some(SensorClass::Co2);
        }
        if same_text(name, "carbon_monoxide") {
            return Some(SensorClass::Co);
        }
        if same_text(name, "current") {
            return Some(SensorClass::Current);
        }
        if same_text(name, "data_rate") {
            return Some(SensorClass::DataRate);
        }
        if same_text(name, "data_size") {
            return Some(SensorClass::DataSize);
        }
        if same_text(name, "date") {
            return Some(SensorClass::Date);
        }
        if same_text(name, "distance") {
            return Some(SensorClass::Distance);
        }
        if same_text(name, "duration") {
            return Some(SensorClass::Duration);
        }
        if same_text(name, "energy") {
            return Some(SensorClass::Energy);
        }
        if same_text(name, "energy_storage") {
            return Some(SensorClass::EnergyStorage);
        }
        if same_text(name, "enum") {
            return Some(SensorClass::Enum);
        }
        if same_text(name, "frequency") {
            return Some(SensorClass::Frequency);
        }
        if same_text(name, "gas") {
            return Some(SensorClass::Gas);
        }
        if same_text(name, "humidity") {
            return Some(SensorClass::Humidity);
        }
        if same_text(name, "illuminance") {
            return Some(SensorClass::Illuminance);
        }
        if same_text(name, "irradiance") {
            return Some(SensorClass::Irradiance);
        }
        if same_text(name, "moisture") {
            return Some(SensorClass::Moisture);
        }
        if same_text(name, "monetary") {
            return Some(SensorClass::Monetary);
        }
        if same_text(name, "nitrogen_dioxide") {
            return Some(SensorClass::NitrogenDioxide);
        }
        if same_text(name, "nitrogen_monoxide") {
            return Some(SensorClass::NitrogenMonoxide);
        }
        if same_text(name, "nitrous_oxide") {
            return Some(SensorClass::NitrousOxide);
        }
        if same_text(name, "ozone") {
            return Some(SensorClass::Ozone);
        }
        if same_text(name, "ph") {
            return Some(SensorClass::Ph);
        }
        if same_text(name, "pm1") {
            return Some(SensorClass::Pm1);
        }
        if same_text(name, "pm25") {
            return Some(SensorClass::Pm25);
        }
        if same_text(name, "pm10") {
            return Some(SensorClass::Pm10);
        }
        if same_text(name, "power") {
            return Some(SensorClass::Power);
        }
        if same_text(name, "power_factor") {
            return Some(SensorClass::PowerFactor);
        }
        if same_text(name, "precipitation") {
            return Some(SensorClass::Precipitation);
        }
        if same_text(name, "precipitation_density") {
            return Some(SensorClass::PrecipitationDensity);
        }
        if same_text(name, "pressure") {
            return Some(SensorClass::Pressure);
        }
        if same_text(name, "reactive_power") {
            return Some(SensorClass::ReactivePower);
        }
        if same_text(name, "signal_strength") {
            return Some(SensorClass::SignalStrength);
        }
        if same_text(name, "sound_pressure") {
            return Some(SensorClass::SoundPressure);
        }
        if same_text(name, "speed") {
            return Some(SensorClass::Speed);
        }
        if same_text(name, "sulphur_dioxide") {
            return Some(SensorClass::SulphurDioxide);
        }
        if same_text(name, "temperature") {
            return Some(SensorClass::Temperature);
        }
        if same_text(name, "timestamp") {
            return Some(SensorClass::Timestamp);
        }
        if same_text(name, "volatile_organic_compounds") {
            return Some(SensorClass::VolatileOrganicCompounds);
        }
        if same_text(name, "volatile_organic_compounds_parst") {
            return Some(SensorClass::VolatileOrganicCompoundsParst);
        }
        if same_text(name, "voltage") {
            return Some(SensorClass::Voltage);
        }
        if same_text(name, "volume") {
            return Some(SensorClass::Volume);
        }
        if same_text(name, "volume_flow_rate") {
            return Some(SensorClass::VolumeFlowRate);
        }
        if same_text(name, "volume_storage") {
            return Some(SensorClass::VolumeStorage);
        }
        if same_text(name, "water") {
            return Some(SensorClass::Water);
        }
        if same_text(name, "weight") {
            return Some(SensorClass::Weight);
        }
        if same_text(name, "wind_speed") {
            return Some(SensorClass::WindSpeed);
        }
        None
    }
}

} // verus!
