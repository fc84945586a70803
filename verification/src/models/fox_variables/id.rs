//! The [FoxVariables] enumeration: the variables that FoxESS Cloud reports, each with
//! the key by which the cloud names it.
//!
//! More variables might be added over time, hence the enumeration is non-exhaustive.

use vstd::prelude::*;
use crate::text::str_eq;

verus! {

/// An enumeration representing the available real-time variables from FoxESS cloud.
#[derive(Debug, Clone, Copy, PartialEq, Eq, Hash, Structural)]
#[non_exhaustive]
pub enum FoxVariables {
    /// AmbientTemperature, unit: ℃
    AmbientTemperation,
    /// Charge Power, unit: kW
    BatChargePower,
    /// BatCurrent, unit: A
    BatCurrent,
    /// Discharge Power, unit: kW
    BatDischargePower,
    /// Battery Status
    BatStatus,
    /// Battery Status Name
    BatStatusV2,
    /// batTemperature, unit: ℃
    BatTemperature,
    /// BatVolt, unit: V
    BatVolt,
    /// BoostTemperature, unit: ℃
    BoostTemperation,
    /// Total charge energy, unit: kWh
    ChargeEnergyToTal,
    /// ChargeTemperature, unit: ℃
    ChargeTemperature,
    /// The current error code is reported
    CurrentFault,
    /// The number of errors
    CurrentFaultCount,
    /// Total discharge energy, unit: kWh
    DischargeEnergyToTal,
    /// DSPTemperature, unit: ℃
    DspTemperature,
    /// Battery throughput, unit: kWh
    EnergyThroughput,
    /// EPS-RCurrent, unit: A
    EpsCurrentR,
    /// EPS-SCurrent, unit: A
    EpsCurrentS,
    /// EPS-TCurrent, unit: A
    EpsCurrentT,
    /// EPSPower, unit: kW
    EpsPower,
    /// EPS-RPower, unit: kW
    EpsPowerR,
    /// EPS-SPower, unit: kW
    EpsPowerS,
    /// EPS-TPower, unit: kW
    EpsPowerT,
    /// EPS-RVolt, unit: V
    EpsVoltR,
    /// EPS-SVolt, unit: V
    EpsVoltS,
    /// EPS-TVolt, unit: V
    EpsVoltT,
    /// The total energy of the feeder, unit: kWh
    Feedin,
    /// Total feed network electricity consumption for Meter 2, unit: kWh
    Feedin2,
    /// Feed-in Power, unit: kW
    FeedinPower,
    /// Cumulative power generation, unit: kWh
    Generation,
    /// Output Power, unit: kW
    GenerationPower,
    /// Total grid electricity consumption, unit: kWh
    GridConsumption,
    /// Total electricity consumption of Meter 2, unit: kWh
    GridConsumption2,
    /// GridConsumption Power, unit: kW
    GridConsumptionPower,
    /// InvBatCurrent, unit: A
    InvBatCurrent,
    /// invBatPower, unit: kW
    InvBatPower,
    /// InvBatVolt, unit: V
    InvBatVolt,
    /// InvTemperation, unit: ℃
    InvTemperation,
    /// Load power consumption, unit: kWh
    Loads,
    /// Load Power, unit: kW
    LoadsPower,
    /// LoadsRPower, unit: kW
    LoadsPowerR,
    /// LoadsSPower, unit: kW
    LoadsPowerS,
    /// LoadsTPower, unit: kW
    LoadsPowerT,
    /// Maximum charge current, unit: A
    MaxChargeCurrent,
    /// Maximum discharge current, unit: A
    MaxDischargeCurrent,
    /// MeterPower, unit: kW
    MeterPower,
    /// Meter2Power, unit: kW
    MeterPower2,
    /// MeterRPower, unit: kW
    MeterPowerR,
    /// MeterSPower, unit: kW
    MeterPowerS,
    /// MeterTPower, unit: kW
    MeterPowerT,
    /// PowerFactor
    PowerFactor,
    /// PV10Current, unit: A
    Pv10Current,
    /// PV10Power, unit: kW
    Pv10Power,
    /// PV10Volt, unit: V
    Pv10Volt,
    /// PV11Current, unit: A
    Pv11Current,
    /// PV11Power, unit: kW
    Pv11Power,
    /// PV11Volt, unit: V
    Pv11Volt,
    /// PV12Current, unit: A
    Pv12Current,
    /// PV12Power, unit: kW
    Pv12Power,
    /// PV12Volt, unit: V
    Pv12Volt,
    /// PV13Current, unit: A
    Pv13Current,
    /// PV13Power, unit: kW
    Pv13Power,
    /// PV13Volt, unit: V
    Pv13Volt,
    /// PV14Current, unit: A
    Pv14Current,
    /// PV14Power, unit: kW
    Pv14Power,
    /// PV14Volt, unit: V
    Pv14Volt,
    /// PV15Current, unit: A
    Pv15Current,
    /// PV15Power, unit: kW
    Pv15Power,
    /// PV15Volt, unit: V
    Pv15Volt,
    /// PV16Current, unit: A
    Pv16Current,
    /// PV16Power, unit: kW
    Pv16Power,
    /// PV16Volt, unit: V
    Pv16Volt,
    /// PV17Current, unit: A
    Pv17Current,
    /// PV17Power, unit: kW
    Pv17Power,
    /// PV17Volt, unit: V
    Pv17Volt,
    /// PV18Current, unit: A
    Pv18Current,
    /// PV18Power, unit: kW
    Pv18Power,
    /// PV18Volt, unit: V
    Pv18Volt,
    /// PV19Current, unit: A
    Pv19Current,
    /// PV19Power, unit: kW
    Pv19Power,
    /// PV19Volt, unit: V
    Pv19Volt,
    /// PV1Current, unit: A
    Pv1Current,
    /// PV1Power, unit: kW
    Pv1Power,
    /// PV1Volt, unit: V
    Pv1Volt,
    /// PV20Current, unit: A
    Pv20Current,
    /// PV20Power, unit: kW
    Pv20Power,
    /// PV20Volt, unit: V
    Pv20Volt,
    /// PV21Current, unit: A
    Pv21Current,
    /// PV21Power, unit: kW
    Pv21Power,
    /// PV21Volt, unit: V
    Pv21Volt,
    /// PV22Current, unit: A
    Pv22Current,
    /// PV22Power, unit: kW
    Pv22Power,
    /// PV22Volt, unit: V
    Pv22Volt,
    /// PV23Current, unit: A
    Pv23Current,
    /// PV23Power, unit: kW
    Pv23Power,
    /// PV23Volt, unit: V
    Pv23Volt,
    /// PV24Current, unit: A
    Pv24Current,
    /// PV24Power, unit: kW
    Pv24Power,
    /// PV24Volt, unit: V
    Pv24Volt,
    /// PV2Current, unit: A
    Pv2Current,
    /// PV2Power, unit: kW
    Pv2Power,
    /// PV2Volt, unit: V
    Pv2Volt,
    /// PV3Current, unit: A
    Pv3Current,
    /// PV3Power, unit: kW
    Pv3Power,
    /// PV3Volt, unit: V
    Pv3Volt,
    /// PV4Current, unit: A
    Pv4Current,
    /// PV4Power, unit: kW
    Pv4Power,
    /// PV4Volt, unit: V
    Pv4Volt,
    /// PV5Current, unit: A
    Pv5Current,
    /// PV5Power, unit: kW
    Pv5Power,
    /// PV5Volt, unit: V
    Pv5Volt,
    /// PV6Current, unit: A
    Pv6Current,
    /// PV6Power, unit: kW
    Pv6Power,
    /// PV6Volt, unit: V
    Pv6Volt,
    /// PV7Current, unit: A
    Pv7Current,
    /// PV7Power, unit: kW
    Pv7Power,
    /// PV7Volt, unit: V
    Pv7Volt,
    /// PV8Current, unit: A
    Pv8Current,
    /// PV8Power, unit: kW
    Pv8Power,
    /// PV8Volt, unit: V
    Pv8Volt,
    /// PV9Current, unit: A
    Pv9Current,
    /// PV9Power, unit: kW
    Pv9Power,
    /// PV9Volt, unit: V
    Pv9Volt,
    /// Photovoltaic power generation, unit: kWh
    PVEnergyTotal,
    /// PVPower, unit: kW
    PvPower,
    /// RCurrent, unit: A
    RCurrent,
    /// ReactivePower, unit: kVar
    ReactivePower,
    /// Battery Residual Energy, unit: 0.01kWh
    ResidualEnergy,
    /// RFreq, unit: Hz
    RFreq,
    /// RPower, unit: kW
    RPower,
    /// Running State
    RunningState,
    /// RVolt, unit: V
    RVolt,
    /// SCurrent, unit: A
    SCurrent,
    /// SFreq, unit: Hz
    SFreq,
    /// SoC, unit: %
    SoC,
    /// SOH, unit: %
    SOH,
    /// SPower, unit: kW
    SPower,
    /// SVolt, unit: V
    SVolt,
    /// TCurrent, unit: A
    TCurrent,
    /// TFreq, unit: Hz
    TFreq,
    /// Today’s power generation, unit: kW
    TodayYield,
    /// TPower, unit: kW
    TPower,
    /// TVolt, unit: V
    TVolt,
}

impl FoxVariables {
    /// The key by which FoxESS Cloud names this variant.
    pub open spec fn key(self) -> Seq<char> {
        match self {
            FoxVariables::AmbientTemperation => "ambientTemperation"@,
            FoxVariables::BatChargePower => "batChargePower"@,
            FoxVariables::BatCurrent => "batCurrent"@,
            FoxVariables::BatDischargePower => "batDischargePower"@,
            FoxVariables::BatStatus => "batStatus"@,
            FoxVariables::BatStatusV2 => "batStatusV2"@,
            FoxVariables::BatTemperature => "batTemperature"@,
            FoxVariables::BatVolt => "batVolt"@,
            FoxVariables::BoostTemperation => "boostTemperation"@,
            FoxVariables::ChargeEnergyToTal => "chargeEnergyToTal"@,
            FoxVariables::ChargeTemperature => "chargeTemperature"@,
            FoxVariables::CurrentFault => "currentFault"@,
            FoxVariables::CurrentFaultCount => "currentFaultCount"@,
            FoxVariables::DischargeEnergyToTal => "dischargeEnergyToTal"@,
            FoxVariables::DspTemperature => "dspTemperature"@,
            FoxVariables::EnergyThroughput => "energyThroughput"@,
            FoxVariables::EpsCurrentR => "epsCurrentR"@,
            FoxVariables::EpsCurrentS => "epsCurrentS"@,
            FoxVariables::EpsCurrentT => "epsCurrentT"@,
            FoxVariables::EpsPower => "epsPower"@,
            FoxVariables::EpsPowerR => "epsPowerR"@,
            FoxVariables::EpsPowerS => "epsPowerS"@,
            FoxVariables::EpsPowerT => "epsPowerT"@,
            FoxVariables::EpsVoltR => "epsVoltR"@,
            FoxVariables::EpsVoltS => "epsVoltS"@,
            FoxVariables::EpsVoltT => "epsVoltT"@,
            FoxVariables::Feedin => "feedin"@,
            FoxVariables::Feedin2 => "feedin2"@,
            FoxVariables::FeedinPower => "feedinPower"@,
            FoxVariables::Generation => "generation"@,
            FoxVariables::GenerationPower => "generationPower"@,
            FoxVariables::GridConsumption => "gridConsumption"@,
            FoxVariables::GridConsumption2 => "gridConsumption2"@,
            FoxVariables::GridConsumptionPower => "gridConsumptionPower"@,
            FoxVariables::InvBatCurrent => "invBatCurrent"@,
            FoxVariables::InvBatPower => "invBatPower"@,
            FoxVariables::InvBatVolt => "invBatVolt"@,
            FoxVariables::InvTemperation => "invTemperation"@,
            FoxVariables::Loads => "loads"@,
            FoxVariables::LoadsPower => "loadsPower"@,
            FoxVariables::LoadsPowerR => "loadsPowerR"@,
            FoxVariables::LoadsPowerS => "loadsPowerS"@,
            FoxVariables::LoadsPowerT => "loadsPowerT"@,
            FoxVariables::MaxChargeCurrent => "maxChargeCurrent"@,
            FoxVariables::MaxDischargeCurrent => "maxDischargeCurrent"@,
            FoxVariables::MeterPower => "meterPower"@,
            FoxVariables::MeterPower2 => "meterPower2"@,
            FoxVariables::MeterPowerR => "meterPowerR"@,
            FoxVariables::MeterPowerS => "meterPowerS"@,
            FoxVariables::MeterPowerT => "meterPowerT"@,
            FoxVariables::PowerFactor => "PowerFactor"@,
            FoxVariables::Pv10Current => "pv10Current"@,
            FoxVariables::Pv10Power => "pv10Power"@,
            FoxVariables::Pv10Volt => "pv10Volt"@,
            FoxVariables::Pv11Current => "pv11Current"@,
            FoxVariables::Pv11Power => "pv11Power"@,
            FoxVariables::Pv11Volt => "pv11Volt"@,
            FoxVariables::Pv12Current => "pv12Current"@,
            FoxVariables::Pv12Power => "pv12Power"@,
            FoxVariables::Pv12Volt => "pv12Volt"@,
            FoxVariables::Pv13Current => "pv13Current"@,
            FoxVariables::Pv13Power => "pv13Power"@,
            FoxVariables::Pv13Volt => "pv13Volt"@,
            FoxVariables::Pv14Current => "pv14Current"@,
            FoxVariables::Pv14Power => "pv14Power"@,
            FoxVariables::Pv14Volt => "pv14Volt"@,
            FoxVariables::Pv15Current => "pv15Current"@,
            FoxVariables::Pv15Power => "pv15Power"@,
            FoxVariables::Pv15Volt => "pv15Volt"@,
            FoxVariables::Pv16Current => "pv16Current"@,
            FoxVariables::Pv16Power => "pv16Power"@,
            FoxVariables::Pv16Volt => "pv16Volt"@,
            FoxVariables::Pv17Current => "pv17Current"@,
            FoxVariables::Pv17Power => "pv17Power"@,
            FoxVariables::Pv17Volt => "pv17Volt"@,
            FoxVariables::Pv18Current => "pv18Current"@,
            FoxVariables::Pv18Power => "pv18Power"@,
            FoxVariables::Pv18Volt => "pv18Volt"@,
            FoxVariables::Pv19Current => "pv19Current"@,
            FoxVariables::Pv19Power => "pv19Power"@,
            FoxVariables::Pv19Volt => "pv19Volt"@,
            FoxVariables::Pv1Current => "pv1Current"@,
            FoxVariables::Pv1Power => "pv1Power"@,
            FoxVariables::Pv1Volt => "pv1Volt"@,
            FoxVariables::Pv20Current => "pv20Current"@,
            FoxVariables::Pv20Power => "pv20Power"@,
            FoxVariables::Pv20Volt => "pv20Volt"@,
            FoxVariables::Pv21Current => "pv21Current"@,
            FoxVariables::Pv21Power => "pv21Power"@,
            FoxVariables::Pv21Volt => "pv21Volt"@,
            FoxVariables::Pv22Current => "pv22Current"@,
            FoxVariables::Pv22Power => "pv22Power"@,
            FoxVariables::Pv22Volt => "pv22Volt"@,
            FoxVariables::Pv23Current => "pv23Current"@,
            FoxVariables::Pv23Power => "pv23Power"@,
            FoxVariables::Pv23Volt => "pv23Volt"@,
            FoxVariables::Pv24Current => "pv24Current"@,
            FoxVariables::Pv24Power => "pv24Power"@,
            FoxVariables::Pv24Volt => "pv24Volt"@,
            FoxVariables::Pv2Current => "pv2Current"@,
            FoxVariables::Pv2Power => "pv2Power"@,
            FoxVariables::Pv2Volt => "pv2Volt"@,
            FoxVariables::Pv3Current => "pv3Current"@,
            FoxVariables::Pv3Power => "pv3Power"@,
            FoxVariables::Pv3Volt => "pv3Volt"@,
            FoxVariables::Pv4Current => "pv4Current"@,
            FoxVariables::Pv4Power => "pv4Power"@,
            FoxVariables::Pv4Volt => "pv4Volt"@,
            FoxVariables::Pv5Current => "pv5Current"@,
            FoxVariables::Pv5Power => "pv5Power"@,
            FoxVariables::Pv5Volt => "pv5Volt"@,
            FoxVariables::Pv6Current => "pv6Current"@,
            FoxVariables::Pv6Power => "pv6Power"@,
            FoxVariables::Pv6Volt => "pv6Volt"@,
            FoxVariables::Pv7Current => "pv7Current"@,
            FoxVariables::Pv7Power => "pv7Power"@,
            FoxVariables::Pv7Volt => "pv7Volt"@,
            FoxVariables::Pv8Current => "pv8Current"@,
            FoxVariables::Pv8Power => "pv8Power"@,
            FoxVariables::Pv8Volt => "pv8Volt"@,
            FoxVariables::Pv9Current => "pv9Current"@,
            FoxVariables::Pv9Power => "pv9Power"@,
            FoxVariables::Pv9Volt => "pv9Volt"@,
            FoxVariables::PVEnergyTotal => "PVEnergyTotal"@,
            FoxVariables::PvPower => "pvPower"@,
            FoxVariables::RCurrent => "RCurrent"@,
            FoxVariables::ReactivePower => "ReactivePower"@,
            FoxVariables::ResidualEnergy => "ResidualEnergy"@,
            FoxVariables::RFreq => "RFreq"@,
            FoxVariables::RPower => "RPower"@,
            FoxVariables::RunningState => "runningState"@,
            FoxVariables::RVolt => "RVolt"@,
            FoxVariables::SCurrent => "SCurrent"@,
            FoxVariables::SFreq => "SFreq"@,
            FoxVariables::SoC => "SoC"@,
            FoxVariables::SOH => "SOH"@,
            FoxVariables::SPower => "SPower"@,
            FoxVariables::SVolt => "SVolt"@,
            FoxVariables::TCurrent => "TCurrent"@,
            FoxVariables::TFreq => "TFreq"@,
            FoxVariables::TodayYield => "todayYield"@,
            FoxVariables::TPower => "TPower"@,
            FoxVariables::TVolt => "TVolt"@,
        }
    }

    /// Returns the key by which FoxESS Cloud names this variant.
    pub fn as_str(&self) -> (r: &'static str)
        ensures
            r@ == self.key(),
    {
        match self {
            FoxVariables::AmbientTemperation => "ambientTemperation",
            FoxVariables::BatChargePower => "batChargePower",
            FoxVariables::BatCurrent => "batCurrent",
            FoxVariables::BatDischargePower => "batDischargePower",
            FoxVariables::BatStatus => "batStatus",
            FoxVariables::BatStatusV2 => "batStatusV2",
            FoxVariables::BatTemperature => "batTemperature",
            FoxVariables::BatVolt => "batVolt",
            FoxVariables::BoostTemperation => "boostTemperation",
            FoxVariables::ChargeEnergyToTal => "chargeEnergyToTal",
            FoxVariables::ChargeTemperature => "chargeTemperature",
            FoxVariables::CurrentFault => "currentFault",
            FoxVariables::CurrentFaultCount => "currentFaultCount",
            FoxVariables::DischargeEnergyToTal => "dischargeEnergyToTal",
            FoxVariables::DspTemperature => "dspTemperature",
            FoxVariables::EnergyThroughput => "energyThroughput",
            FoxVariables::EpsCurrentR => "epsCurrentR",
            FoxVariables::EpsCurrentS => "epsCurrentS",
            FoxVariables::EpsCurrentT => "epsCurrentT",
            FoxVariables::EpsPower => "epsPower",
            FoxVariables::EpsPowerR => "epsPowerR",
            FoxVariables::EpsPowerS => "epsPowerS",
            FoxVariables::EpsPowerT => "epsPowerT",
            FoxVariables::EpsVoltR => "epsVoltR",
            FoxVariables::EpsVoltS => "epsVoltS",
            FoxVariables::EpsVoltT => "epsVoltT",
            FoxVariables::Feedin => "feedin",
            FoxVariables::Feedin2 => "feedin2",
            FoxVariables::FeedinPower => "feedinPower",
            FoxVariables::Generation => "generation",
            FoxVariables::GenerationPower => "generationPower",
            FoxVariables::GridConsumption => "gridConsumption",
            FoxVariables::GridConsumption2 => "gridConsumption2",
            FoxVariables::GridConsumptionPower => "gridConsumptionPower",
            FoxVariables::InvBatCurrent => "invBatCurrent",
            FoxVariables::InvBatPower => "invBatPower",
            FoxVariables::InvBatVolt => "invBatVolt",
            FoxVariables::InvTemperation => "invTemperation",
            FoxVariables::Loads => "loads",
            FoxVariables::LoadsPower => "loadsPower",
            FoxVariables::LoadsPowerR => "loadsPowerR",
            FoxVariables::LoadsPowerS => "loadsPowerS",
            FoxVariables::LoadsPowerT => "loadsPowerT",
            FoxVariables::MaxChargeCurrent => "maxChargeCurrent",
            FoxVariables::MaxDischargeCurrent => "maxDischargeCurrent",
            FoxVariables::MeterPower => "meterPower",
            FoxVariables::MeterPower2 => "meterPower2",
            FoxVariables::MeterPowerR => "meterPowerR",
            FoxVariables::MeterPowerS => "meterPowerS",
            FoxVariables::MeterPowerT => "meterPowerT",
            FoxVariables::PowerFactor => "PowerFactor",
            FoxVariables::Pv10Current => "pv10Current",
            FoxVariables::Pv10Power => "pv10Power",
            FoxVariables::Pv10Volt => "pv10Volt",
            FoxVariables::Pv11Current => "pv11Current",
            FoxVariables::Pv11Power => "pv11Power",
            FoxVariables::Pv11Volt => "pv11Volt",
            FoxVariables::Pv12Current => "pv12Current",
            FoxVariables::Pv12Power => "pv12Power",
            FoxVariables::Pv12Volt => "pv12Volt",
            FoxVariables::Pv13Current => "pv13Current",
            FoxVariables::Pv13Power => "pv13Power",
            FoxVariables::Pv13Volt => "pv13Volt",
            FoxVariables::Pv14Current => "pv14Current",
            FoxVariables::Pv14Power => "pv14Power",
            FoxVariables::Pv14Volt => "pv14Volt",
            FoxVariables::Pv15Current => "pv15Current",
            FoxVariables::Pv15Power => "pv15Power",
            FoxVariables::Pv15Volt => "pv15Volt",
            FoxVariables::Pv16Current => "pv16Current",
            FoxVariables::Pv16Power => "pv16Power",
            FoxVariables::Pv16Volt => "pv16Volt",
            FoxVariables::Pv17Current => "pv17Current",
            FoxVariables::Pv17Power => "pv17Power",
            FoxVariables::Pv17Volt => "pv17Volt",
            FoxVariables::Pv18Current => "pv18Current",
            FoxVariables::Pv18Power => "pv18Power",
            FoxVariables::Pv18Volt => "pv18Volt",
            FoxVariables::Pv19Current => "pv19Current",
            FoxVariables::Pv19Power => "pv19Power",
            FoxVariables::Pv19Volt => "pv19Volt",
            FoxVariables::Pv1Current => "pv1Current",
            FoxVariables::Pv1Power => "pv1Power",
            FoxVariables::Pv1Volt => "pv1Volt",
            FoxVariables::Pv20Current => "pv20Current",
            FoxVariables::Pv20Power => "pv20Power",
            FoxVariables::Pv20Volt => "pv20Volt",
            FoxVariables::Pv21Current => "pv21Current",
            FoxVariables::Pv21Power => "pv21Power",
            FoxVariables::Pv21Volt => "pv21Volt",
            FoxVariables::Pv22Current => "pv22Current",
            FoxVariables::Pv22Power => "pv22Power",
            FoxVariables::Pv22Volt => "pv22Volt",
            FoxVariables::Pv23Current => "pv23Current",
            FoxVariables::Pv23Power => "pv23Power",
            FoxVariables::Pv23Volt => "pv23Volt",
            FoxVariables::Pv24Current => "pv24Current",
            FoxVariables::Pv24Power => "pv24Power",
            FoxVariables::Pv24Volt => "pv24Volt",
            FoxVariables::Pv2Current => "pv2Current",
            FoxVariables::Pv2Power => "pv2Power",
            FoxVariables::Pv2Volt => "pv2Volt",
            FoxVariables::Pv3Current => "pv3Current",
            FoxVariables::Pv3Power => "pv3Power",
            FoxVariables::Pv3Volt => "pv3Volt",
            FoxVariables::Pv4Current => "pv4Current",
            FoxVariables::Pv4Power => "pv4Power",
            FoxVariables::Pv4Volt => "pv4Volt",
            FoxVariables::Pv5Current => "pv5Current",
            FoxVariables::Pv5Power => "pv5Power",
            FoxVariables::Pv5Volt => "pv5Volt",
            FoxVariables::Pv6Current => "pv6Current",
            FoxVariables::Pv6Power => "pv6Power",
            FoxVariables::Pv6Volt => "pv6Volt",
            FoxVariables::Pv7Current => "pv7Current",
            FoxVariables::Pv7Power => "pv7Power",
            FoxVariables::Pv7Volt => "pv7Volt",
            FoxVariables::Pv8Current => "pv8Current",
            FoxVariables::Pv8Power => "pv8Power",
            FoxVariables::Pv8Volt => "pv8Volt",
            FoxVariables::Pv9Current => "pv9Current",
            FoxVariables::Pv9Power => "pv9Power",
            FoxVariables::Pv9Volt => "pv9Volt",
            FoxVariables::PVEnergyTotal => "PVEnergyTotal",
            FoxVariables::PvPower => "pvPower",
            FoxVariables::RCurrent => "RCurrent",
            FoxVariables::ReactivePower => "ReactivePower",
            FoxVariables::ResidualEnergy => "ResidualEnergy",
            FoxVariables::RFreq => "RFreq",
            FoxVariables::RPower => "RPower",
            FoxVariables::RunningState => "runningState",
            FoxVariables::RVolt => "RVolt",
            FoxVariables::SCurrent => "SCurrent",
            FoxVariables::SFreq => "SFreq",
            FoxVariables::SoC => "SoC",
            FoxVariables::SOH => "SOH",
            FoxVariables::SPower => "SPower",
            FoxVariables::SVolt => "SVolt",
            FoxVariables::TCurrent => "TCurrent",
            FoxVariables::TFreq => "TFreq",
            FoxVariables::TodayYield => "todayYield",
            FoxVariables::TPower => "TPower",
            FoxVariables::TVolt => "TVolt",
        }
    }

    /// The position of this variant in the registry.
    pub closed spec fn index(self) -> int {
        match self {
            FoxVariables::AmbientTemperation => 0,
            FoxVariables::BatChargePower => 1,
            FoxVariables::BatCurrent => 2,
            FoxVariables::BatDischargePower => 3,
            FoxVariables::BatStatus => 4,
            FoxVariables::BatStatusV2 => 5,
            FoxVariables::BatTemperature => 6,
            FoxVariables::BatVolt => 7,
            FoxVariables::BoostTemperation => 8,
            FoxVariables::ChargeEnergyToTal => 9,
            FoxVariables::ChargeTemperature => 10,
            FoxVariables::CurrentFault => 11,
            FoxVariables::CurrentFaultCount => 12,
            FoxVariables::DischargeEnergyToTal => 13,
            FoxVariables::DspTemperature => 14,
            FoxVariables::EnergyThroughput => 15,
            FoxVariables::EpsCurrentR => 16,
            FoxVariables::EpsCurrentS => 17,
            FoxVariables::EpsCurrentT => 18,
            FoxVariables::EpsPower => 19,
            FoxVariables::EpsPowerR => 20,
            FoxVariables::EpsPowerS => 21,
            FoxVariables::EpsPowerT => 22,
            FoxVariables::EpsVoltR => 23,
            FoxVariables::EpsVoltS => 24,
            FoxVariables::EpsVoltT => 25,
            FoxVariables::Feedin => 26,
            FoxVariables::Feedin2 => 27,
            FoxVariables::FeedinPower => 28,
            FoxVariables::Generation => 29,
            FoxVariables::GenerationPower => 30,
            FoxVariables::GridConsumption => 31,
            FoxVariables::GridConsumption2 => 32,
            FoxVariables::GridConsumptionPower => 33,
            FoxVariables::InvBatCurrent => 34,
            FoxVariables::InvBatPower => 35,
            FoxVariables::InvBatVolt => 36,
            FoxVariables::InvTemperation => 37,
            FoxVariables::Loads => 38,
            FoxVariables::LoadsPower => 39,
            FoxVariables::LoadsPowerR => 40,
            FoxVariables::LoadsPowerS => 41,
            FoxVariables::LoadsPowerT => 42,
            FoxVariables::MaxChargeCurrent => 43,
            FoxVariables::MaxDischargeCurrent => 44,
            FoxVariables::MeterPower => 45,
            FoxVariables::MeterPower2 => 46,
            FoxVariables::MeterPowerR => 47,
            FoxVariables::MeterPowerS => 48,
            FoxVariables::MeterPowerT => 49,
            FoxVariables::PowerFactor => 50,
            FoxVariables::Pv10Current => 51,
            FoxVariables::Pv10Power => 52,
            FoxVariables::Pv10Volt => 53,
            FoxVariables::Pv11Current => 54,
            FoxVariables::Pv11Power => 55,
            FoxVariables::Pv11Volt => 56,
            FoxVariables::Pv12Current => 57,
            FoxVariables::Pv12Power => 58,
            FoxVariables::Pv12Volt => 59,
            FoxVariables::Pv13Current => 60,
            FoxVariables::Pv13Power => 61,
            FoxVariables::Pv13Volt => 62,
            FoxVariables::Pv14Current => 63,
            FoxVariables::Pv14Power => 64,
            FoxVariables::Pv14Volt => 65,
            FoxVariables::Pv15Current => 66,
            FoxVariables::Pv15Power => 67,
            FoxVariables::Pv15Volt => 68,
            FoxVariables::Pv16Current => 69,
            FoxVariables::Pv16Power => 70,
            FoxVariables::Pv16Volt => 71,
            FoxVariables::Pv17Current => 72,
            FoxVariables::Pv17Power => 73,
            FoxVariables::Pv17Volt => 74,
            FoxVariables::Pv18Current => 75,
            FoxVariables::Pv18Power => 76,
            FoxVariables::Pv18Volt => 77,
            FoxVariables::Pv19Current => 78,
            FoxVariables::Pv19Power => 79,
            FoxVariables::Pv19Volt => 80,
            FoxVariables::Pv1Current => 81,
            FoxVariables::Pv1Power => 82,
            FoxVariables::Pv1Volt => 83,
            FoxVariables::Pv20Current => 84,
            FoxVariables::Pv20Power => 85,
            FoxVariables::Pv20Volt => 86,
            FoxVariables::Pv21Current => 87,
            FoxVariables::Pv21Power => 88,
            FoxVariables::Pv21Volt => 89,
            FoxVariables::Pv22Current => 90,
            FoxVariables::Pv22Power => 91,
            FoxVariables::Pv22Volt => 92,
            FoxVariables::Pv23Current => 93,
            FoxVariables::Pv23Power => 94,
            FoxVariables::Pv23Volt => 95,
            FoxVariables::Pv24Current => 96,
            FoxVariables::Pv24Power => 97,
            FoxVariables::Pv24Volt => 98,
            FoxVariables::Pv2Current => 99,
            FoxVariables::Pv2Power => 100,
            FoxVariables::Pv2Volt => 101,
            FoxVariables::Pv3Current => 102,
            FoxVariables::Pv3Power => 103,
            FoxVariables::Pv3Volt => 104,
            FoxVariables::Pv4Current => 105,
            FoxVariables::Pv4Power => 106,
            FoxVariables::Pv4Volt => 107,
            FoxVariables::Pv5Current => 108,
            FoxVariables::Pv5Power => 109,
            FoxVariables::Pv5Volt => 110,
            FoxVariables::Pv6Current => 111,
            FoxVariables::Pv6Power => 112,
            FoxVariables::Pv6Volt => 113,
            FoxVariables::Pv7Current => 114,
            FoxVariables::Pv7Power => 115,
            FoxVariables::Pv7Volt => 116,
            FoxVariables::Pv8Current => 117,
            FoxVariables::Pv8Power => 118,
            FoxVariables::Pv8Volt => 119,
            FoxVariables::Pv9Current => 120,
            FoxVariables::Pv9Power => 121,
            FoxVariables::Pv9Volt => 122,
            FoxVariables::PVEnergyTotal => 123,
            FoxVariables::PvPower => 124,
            FoxVariables::RCurrent => 125,
            FoxVariables::ReactivePower => 126,
            FoxVariables::ResidualEnergy => 127,
            FoxVariables::RFreq => 128,
            FoxVariables::RPower => 129,
            FoxVariables::RunningState => 130,
            FoxVariables::RVolt => 131,
            FoxVariables::SCurrent => 132,
            FoxVariables::SFreq => 133,
            FoxVariables::SoC => 134,
            FoxVariables::SOH => 135,
            FoxVariables::SPower => 136,
            FoxVariables::SVolt => 137,
            FoxVariables::TCurrent => 138,
            FoxVariables::TFreq => 139,
            FoxVariables::TodayYield => 140,
            FoxVariables::TPower => 141,
            FoxVariables::TVolt => 142,
        }
    }

    /// The variant at a position of the registry.
    closed spec fn of_index(i: int) -> FoxVariables {
        if i == 0 { FoxVariables::AmbientTemperation }
        else if i == 1 { FoxVariables::BatChargePower }
        else if i == 2 { FoxVariables::BatCurrent }
        else if i == 3 { FoxVariables::BatDischargePower }
        else if i == 4 { FoxVariables::BatStatus }
        else if i == 5 { FoxVariables::BatStatusV2 }
        else if i == 6 { FoxVariables::BatTemperature }
        else if i == 7 { FoxVariables::BatVolt }
        else if i == 8 { FoxVariables::BoostTemperation }
        else if i == 9 { FoxVariables::ChargeEnergyToTal }
        else if i == 10 { FoxVariables::ChargeTemperature }
        else if i == 11 { FoxVariables::CurrentFault }
        else if i == 12 { FoxVariables::CurrentFaultCount }
        else if i == 13 { FoxVariables::DischargeEnergyToTal }
        else if i == 14 { FoxVariables::DspTemperature }
        else if i == 15 { FoxVariables::EnergyThroughput }
        else if i == 16 { FoxVariables::EpsCurrentR }
        else if i == 17 { FoxVariables::EpsCurrentS }
        else if i == 18 { FoxVariables::EpsCurrentT }
        else if i == 19 { FoxVariables::EpsPower }
        else if i == 20 { FoxVariables::EpsPowerR }
        else if i == 21 { FoxVariables::EpsPowerS }
        else if i == 22 { FoxVariables::EpsPowerT }
        else if i == 23 { FoxVariables::EpsVoltR }
        else if i == 24 { FoxVariables::EpsVoltS }
        else if i == 25 { FoxVariables::EpsVoltT }
        else if i == 26 { FoxVariables::Feedin }
        else if i == 27 { FoxVariables::Feedin2 }
        else if i == 28 { FoxVariables::FeedinPower }
        else if i == 29 { FoxVariables::Generation }
        else if i == 30 { FoxVariables::GenerationPower }
        else if i == 31 { FoxVariables::GridConsumption }
        else if i == 32 { FoxVariables::GridConsumption2 }
        else if i == 33 { FoxVariables::GridConsumptionPower }
        else if i == 34 { FoxVariables::InvBatCurrent }
        else if i == 35 { FoxVariables::InvBatPower }
        else if i == 36 { FoxVariables::InvBatVolt }
        else if i == 37 { FoxVariables::InvTemperation }
        else if i == 38 { FoxVariables::Loads }
        else if i == 39 { FoxVariables::LoadsPower }
        else if i == 40 { FoxVariables::LoadsPowerR }
        else if i == 41 { FoxVariables::LoadsPowerS }
        else if i == 42 { FoxVariables::LoadsPowerT }
        else if i == 43 { FoxVariables::MaxChargeCurrent }
        else if i == 44 { FoxVariables::MaxDischargeCurrent }
        else if i == 45 { FoxVariables::MeterPower }
        else if i == 46 { FoxVariables::MeterPower2 }
        else if i == 47 { FoxVariables::MeterPowerR }
        else if i == 48 { FoxVariables::MeterPowerS }
        else if i == 49 { FoxVariables::MeterPowerT }
        else if i == 50 { FoxVariables::PowerFactor }
        else if i == 51 { FoxVariables::Pv10Current }
        else if i == 52 { FoxVariables::Pv10Power }
        else if i == 53 { FoxVariables::Pv10Volt }
        else if i == 54 { FoxVariables::Pv11Current }
        else if i == 55 { FoxVariables::Pv11Power }
        else if i == 56 { FoxVariables::Pv11Volt }
        else if i == 57 { FoxVariables::Pv12Current }
        else if i == 58 { FoxVariables::Pv12Power }
        else if i == 59 { FoxVariables::Pv12Volt }
        else if i == 60 { FoxVariables::Pv13Current }
        else if i == 61 { FoxVariables::Pv13Power }
        else if i == 62 { FoxVariables::Pv13Volt }
        else if i == 63 { FoxVariables::Pv14Current }
        else if i == 64 { FoxVariables::Pv14Power }
        else if i == 65 { FoxVariables::Pv14Volt }
        else if i == 66 { FoxVariables::Pv15Current }
        else if i == 67 { FoxVariables::Pv15Power }
        else if i == 68 { FoxVariables::Pv15Volt }
        else if i == 69 { FoxVariables::Pv16Current }
        else if i == 70 { FoxVariables::Pv16Power }
        else if i == 71 { FoxVariables::Pv16Volt }
        else if i == 72 { FoxVariables::Pv17Current }
        else if i == 73 { FoxVariables::Pv17Power }
        else if i == 74 { FoxVariables::Pv17Volt }
        else if i == 75 { FoxVariables::Pv18Current }
        else if i == 76 { FoxVariables::Pv18Power }
        else if i == 77 { FoxVariables::Pv18Volt }
        else if i == 78 { FoxVariables::Pv19Current }
        else if i == 79 { FoxVariables::Pv19Power }
        else if i == 80 { FoxVariables::Pv19Volt }
        else if i == 81 { FoxVariables::Pv1Current }
        else if i == 82 { FoxVariables::Pv1Power }
        else if i == 83 { FoxVariables::Pv1Volt }
        else if i == 84 { FoxVariables::Pv20Current }
        else if i == 85 { FoxVariables::Pv20Power }
        else if i == 86 { FoxVariables::Pv20Volt }
        else if i == 87 { FoxVariables::Pv21Current }
        else if i == 88 { FoxVariables::Pv21Power }
        else if i == 89 { FoxVariables::Pv21Volt }
        else if i == 90 { FoxVariables::Pv22Current }
        else if i == 91 { FoxVariables::Pv22Power }
        else if i == 92 { FoxVariables::Pv22Volt }
        else if i == 93 { FoxVariables::Pv23Current }
        else if i == 94 { FoxVariables::Pv23Power }
        else if i == 95 { FoxVariables::Pv23Volt }
        else if i == 96 { FoxVariables::Pv24Current }
        else if i == 97 { FoxVariables::Pv24Power }
        else if i == 98 { FoxVariables::Pv24Volt }
        else if i == 99 { FoxVariables::Pv2Current }
        else if i == 100 { FoxVariables::Pv2Power }
        else if i == 101 { FoxVariables::Pv2Volt }
        else if i == 102 { FoxVariables::Pv3Current }
        else if i == 103 { FoxVariables::Pv3Power }
        else if i == 104 { FoxVariables::Pv3Volt }
        else if i == 105 { FoxVariables::Pv4Current }
        else if i == 106 { FoxVariables::Pv4Power }
        else if i == 107 { FoxVariables::Pv4Volt }
        else if i == 108 { FoxVariables::Pv5Current }
        else if i == 109 { FoxVariables::Pv5Power }
        else if i == 110 { FoxVariables::Pv5Volt }
        else if i == 111 { FoxVariables::Pv6Current }
        else if i == 112 { FoxVariables::Pv6Power }
        else if i == 113 { FoxVariables::Pv6Volt }
        else if i == 114 { FoxVariables::Pv7Current }
        else if i == 115 { FoxVariables::Pv7Power }
        else if i == 116 { FoxVariables::Pv7Volt }
        else if i == 117 { FoxVariables::Pv8Current }
        else if i == 118 { FoxVariables::Pv8Power }
        else if i == 119 { FoxVariables::Pv8Volt }
        else if i == 120 { FoxVariables::Pv9Current }
        else if i == 121 { FoxVariables::Pv9Power }
        else if i == 122 { FoxVariables::Pv9Volt }
        else if i == 123 { FoxVariables::PVEnergyTotal }
        else if i == 124 { FoxVariables::PvPower }
        else if i == 125 { FoxVariables::RCurrent }
        else if i == 126 { FoxVariables::ReactivePower }
        else if i == 127 { FoxVariables::ResidualEnergy }
        else if i == 128 { FoxVariables::RFreq }
        else if i == 129 { FoxVariables::RPower }
        else if i == 130 { FoxVariables::RunningState }
        else if i == 131 { FoxVariables::RVolt }
        else if i == 132 { FoxVariables::SCurrent }
        else if i == 133 { FoxVariables::SFreq }
        else if i == 134 { FoxVariables::SoC }
        else if i == 135 { FoxVariables::SOH }
        else if i == 136 { FoxVariables::SPower }
        else if i == 137 { FoxVariables::SVolt }
        else if i == 138 { FoxVariables::TCurrent }
        else if i == 139 { FoxVariables::TFreq }
        else if i == 140 { FoxVariables::TodayYield }
        else if i == 141 { FoxVariables::TPower }
        else { FoxVariables::TVolt }
    }

    /// The position of the key `s` in the registry, read from its length and a few of its characters.
    closed spec fn key_index(s: Seq<char>) -> int {
        if s.len() == 18 { 0 }
        else if s.len() == 14 && s[0] == 'b' && s[3] == 'C' { 1 }
        else if s.len() == 10 && s[0] == 'b' && s[2] == 't' { 2 }
        else if s.len() == 17 && s[6] == 'c' { 3 }
        else if s.len() == 9 && s[2] == 't' && s[3] == 'S' && s[8] == 's' { 4 }
        else if s.len() == 11 && s[2] == 't' && s[3] == 'S' && s[10] == '2' { 5 }
        else if s.len() == 14 && s[0] == 'b' && s[3] == 'T' { 6 }
        else if s.len() == 7 && s[2] == 't' { 7 }
        else if s.len() == 16 && s[0] == 'b' { 8 }
        else if s.len() == 17 && s[6] == 'E' { 9 }
        else if s.len() == 17 && s[6] == 'T' { 10 }
        else if s.len() == 12 && s[0] == 'c' { 11 }
        else if s.len() == 17 && s[6] == 't' { 12 }
        else if s.len() == 20 && s[0] == 'd' { 13 }
        else if s.len() == 14 && s[0] == 'd' && s[3] == 'T' { 14 }
        else if s.len() == 16 && s[0] == 'e' { 15 }
        else if s.len() == 11 && s[2] == 's' && s[3] == 'C' && s[10] == 'R' { 16 }
        else if s.len() == 11 && s[2] == 's' && s[3] == 'C' && s[10] == 'S' { 17 }
        else if s.len() == 11 && s[2] == 's' && s[3] == 'C' && s[10] == 'T' { 18 }
        else if s.len() == 8 && s[0] == 'e' && s[2] == 's' && s[3] == 'P' && s[7] == 'r' { 19 }
        else if s.len() == 9 && s[2] == 's' && s[3] == 'P' && s[8] == 'R' { 20 }
        else if s.len() == 9 && s[2] == 's' && s[3] == 'P' && s[8] == 'S' { 21 }
        else if s.len() == 9 && s[2] == 's' && s[3] == 'P' && s[8] == 'T' { 22 }
        else if s.len() == 8 && s[0] == 'e' && s[2] == 's' && s[3] == 'V' && s[7] == 'R' { 23 }
        else if s.len() == 8 && s[0] == 'e' && s[2] == 's' && s[3] == 'V' && s[7] == 'S' { 24 }
        else if s.len() == 8 && s[0] == 'e' && s[2] == 's' && s[3] == 'V' && s[7] == 'T' { 25 }
        else if s.len() == 6 && s[0] == 'f' { 26 }
        else if s.len() == 7 && s[2] == 'e' { 27 }
        else if s.len() == 11 && s[2] == 'e' && s[3] == 'd' && s[10] == 'r' { 28 }
        else if s.len() == 10 && s[0] == 'g' && s[2] == 'n' { 29 }
        else if s.len() == 15 && s[1] == 'e' { 30 }
        else if s.len() == 15 && s[1] == 'r' { 31 }
        else if s.len() == 16 && s[0] == 'g' { 32 }
        else if s.len() == 20 && s[0] == 'g' { 33 }
        else if s.len() == 13 && s[0] == 'i' { 34 }
        else if s.len() == 11 && s[2] == 'v' && s[3] == 'B' && s[10] == 'r' { 35 }
        else if s.len() == 10 && s[0] == 'i' && s[2] == 'v' { 36 }
        else if s.len() == 14 && s[0] == 'i' && s[3] == 'T' { 37 }
        else if s.len() == 5 && s[0] == 'l' && s[1] == 'o' { 38 }
        else if s.len() == 10 && s[0] == 'l' && s[2] == 'a' { 39 }
        else if s.len() == 11 && s[2] == 'a' && s[3] == 'd' && s[10] == 'R' { 40 }
        else if s.len() == 11 && s[2] == 'a' && s[3] == 'd' && s[10] == 'S' { 41 }
        else if s.len() == 11 && s[2] == 'a' && s[3] == 'd' && s[10] == 'T' { 42 }
        else if s.len() == 16 && s[0] == 'm' { 43 }
        else if s.len() == 19 { 44 }
        else if s.len() == 10 && s[0] == 'm' && s[2] == 't' { 45 }
        else if s.len() == 11 && s[2] == 't' && s[3] == 'e' && s[10] == '2' { 46 }
        else if s.len() == 11 && s[2] == 't' && s[3] == 'e' && s[10] == 'R' { 47 }
        else if s.len() == 11 && s[2] == 't' && s[3] == 'e' && s[10] == 'S' { 48 }
        else if s.len() == 11 && s[2] == 't' && s[3] == 'e' && s[10] == 'T' { 49 }
        else if s.len() == 11 && s[2] == 'w' && s[3] == 'e' && s[10] == 'r' { 50 }
        else if s.len() == 11 && s[2] == '1' && s[3] == '0' && s[10] == 't' { 51 }
        else if s.len() == 9 && s[2] == '1' && s[3] == '0' && s[8] == 'r' { 52 }
        else if s.len() == 8 && s[0] == 'p' && s[2] == '1' && s[3] == '0' && s[7] == 't' { 53 }
        else if s.len() == 11 && s[2] == '1' && s[3] == '1' && s[10] == 't' { 54 }
        else if s.len() == 9 && s[2] == '1' && s[3] == '1' && s[8] == 'r' { 55 }
        else if s.len() == 8 && s[0] == 'p' && s[2] == '1' && s[3] == '1' && s[7] == 't' { 56 }
        else if s.len() == 11 && s[2] == '1' && s[3] == '2' && s[10] == 't' { 57 }
        else if s.len() == 9 && s[2] == '1' && s[3] == '2' && s[8] == 'r' { 58 }
        else if s.len() == 8 && s[0] == 'p' && s[2] == '1' && s[3] == '2' && s[7] == 't' { 59 }
        else if s.len() == 11 && s[2] == '1' && s[3] == '3' && s[10] == 't' { 60 }
        else if s.len() == 9 && s[2] == '1' && s[3] == '3' && s[8] == 'r' { 61 }
        else if s.len() == 8 && s[0] == 'p' && s[2] == '1' && s[3] == '3' && s[7] == 't' { 62 }
        else if s.len() == 11 && s[2] == '1' && s[3] == '4' && s[10] == 't' { 63 }
        else if s.len() == 9 && s[2] == '1' && s[3] == '4' && s[8] == 'r' { 64 }
        else if s.len() == 8 && s[0] == 'p' && s[2] == '1' && s[3] == '4' && s[7] == 't' { 65 }
        else if s.len() == 11 && s[2] == '1' && s[3] == '5' && s[10] == 't' { 66 }
        else if s.len() == 9 && s[2] == '1' && s[3] == '5' && s[8] == 'r' { 67 }
        else if s.len() == 8 && s[0] == 'p' && s[2] == '1' && s[3] == '5' && s[7] == 't' { 68 }
        else if s.len() == 11 && s[2] == '1' && s[3] == '6' && s[10] == 't' { 69 }
        else if s.len() == 9 && s[2] == '1' && s[3] == '6' && s[8] == 'r' { 70 }
        else if s.len() == 8 && s[0] == 'p' && s[2] == '1' && s[3] == '6' && s[7] == 't' { 71 }
        else if s.len() == 11 && s[2] == '1' && s[3] == '7' && s[10] == 't' { 72 }
        else if s.len() == 9 && s[2] == '1' && s[3] == '7' && s[8] == 'r' { 73 }
        else if s.len() == 8 && s[0] == 'p' && s[2] == '1' && s[3] == '7' && s[7] == 't' { 74 }
        else if s.len() == 11 && s[2] == '1' && s[3] == '8' && s[10] == 't' { 75 }
        else if s.len() == 9 && s[2] == '1' && s[3] == '8' && s[8] == 'r' { 76 }
        else if s.len() == 8 && s[0] == 'p' && s[2] == '1' && s[3] == '8' && s[7] == 't' { 77 }
        else if s.len() == 11 && s[2] == '1' && s[3] == '9' && s[10] == 't' { 78 }
        else if s.len() == 9 && s[2] == '1' && s[3] == '9' && s[8] == 'r' { 79 }
        else if s.len() == 8 && s[0] == 'p' && s[2] == '1' && s[3] == '9' && s[7] == 't' { 80 }
        else if s.len() == 10 && s[0] == 'p' && s[2] == '1' { 81 }
        else if s.len() == 8 && s[0] == 'p' && s[2] == '1' && s[3] == 'P' && s[7] == 'r' { 82 }
        else if s.len() == 7 && s[2] == '1' { 83 }
        else if s.len() == 11 && s[2] == '2' && s[3] == '0' && s[10] == 't' { 84 }
        else if s.len() == 9 && s[2] == '2' && s[3] == '0' && s[8] == 'r' { 85 }
        else if s.len() == 8 && s[0] == 'p' && s[2] == '2' && s[3] == '0' && s[7] == 't' { 86 }
        else if s.len() == 11 && s[2] == '2' && s[3] == '1' && s[10] == 't' { 87 }
        else if s.len() == 9 && s[2] == '2' && s[3] == '1' && s[8] == 'r' { 88 }
        else if s.len() == 8 && s[0] == 'p' && s[2] == '2' && s[3] == '1' && s[7] == 't' { 89 }
        else if s.len() == 11 && s[2] == '2' && s[3] == '2' && s[10] == 't' { 90 }
        else if s.len() == 9 && s[2] == '2' && s[3] == '2' && s[8] == 'r' { 91 }
        else if s.len() == 8 && s[0] == 'p' && s[2] == '2' && s[3] == '2' && s[7] == 't' { 92 }
        else if s.len() == 11 && s[2] == '2' && s[3] == '3' && s[10] == 't' { 93 }
        else if s.len() == 9 && s[2] == '2' && s[3] == '3' && s[8] == 'r' { 94 }
        else if s.len() == 8 && s[0] == 'p' && s[2] == '2' && s[3] == '3' && s[7] == 't' { 95 }
        else if s.len() == 11 && s[2] == '2' && s[3] == '4' && s[10] == 't' { 96 }
        else if s.len() == 9 && s[2] == '2' && s[3] == '4' && s[8] == 'r' { 97 }
        else if s.len() == 8 && s[0] == 'p' && s[2] == '2' && s[3] == '4' && s[7] == 't' { 98 }
        else if s.len() == 10 && s[0] == 'p' && s[2] == '2' { 99 }
        else if s.len() == 8 && s[0] == 'p' && s[2] == '2' && s[3] == 'P' && s[7] == 'r' { 100 }
        else if s.len() == 7 && s[2] == '2' { 101 }
        else if s.len() == 10 && s[0] == 'p' && s[2] == '3' { 102 }
        else if s.len() == 8 && s[0] == 'p' && s[2] == '3' && s[3] == 'P' && s[7] == 'r' { 103 }
        else if s.len() == 7 && s[2] == '3' { 104 }
        else if s.len() == 10 && s[0] == 'p' && s[2] == '4' { 105 }
        else if s.len() == 8 && s[0] == 'p' && s[2] == '4' && s[3] == 'P' && s[7] == 'r' { 106 }
        else if s.len() == 7 && s[2] == '4' { 107 }
        else if s.len() == 10 && s[0] == 'p' && s[2] == '5' { 108 }
        else if s.len() == 8 && s[0] == 'p' && s[2] == '5' && s[3] == 'P' && s[7] == 'r' { 109 }
        else if s.len() == 7 && s[2] == '5' { 110 }
        else if s.len() == 10 && s[0] == 'p' && s[2] == '6' { 111 }
        else if s.len() == 8 && s[0] == 'p' && s[2] == '6' && s[3] == 'P' && s[7] == 'r' { 112 }
        else if s.len() == 7 && s[2] == '6' { 113 }
        else if s.len() == 10 && s[0] == 'p' && s[2] == '7' { 114 }
        else if s.len() == 8 && s[0] == 'p' && s[2] == '7' && s[3] == 'P' && s[7] == 'r' { 115 }
        else if s.len() == 7 && s[2] == '7' { 116 }
        else if s.len() == 10 && s[0] == 'p' && s[2] == '8' { 117 }
        else if s.len() == 8 && s[0] == 'p' && s[2] == '8' && s[3] == 'P' && s[7] == 'r' { 118 }
        else if s.len() == 7 && s[2] == '8' { 119 }
        else if s.len() == 10 && s[0] == 'p' && s[2] == '9' { 120 }
        else if s.len() == 8 && s[0] == 'p' && s[2] == '9' && s[3] == 'P' && s[7] == 'r' { 121 }
        else if s.len() == 7 && s[2] == '9' { 122 }
        else if s.len() == 13 && s[0] == 'P' { 123 }
        else if s.len() == 7 && s[2] == 'P' { 124 }
        else if s.len() == 8 && s[0] == 'R' && s[2] == 'u' && s[3] == 'r' && s[7] == 't' { 125 }
        else if s.len() == 13 && s[0] == 'R' { 126 }
        else if s.len() == 14 && s[0] == 'R' && s[3] == 'i' { 127 }
        else if s.len() == 5 && s[0] == 'R' && s[1] == 'F' { 128 }
        else if s.len() == 6 && s[0] == 'R' { 129 }
        else if s.len() == 12 && s[0] == 'r' { 130 }
        else if s.len() == 5 && s[0] == 'R' && s[1] == 'V' { 131 }
        else if s.len() == 8 && s[0] == 'S' && s[2] == 'u' && s[3] == 'r' && s[7] == 't' { 132 }
        else if s.len() == 5 && s[0] == 'S' && s[1] == 'F' { 133 }
        else if s.len() == 3 && s[1] == 'o' { 134 }
        else if s.len() == 3 && s[1] == 'O' { 135 }
        else if s.len() == 6 && s[0] == 'S' { 136 }
        else if s.len() == 5 && s[0] == 'S' && s[1] == 'V' { 137 }
        else if s.len() == 8 && s[0] == 'T' && s[2] == 'u' && s[3] == 'r' && s[7] == 't' { 138 }
        else if s.len() == 5 && s[0] == 'T' && s[1] == 'F' { 139 }
        else if s.len() == 10 && s[0] == 't' && s[2] == 'd' { 140 }
        else if s.len() == 6 && s[0] == 'T' { 141 }
        else if s.len() == 5 && s[0] == 'T' && s[1] == 'V' { 142 }
        else { -1 }
    }

    proof fn lemma_of_index(self)
        ensures
            Self::of_index(self.index()) == self,
    {
    }

    proof fn lemma_key_index(self)
        ensures
            Self::key_index(self.key()) == self.index(),
    {
        match self {
            FoxVariables::AmbientTemperation => {
                reveal_strlit("ambientTemperation");
            },
            FoxVariables::BatChargePower => {
                reveal_strlit("batChargePower");
            },
            FoxVariables::BatCurrent => {
                reveal_strlit("batCurrent");
            },
            FoxVariables::BatDischargePower => {
                reveal_strlit("batDischargePower");
            },
            FoxVariables::BatStatus => {
                reveal_strlit("batStatus");
            },
            FoxVariables::BatStatusV2 => {
                reveal_strlit("batStatusV2");
            },
            FoxVariables::BatTemperature => {
                reveal_strlit("batTemperature");
            },
            FoxVariables::BatVolt => {
                reveal_strlit("batVolt");
            },
            FoxVariables::BoostTemperation => {
                reveal_strlit("boostTemperation");
            },
            FoxVariables::ChargeEnergyToTal => {
                reveal_strlit("chargeEnergyToTal");
            },
            FoxVariables::ChargeTemperature => {
                reveal_strlit("chargeTemperature");
            },
            FoxVariables::CurrentFault => {
                reveal_strlit("currentFault");
            },
            FoxVariables::CurrentFaultCount => {
                reveal_strlit("currentFaultCount");
            },
            FoxVariables::DischargeEnergyToTal => {
                reveal_strlit("dischargeEnergyToTal");
            },
            FoxVariables::DspTemperature => {
                reveal_strlit("dspTemperature");
            },
            FoxVariables::EnergyThroughput => {
                reveal_strlit("energyThroughput");
            },
            FoxVariables::EpsCurrentR => {
                reveal_strlit("epsCurrentR");
            },
            FoxVariables::EpsCurrentS => {
                reveal_strlit("epsCurrentS");
            },
            FoxVariables::EpsCurrentT => {
                reveal_strlit("epsCurrentT");
            },
            FoxVariables::EpsPower => {
                reveal_strlit("epsPower");
            },
            FoxVariables::EpsPowerR => {
                reveal_strlit("epsPowerR");
            },
            FoxVariables::EpsPowerS => {
                reveal_strlit("epsPowerS");
            },
            FoxVariables::EpsPowerT => {
                reveal_strlit("epsPowerT");
            },
            FoxVariables::EpsVoltR => {
                reveal_strlit("epsVoltR");
            },
            FoxVariables::EpsVoltS => {
                reveal_strlit("epsVoltS");
            },
            FoxVariables::EpsVoltT => {
                reveal_strlit("epsVoltT");
            },
            FoxVariables::Feedin => {
                reveal_strlit("feedin");
            },
            FoxVariables::Feedin2 => {
                reveal_strlit("feedin2");
            },
            FoxVariables::FeedinPower => {
                reveal_strlit("feedinPower");
            },
            FoxVariables::Generation => {
                reveal_strlit("generation");
            },
            FoxVariables::GenerationPower => {
                reveal_strlit("generationPower");
            },
            FoxVariables::GridConsumption => {
                reveal_strlit("gridConsumption");
            },
            FoxVariables::GridConsumption2 => {
                reveal_strlit("gridConsumption2");
            },
            FoxVariables::GridConsumptionPower => {
                reveal_strlit("gridConsumptionPower");
            },
            FoxVariables::InvBatCurrent => {
                reveal_strlit("invBatCurrent");
            },
            FoxVariables::InvBatPower => {
                reveal_strlit("invBatPower");
            },
            FoxVariables::InvBatVolt => {
                reveal_strlit("invBatVolt");
            },
            FoxVariables::InvTemperation => {
                reveal_strlit("invTemperation");
            },
            FoxVariables::Loads => {
                reveal_strlit("loads");
            },
            FoxVariables::LoadsPower => {
                reveal_strlit("loadsPower");
            },
            FoxVariables::LoadsPowerR => {
                reveal_strlit("loadsPowerR");
            },
            FoxVariables::LoadsPowerS => {
                reveal_strlit("loadsPowerS");
            },
            FoxVariables::LoadsPowerT => {
                reveal_strlit("loadsPowerT");
            },
            FoxVariables::MaxChargeCurrent => {
                reveal_strlit("maxChargeCurrent");
            },
            FoxVariables::MaxDischargeCurrent => {
                reveal_strlit("maxDischargeCurrent");
            },
            FoxVariables::MeterPower => {
                reveal_strlit("meterPower");
            },
            FoxVariables::MeterPower2 => {
                reveal_strlit("meterPower2");
            },
            FoxVariables::MeterPowerR => {
                reveal_strlit("meterPowerR");
            },
            FoxVariables::MeterPowerS => {
                reveal_strlit("meterPowerS");
            },
            FoxVariables::MeterPowerT => {
                reveal_strlit("meterPowerT");
            },
            FoxVariables::PowerFactor => {
                reveal_strlit("PowerFactor");
            },
            FoxVariables::Pv10Current => {
                reveal_strlit("pv10Current");
            },
            FoxVariables::Pv10Power => {
                reveal_strlit("pv10Power");
            },
            FoxVariables::Pv10Volt => {
                reveal_strlit("pv10Volt");
            },
            FoxVariables::Pv11Current => {
                reveal_strlit("pv11Current");
            },
            FoxVariables::Pv11Power => {
                reveal_strlit("pv11Power");
            },
            FoxVariables::Pv11Volt => {
                reveal_strlit("pv11Volt");
            },
            FoxVariables::Pv12Current => {
                reveal_strlit("pv12Current");
            },
            FoxVariables::Pv12Power => {
                reveal_strlit("pv12Power");
            },
            FoxVariables::Pv12Volt => {
                reveal_strlit("pv12Volt");
            },
            FoxVariables::Pv13Current => {
                reveal_strlit("pv13Current");
            },
            FoxVariables::Pv13Power => {
                reveal_strlit("pv13Power");
            },
            FoxVariables::Pv13Volt => {
                reveal_strlit("pv13Volt");
            },
            FoxVariables::Pv14Current => {
                reveal_strlit("pv14Current");
            },
            FoxVariables::Pv14Power => {
                reveal_strlit("pv14Power");
            },
            FoxVariables::Pv14Volt => {
                reveal_strlit("pv14Volt");
            },
            FoxVariables::Pv15Current => {
                reveal_strlit("pv15Current");
            },
            FoxVariables::Pv15Power => {
                reveal_strlit("pv15Power");
            },
            FoxVariables::Pv15Volt => {
                reveal_strlit("pv15Volt");
            },
            FoxVariables::Pv16Current => {
                reveal_strlit("pv16Current");
            },
            FoxVariables::Pv16Power => {
                reveal_strlit("pv16Power");
            },
            FoxVariables::Pv16Volt => {
                reveal_strlit("pv16Volt");
            },
            FoxVariables::Pv17Current => {
                reveal_strlit("pv17Current");
            },
            FoxVariables::Pv17Power => {
                reveal_strlit("pv17Power");
            },
            FoxVariables::Pv17Volt => {
                reveal_strlit("pv17Volt");
            },
            FoxVariables::Pv18Current => {
                reveal_strlit("pv18Current");
            },
            FoxVariables::Pv18Power => {
                reveal_strlit("pv18Power");
            },
            FoxVariables::Pv18Volt => {
                reveal_strlit("pv18Volt");
            },
            FoxVariables::Pv19Current => {
                reveal_strlit("pv19Current");
            },
            FoxVariables::Pv19Power => {
                reveal_strlit("pv19Power");
            },
            FoxVariables::Pv19Volt => {
                reveal_strlit("pv19Volt");
            },
            FoxVariables::Pv1Current => {
                reveal_strlit("pv1Current");
            },
            FoxVariables::Pv1Power => {
                reveal_strlit("pv1Power");
            },
            FoxVariables::Pv1Volt => {
                reveal_strlit("pv1Volt");
            },
            FoxVariables::Pv20Current => {
                reveal_strlit("pv20Current");
            },
            FoxVariables::Pv20Power => {
                reveal_strlit("pv20Power");
            },
            FoxVariables::Pv20Volt => {
                reveal_strlit("pv20Volt");
            },
            FoxVariables::Pv21Current => {
                reveal_strlit("pv21Current");
            },
            FoxVariables::Pv21Power => {
                reveal_strlit("pv21Power");
            },
            FoxVariables::Pv21Volt => {
                reveal_strlit("pv21Volt");
            },
            FoxVariables::Pv22Current => {
                reveal_strlit("pv22Current");
            },
            FoxVariables::Pv22Power => {
                reveal_strlit("pv22Power");
            },
            FoxVariables::Pv22Volt => {
                reveal_strlit("pv22Volt");
            },
            FoxVariables::Pv23Current => {
                reveal_strlit("pv23Current");
            },
            FoxVariables::Pv23Power => {
                reveal_strlit("pv23Power");
            },
            FoxVariables::Pv23Volt => {
                reveal_strlit("pv23Volt");
            },
            FoxVariables::Pv24Current => {
                reveal_strlit("pv24Current");
            },
            FoxVariables::Pv24Power => {
                reveal_strlit("pv24Power");
            },
            FoxVariables::Pv24Volt => {
                reveal_strlit("pv24Volt");
            },
            FoxVariables::Pv2Current => {
                reveal_strlit("pv2Current");
            },
            FoxVariables::Pv2Power => {
                reveal_strlit("pv2Power");
            },
            FoxVariables::Pv2Volt => {
                reveal_strlit("pv2Volt");
            },
            FoxVariables::Pv3Current => {
                reveal_strlit("pv3Current");
            },
            FoxVariables::Pv3Power => {
                reveal_strlit("pv3Power");
            },
            FoxVariables::Pv3Volt => {
                reveal_strlit("pv3Volt");
            },
            FoxVariables::Pv4Current => {
                reveal_strlit("pv4Current");
            },
            FoxVariables::Pv4Power => {
                reveal_strlit("pv4Power");
            },
            FoxVariables::Pv4Volt => {
                reveal_strlit("pv4Volt");
            },
            FoxVariables::Pv5Current => {
                reveal_strlit("pv5Current");
            },
            FoxVariables::Pv5Power => {
                reveal_strlit("pv5Power");
            },
            FoxVariables::Pv5Volt => {
                reveal_strlit("pv5Volt");
            },
            FoxVariables::Pv6Current => {
                reveal_strlit("pv6Current");
            },
            FoxVariables::Pv6Power => {
                reveal_strlit("pv6Power");
            },
            FoxVariables::Pv6Volt => {
                reveal_strlit("pv6Volt");
            },
            FoxVariables::Pv7Current => {
                reveal_strlit("pv7Current");
            },
            FoxVariables::Pv7Power => {
                reveal_strlit("pv7Power");
            },
            FoxVariables::Pv7Volt => {
                reveal_strlit("pv7Volt");
            },
            FoxVariables::Pv8Current => {
                reveal_strlit("pv8Current");
            },
            FoxVariables::Pv8Power => {
                reveal_strlit("pv8Power");
            },
            FoxVariables::Pv8Volt => {
                reveal_strlit("pv8Volt");
            },
            FoxVariables::Pv9Current => {
                reveal_strlit("pv9Current");
            },
            FoxVariables::Pv9Power => {
                reveal_strlit("pv9Power");
            },
            FoxVariables::Pv9Volt => {
                reveal_strlit("pv9Volt");
            },
            FoxVariables::PVEnergyTotal => {
                reveal_strlit("PVEnergyTotal");
            },
            FoxVariables::PvPower => {
                reveal_strlit("pvPower");
            },
            FoxVariables::RCurrent => {
                reveal_strlit("RCurrent");
            },
            FoxVariables::ReactivePower => {
                reveal_strlit("ReactivePower");
            },
            FoxVariables::ResidualEnergy => {
                reveal_strlit("ResidualEnergy");
            },
            FoxVariables::RFreq => {
                reveal_strlit("RFreq");
            },
            FoxVariables::RPower => {
                reveal_strlit("RPower");
            },
            FoxVariables::RunningState => {
                reveal_strlit("runningState");
            },
            FoxVariables::RVolt => {
                reveal_strlit("RVolt");
            },
            FoxVariables::SCurrent => {
                reveal_strlit("SCurrent");
            },
            FoxVariables::SFreq => {
                reveal_strlit("SFreq");
            },
            FoxVariables::SoC => {
                reveal_strlit("SoC");
            },
            FoxVariables::SOH => {
                reveal_strlit("SOH");
            },
            FoxVariables::SPower => {
                reveal_strlit("SPower");
            },
            FoxVariables::SVolt => {
                reveal_strlit("SVolt");
            },
            FoxVariables::TCurrent => {
                reveal_strlit("TCurrent");
            },
            FoxVariables::TFreq => {
                reveal_strlit("TFreq");
            },
            FoxVariables::TodayYield => {
                reveal_strlit("todayYield");
            },
            FoxVariables::TPower => {
                reveal_strlit("TPower");
            },
            FoxVariables::TVolt => {
                reveal_strlit("TVolt");
            },
        }
    }

    /// Distinct variants have distinct keys.
    pub proof fn lemma_key_injective(a: FoxVariables, b: FoxVariables)
        requires
            a.key() == b.key(),
        ensures
            a == b,
    {
        a.lemma_key_index();
        b.lemma_key_index();
        a.lemma_of_index();
        b.lemma_of_index();
    }

    /// The variant whose key is `s`, if there is one.
    pub open spec fn from_key_spec(s: Seq<char>) -> Option<FoxVariables> {
        if exists|v: FoxVariables| v.key() == s {
            Some(choose|v: FoxVariables| v.key() == s)
        } else {
            None
        }
    }

    /// The variant that the key of a variant names is that variant.
    pub proof fn lemma_from_key_of_key(v: FoxVariables)
        ensures
            Self::from_key_spec(v.key()) == Some(v),
    {
        let w = choose|w: FoxVariables| w.key() == v.key();
        Self::lemma_key_injective(v, w);
    }

    /// Returns the variant whose key is `s`, if there is one.
    pub fn from_key(s: &str) -> (r: Option<FoxVariables>)
        ensures
            r == Self::from_key_spec(s@),
    {
        if str_eq(s, "ambientTemperation") {
            proof { Self::lemma_from_key_of_key(FoxVariables::AmbientTemperation); }
            return Some(FoxVariables::AmbientTemperation);
        }
        if str_eq(s, "batChargePower") {
            proof { Self::lemma_from_key_of_key(FoxVariables::BatChargePower); }
            return Some(FoxVariables::BatChargePower);
        }
        if str_eq(s, "batCurrent") {
            proof { Self::lemma_from_key_of_key(FoxVariables::BatCurrent); }
            return Some(FoxVariables::BatCurrent);
        }
        if str_eq(s, "batDischargePower") {
            proof { Self::lemma_from_key_of_key(FoxVariables::BatDischargePower); }
            return Some(FoxVariables::BatDischargePower);
        }
        if str_eq(s, "batStatus") {
            proof { Self::lemma_from_key_of_key(FoxVariables::BatStatus); }
            return Some(FoxVariables::BatStatus);
        }
        if str_eq(s, "batStatusV2") {
            proof { Self::lemma_from_key_of_key(FoxVariables::BatStatusV2); }
            return Some(FoxVariables::BatStatusV2);
        }
        if str_eq(s, "batTemperature") {
            proof { Self::lemma_from_key_of_key(FoxVariables::BatTemperature); }
            return Some(FoxVariables::BatTemperature);
        }
        if str_eq(s, "batVolt") {
            proof { Self::lemma_from_key_of_key(FoxVariables::BatVolt); }
            return Some(FoxVariables::BatVolt);
        }
        if str_eq(s, "boostTemperation") {
            proof { Self::lemma_from_key_of_key(FoxVariables::BoostTemperation); }
            return Some(FoxVariables::BoostTemperation);
        }
        if str_eq(s, "chargeEnergyToTal") {
            proof { Self::lemma_from_key_of_key(FoxVariables::ChargeEnergyToTal); }
            return Some(FoxVariables::ChargeEnergyToTal);
        }
        if str_eq(s, "chargeTemperature") {
            proof { Self::lemma_from_key_of_key(FoxVariables::ChargeTemperature); }
            return Some(FoxVariables::ChargeTemperature);
        }
        if str_eq(s, "currentFault") {
            proof { Self::lemma_from_key_of_key(FoxVariables::CurrentFault); }
            return Some(FoxVariables::CurrentFault);
        }
        if str_eq(s, "currentFaultCount") {
            proof { Self::lemma_from_key_of_key(FoxVariables::CurrentFaultCount); }
            return Some(FoxVariables::CurrentFaultCount);
        }
        if str_eq(s, "dischargeEnergyToTal") {
            proof { Self::lemma_from_key_of_key(FoxVariables::DischargeEnergyToTal); }
            return Some(FoxVariables::DischargeEnergyToTal);
        }
        if str_eq(s, "dspTemperature") {
            proof { Self::lemma_from_key_of_key(FoxVariables::DspTemperature); }
            return Some(FoxVariables::DspTemperature);
        }
        if str_eq(s, "energyThroughput") {
            proof { Self::lemma_from_key_of_key(FoxVariables::EnergyThroughput); }
            return Some(FoxVariables::EnergyThroughput);
        }
        if str_eq(s, "epsCurrentR") {
            proof { Self::lemma_from_key_of_key(FoxVariables::EpsCurrentR); }
            return Some(FoxVariables::EpsCurrentR);
        }
        if str_eq(s, "epsCurrentS") {
            proof { Self::lemma_from_key_of_key(FoxVariables::EpsCurrentS); }
            return Some(FoxVariables::EpsCurrentS);
        }
        if str_eq(s, "epsCurrentT") {
            proof { Self::lemma_from_key_of_key(FoxVariables::EpsCurrentT); }
            return Some(FoxVariables::EpsCurrentT);
        }
        if str_eq(s, "epsPower") {
            proof { Self::lemma_from_key_of_key(FoxVariables::EpsPower); }
            return Some(FoxVariables::EpsPower);
        }
        if str_eq(s, "epsPowerR") {
            proof { Self::lemma_from_key_of_key(FoxVariables::EpsPowerR); }
            return Some(FoxVariables::EpsPowerR);
        }
        if str_eq(s, "epsPowerS") {
            proof { Self::lemma_from_key_of_key(FoxVariables::EpsPowerS); }
            return Some(FoxVariables::EpsPowerS);
        }
        if str_eq(s, "epsPowerT") {
            proof { Self::lemma_from_key_of_key(FoxVariables::EpsPowerT); }
            return Some(FoxVariables::EpsPowerT);
        }
        if str_eq(s, "epsVoltR") {
            proof { Self::lemma_from_key_of_key(FoxVariables::EpsVoltR); }
            return Some(FoxVariables::EpsVoltR);
        }
        if str_eq(s, "epsVoltS") {
            proof { Self::lemma_from_key_of_key(FoxVariables::EpsVoltS); }
            return Some(FoxVariables::EpsVoltS);
        }
        if str_eq(s, "epsVoltT") {
            proof { Self::lemma_from_key_of_key(FoxVariables::EpsVoltT); }
            return Some(FoxVariables::EpsVoltT);
        }
        if str_eq(s, "feedin") {
            proof { Self::lemma_from_key_of_key(FoxVariables::Feedin); }
            return Some(FoxVariables::Feedin);
        }
        if str_eq(s, "feedin2") {
            proof { Self::lemma_from_key_of_key(FoxVariables::Feedin2); }
            return Some(FoxVariables::Feedin2);
        }
        if str_eq(s, "feedinPower") {
            proof { Self::lemma_from_key_of_key(FoxVariables::FeedinPower); }
            return Some(FoxVariables::FeedinPower);
        }
        if str_eq(s, "generation") {
            proof { Self::lemma_from_key_of_key(FoxVariables::Generation); }
            return Some(FoxVariables::Generation);
        }
        if str_eq(s, "generationPower") {
            proof { Self::lemma_from_key_of_key(FoxVariables::GenerationPower); }
            return Some(FoxVariables::GenerationPower);
        }
        if str_eq(s, "gridConsumption") {
            proof { Self::lemma_from_key_of_key(FoxVariables::GridConsumption); }
            return Some(FoxVariables::GridConsumption);
        }
        if str_eq(s, "gridConsumption2") {
            proof { Self::lemma_from_key_of_key(FoxVariables::GridConsumption2); }
            return Some(FoxVariables::GridConsumption2);
        }
        if str_eq(s, "gridConsumptionPower") {
            proof { Self::lemma_from_key_of_key(FoxVariables::GridConsumptionPower); }
            return Some(FoxVariables::GridConsumptionPower);
        }
        if str_eq(s, "invBatCurrent") {
            proof { Self::lemma_from_key_of_key(FoxVariables::InvBatCurrent); }
            return Some(FoxVariables::InvBatCurrent);
        }
        if str_eq(s, "invBatPower") {
            proof { Self::lemma_from_key_of_key(FoxVariables::InvBatPower); }
            return Some(FoxVariables::InvBatPower);
        }
        if str_eq(s, "invBatVolt") {
            proof { Self::lemma_from_key_of_key(FoxVariables::InvBatVolt); }
            return Some(FoxVariables::InvBatVolt);
        }
        if str_eq(s, "invTemperation") {
            proof { Self::lemma_from_key_of_key(FoxVariables::InvTemperation); }
            return Some(FoxVariables::InvTemperation);
        }
        if str_eq(s, "loads") {
            proof { Self::lemma_from_key_of_key(FoxVariables::Loads); }
            return Some(FoxVariables::Loads);
        }
        if str_eq(s, "loadsPower") {
            proof { Self::lemma_from_key_of_key(FoxVariables::LoadsPower); }
            return Some(FoxVariables::LoadsPower);
        }
        if str_eq(s, "loadsPowerR") {
            proof { Self::lemma_from_key_of_key(FoxVariables::LoadsPowerR); }
            return Some(FoxVariables::LoadsPowerR);
        }
        if str_eq(s, "loadsPowerS") {
            proof { Self::lemma_from_key_of_key(FoxVariables::LoadsPowerS); }
            return Some(FoxVariables::LoadsPowerS);
        }
        if str_eq(s, "loadsPowerT") {
            proof { Self::lemma_from_key_of_key(FoxVariables::LoadsPowerT); }
            return Some(FoxVariables::LoadsPowerT);
        }
        if str_eq(s, "maxChargeCurrent") {
            proof { Self::lemma_from_key_of_key(FoxVariables::MaxChargeCurrent); }
            return Some(FoxVariables::MaxChargeCurrent);
        }
        if str_eq(s, "maxDischargeCurrent") {
            proof { Self::lemma_from_key_of_key(FoxVariables::MaxDischargeCurrent); }
            return Some(FoxVariables::MaxDischargeCurrent);
        }
        if str_eq(s, "meterPower") {
            proof { Self::lemma_from_key_of_key(FoxVariables::MeterPower); }
            return Some(FoxVariables::MeterPower);
        }
        if str_eq(s, "meterPower2") {
            proof { Self::lemma_from_key_of_key(FoxVariables::MeterPower2); }
            return Some(FoxVariables::MeterPower2);
        }
        if str_eq(s, "meterPowerR") {
            proof { Self::lemma_from_key_of_key(FoxVariables::MeterPowerR); }
            return Some(FoxVariables::MeterPowerR);
        }
        if str_eq(s, "meterPowerS") {
            proof { Self::lemma_from_key_of_key(FoxVariables::MeterPowerS); }
            return Some(FoxVariables::MeterPowerS);
        }
        if str_eq(s, "meterPowerT") {
            proof { Self::lemma_from_key_of_key(FoxVariables::MeterPowerT); }
            return Some(FoxVariables::MeterPowerT);
        }
        if str_eq(s, "PowerFactor") {
            proof { Self::lemma_from_key_of_key(FoxVariables::PowerFactor); }
            return Some(FoxVariables::PowerFactor);
        }
        if str_eq(s, "pv10Current") {
            proof { Self::lemma_from_key_of_key(FoxVariables::Pv10Current); }
            return Some(FoxVariables::Pv10Current);
        }
        if str_eq(s, "pv10Power") {
            proof { Self::lemma_from_key_of_key(FoxVariables::Pv10Power); }
            return Some(FoxVariables::Pv10Power);
        }
        if str_eq(s, "pv10Volt") {
            proof { Self::lemma_from_key_of_key(FoxVariables::Pv10Volt); }
            return Some(FoxVariables::Pv10Volt);
        }
        if str_eq(s, "pv11Current") {
            proof { Self::lemma_from_key_of_key(FoxVariables::Pv11Current); }
            return Some(FoxVariables::Pv11Current);
        }
        if str_eq(s, "pv11Power") {
            proof { Self::lemma_from_key_of_key(FoxVariables::Pv11Power); }
            return Some(FoxVariables::Pv11Power);
        }
        if str_eq(s, "pv11Volt") {
            proof { Self::lemma_from_key_of_key(FoxVariables::Pv11Volt); }
            return Some(FoxVariables::Pv11Volt);
        }
        if str_eq(s, "pv12Current") {
            proof { Self::lemma_from_key_of_key(FoxVariables::Pv12Current); }
            return Some(FoxVariables::Pv12Current);
        }
        if str_eq(s, "pv12Power") {
            proof { Self::lemma_from_key_of_key(FoxVariables::Pv12Power); }
            return Some(FoxVariables::Pv12Power);
        }
        if str_eq(s, "pv12Volt") {
            proof { Self::lemma_from_key_of_key(FoxVariables::Pv12Volt); }
            return Some(FoxVariables::Pv12Volt);
        }
        if str_eq(s, "pv13Current") {
            proof { Self::lemma_from_key_of_key(FoxVariables::Pv13Current); }
            return Some(FoxVariables::Pv13Current);
        }
        if str_eq(s, "pv13Power") {
            proof { Self::lemma_from_key_of_key(FoxVariables::Pv13Power); }
            return Some(FoxVariables::Pv13Power);
        }
        if str_eq(s, "pv13Volt") {
            proof { Self::lemma_from_key_of_key(FoxVariables::Pv13Volt); }
            return Some(FoxVariables::Pv13Volt);
        }
        if str_eq(s, "pv14Current") {
            proof { Self::lemma_from_key_of_key(FoxVariables::Pv14Current); }
            return Some(FoxVariables::Pv14Current);
        }
        if str_eq(s, "pv14Power") {
            proof { Self::lemma_from_key_of_key(FoxVariables::Pv14Power); }
            return Some(FoxVariables::Pv14Power);
        }
        if str_eq(s, "pv14Volt") {
            proof { Self::lemma_from_key_of_key(FoxVariables::Pv14Volt); }
            return Some(FoxVariables::Pv14Volt);
        }
        if str_eq(s, "pv15Current") {
            proof { Self::lemma_from_key_of_key(FoxVariables::Pv15Current); }
            return Some(FoxVariables::Pv15Current);
        }
        if str_eq(s, "pv15Power") {
            proof { Self::lemma_from_key_of_key(FoxVariables::Pv15Power); }
            return Some(FoxVariables::Pv15Power);
        }
        if str_eq(s, "pv15Volt") {
            proof { Self::lemma_from_key_of_key(FoxVariables::Pv15Volt); }
            return Some(FoxVariables::Pv15Volt);
        }
        if str_eq(s, "pv16Current") {
            proof { Self::lemma_from_key_of_key(FoxVariables::Pv16Current); }
            return Some(FoxVariables::Pv16Current);
        }
        if str_eq(s, "pv16Power") {
            proof { Self::lemma_from_key_of_key(FoxVariables::Pv16Power); }
            return Some(FoxVariables::Pv16Power);
        }
        if str_eq(s, "pv16Volt") {
            proof { Self::lemma_from_key_of_key(FoxVariables::Pv16Volt); }
            return Some(FoxVariables::Pv16Volt);
        }
        if str_eq(s, "pv17Current") {
            proof { Self::lemma_from_key_of_key(FoxVariables::Pv17Current); }
            return Some(FoxVariables::Pv17Current);
        }
        if str_eq(s, "pv17Power") {
            proof { Self::lemma_from_key_of_key(FoxVariables::Pv17Power); }
            return Some(FoxVariables::Pv17Power);
        }
        if str_eq(s, "pv17Volt") {
            proof { Self::lemma_from_key_of_key(FoxVariables::Pv17Volt); }
            return Some(FoxVariables::Pv17Volt);
        }
        if str_eq(s, "pv18Current") {
            proof { Self::lemma_from_key_of_key(FoxVariables::Pv18Current); }
            return Some(FoxVariables::Pv18Current);
        }
        if str_eq(s, "pv18Power") {
            proof { Self::lemma_from_key_of_key(FoxVariables::Pv18Power); }
            return Some(FoxVariables::Pv18Power);
        }
        if str_eq(s, "pv18Volt") {
            proof { Self::lemma_from_key_of_key(FoxVariables::Pv18Volt); }
            return Some(FoxVariables::Pv18Volt);
        }
        if str_eq(s, "pv19Current") {
            proof { Self::lemma_from_key_of_key(FoxVariables::Pv19Current); }
            return Some(FoxVariables::Pv19Current);
        }
        if str_eq(s, "pv19Power") {
            proof { Self::lemma_from_key_of_key(FoxVariables::Pv19Power); }
            return Some(FoxVariables::Pv19Power);
        }
        if str_eq(s, "pv19Volt") {
            proof { Self::lemma_from_key_of_key(FoxVariables::Pv19Volt); }
            return Some(FoxVariables::Pv19Volt);
        }
        if str_eq(s, "pv1Current") {
            proof { Self::lemma_from_key_of_key(FoxVariables::Pv1Current); }
            return Some(FoxVariables::Pv1Current);
        }
        if str_eq(s, "pv1Power") {
            proof { Self::lemma_from_key_of_key(FoxVariables::Pv1Power); }
            return Some(FoxVariables::Pv1Power);
        }
        if str_eq(s, "pv1Volt") {
            proof { Self::lemma_from_key_of_key(FoxVariables::Pv1Volt); }
            return Some(FoxVariables::Pv1Volt);
        }
        if str_eq(s, "pv20Current") {
            proof { Self::lemma_from_key_of_key(FoxVariables::Pv20Current); }
            return Some(FoxVariables::Pv20Current);
        }
        if str_eq(s, "pv20Power") {
            proof { Self::lemma_from_key_of_key(FoxVariables::Pv20Power); }
            return Some(FoxVariables::Pv20Power);
        }
        if str_eq(s, "pv20Volt") {
            proof { Self::lemma_from_key_of_key(FoxVariables::Pv20Volt); }
            return Some(FoxVariables::Pv20Volt);
        }
        if str_eq(s, "pv21Current") {
            proof { Self::lemma_from_key_of_key(FoxVariables::Pv21Current); }
            return Some(FoxVariables::Pv21Current);
        }
        if str_eq(s, "pv21Power") {
            proof { Self::lemma_from_key_of_key(FoxVariables::Pv21Power); }
            return Some(FoxVariables::Pv21Power);
        }
        if str_eq(s, "pv21Volt") {
            proof { Self::lemma_from_key_of_key(FoxVariables::Pv21Volt); }
            return Some(FoxVariables::Pv21Volt);
        }
        if str_eq(s, "pv22Current") {
            proof { Self::lemma_from_key_of_key(FoxVariables::Pv22Current); }
            return Some(FoxVariables::Pv22Current);
        }
        if str_eq(s, "pv22Power") {
            proof { Self::lemma_from_key_of_key(FoxVariables::Pv22Power); }
            return Some(FoxVariables::Pv22Power);
        }
        if str_eq(s, "pv22Volt") {
            proof { Self::lemma_from_key_of_key(FoxVariables::Pv22Volt); }
            return Some(FoxVariables::Pv22Volt);
        }
        if str_eq(s, "pv23Current") {
            proof { Self::lemma_from_key_of_key(FoxVariables::Pv23Current); }
            return Some(FoxVariables::Pv23Current);
        }
        if str_eq(s, "pv23Power") {
            proof { Self::lemma_from_key_of_key(FoxVariables::Pv23Power); }
            return Some(FoxVariables::Pv23Power);
        }
        if str_eq(s, "pv23Volt") {
            proof { Self::lemma_from_key_of_key(FoxVariables::Pv23Volt); }
            return Some(FoxVariables::Pv23Volt);
        }
        if str_eq(s, "pv24Current") {
            proof { Self::lemma_from_key_of_key(FoxVariables::Pv24Current); }
            return Some(FoxVariables::Pv24Current);
        }
        if str_eq(s, "pv24Power") {
            proof { Self::lemma_from_key_of_key(FoxVariables::Pv24Power); }
            return Some(FoxVariables::Pv24Power);
        }
        if str_eq(s, "pv24Volt") {
            proof { Self::lemma_from_key_of_key(FoxVariables::Pv24Volt); }
            return Some(FoxVariables::Pv24Volt);
        }
        if str_eq(s, "pv2Current") {
            proof { Self::lemma_from_key_of_key(FoxVariables::Pv2Current); }
            return Some(FoxVariables::Pv2Current);
        }
        if str_eq(s, "pv2Power") {
            proof { Self::lemma_from_key_of_key(FoxVariables::Pv2Power); }
            return Some(FoxVariables::Pv2Power);
        }
        if str_eq(s, "pv2Volt") {
            proof { Self::lemma_from_key_of_key(FoxVariables::Pv2Volt); }
            return Some(FoxVariables::Pv2Volt);
        }
        if str_eq(s, "pv3Current") {
            proof { Self::lemma_from_key_of_key(FoxVariables::Pv3Current); }
            return Some(FoxVariables::Pv3Current);
        }
        if str_eq(s, "pv3Power") {
            proof { Self::lemma_from_key_of_key(FoxVariables::Pv3Power); }
            return Some(FoxVariables::Pv3Power);
        }
        if str_eq(s, "pv3Volt") {
            proof { Self::lemma_from_key_of_key(FoxVariables::Pv3Volt); }
            return Some(FoxVariables::Pv3Volt);
        }
        if str_eq(s, "pv4Current") {
            proof { Self::lemma_from_key_of_key(FoxVariables::Pv4Current); }
            return Some(FoxVariables::Pv4Current);
        }
        if str_eq(s, "pv4Power") {
            proof { Self::lemma_from_key_of_key(FoxVariables::Pv4Power); }
            return Some(FoxVariables::Pv4Power);
        }
        if str_eq(s, "pv4Volt") {
            proof { Self::lemma_from_key_of_key(FoxVariables::Pv4Volt); }
            return Some(FoxVariables::Pv4Volt);
        }
        if str_eq(s, "pv5Current") {
            proof { Self::lemma_from_key_of_key(FoxVariables::Pv5Current); }
            return Some(FoxVariables::Pv5Current);
        }
        if str_eq(s, "pv5Power") {
            proof { Self::lemma_from_key_of_key(FoxVariables::Pv5Power); }
            return Some(FoxVariables::Pv5Power);
        }
        if str_eq(s, "pv5Volt") {
            proof { Self::lemma_from_key_of_key(FoxVariables::Pv5Volt); }
            return Some(FoxVariables::Pv5Volt);
        }
        if str_eq(s, "pv6Current") {
            proof { Self::lemma_from_key_of_key(FoxVariables::Pv6Current); }
            return Some(FoxVariables::Pv6Current);
        }
        if str_eq(s, "pv6Power") {
            proof { Self::lemma_from_key_of_key(FoxVariables::Pv6Power); }
            return Some(FoxVariables::Pv6Power);
        }
        if str_eq(s, "pv6Volt") {
            proof { Self::lemma_from_key_of_key(FoxVariables::Pv6Volt); }
            return Some(FoxVariables::Pv6Volt);
        }
        if str_eq(s, "pv7Current") {
            proof { Self::lemma_from_key_of_key(FoxVariables::Pv7Current); }
            return Some(FoxVariables::Pv7Current);
        }
        if str_eq(s, "pv7Power") {
            proof { Self::lemma_from_key_of_key(FoxVariables::Pv7Power); }
            return Some(FoxVariables::Pv7Power);
        }
        if str_eq(s, "pv7Volt") {
            proof { Self::lemma_from_key_of_key(FoxVariables::Pv7Volt); }
            return Some(FoxVariables::Pv7Volt);
        }
        if str_eq(s, "pv8Current") {
            proof { Self::lemma_from_key_of_key(FoxVariables::Pv8Current); }
            return Some(FoxVariables::Pv8Current);
        }
        if str_eq(s, "pv8Power") {
            proof { Self::lemma_from_key_of_key(FoxVariables::Pv8Power); }
            return Some(FoxVariables::Pv8Power);
        }
        if str_eq(s, "pv8Volt") {
            proof { Self::lemma_from_key_of_key(FoxVariables::Pv8Volt); }
            return Some(FoxVariables::Pv8Volt);
        }
        if str_eq(s, "pv9Current") {
            proof { Self::lemma_from_key_of_key(FoxVariables::Pv9Current); }
            return Some(FoxVariables::Pv9Current);
        }
        if str_eq(s, "pv9Power") {
            proof { Self::lemma_from_key_of_key(FoxVariables::Pv9Power); }
            return Some(FoxVariables::Pv9Power);
        }
        if str_eq(s, "pv9Volt") {
            proof { Self::lemma_from_key_of_key(FoxVariables::Pv9Volt); }
            return Some(FoxVariables::Pv9Volt);
        }
        if str_eq(s, "PVEnergyTotal") {
            proof { Self::lemma_from_key_of_key(FoxVariables::PVEnergyTotal); }
            return Some(FoxVariables::PVEnergyTotal);
        }
        if str_eq(s, "pvPower") {
            proof { Self::lemma_from_key_of_key(FoxVariables::PvPower); }
            return Some(FoxVariables::PvPower);
        }
        if str_eq(s, "RCurrent") {
            proof { Self::lemma_from_key_of_key(FoxVariables::RCurrent); }
            return Some(FoxVariables::RCurrent);
        }
        if str_eq(s, "ReactivePower") {
            proof { Self::lemma_from_key_of_key(FoxVariables::ReactivePower); }
            return Some(FoxVariables::ReactivePower);
        }
        if str_eq(s, "ResidualEnergy") {
            proof { Self::lemma_from_key_of_key(FoxVariables::ResidualEnergy); }
            return Some(FoxVariables::ResidualEnergy);
        }
        if str_eq(s, "RFreq") {
            proof { Self::lemma_from_key_of_key(FoxVariables::RFreq); }
            return Some(FoxVariables::RFreq);
        }
        if str_eq(s, "RPower") {
            proof { Self::lemma_from_key_of_key(FoxVariables::RPower); }
            return Some(FoxVariables::RPower);
        }
        if str_eq(s, "runningState") {
            proof { Self::lemma_from_key_of_key(FoxVariables::RunningState); }
            return Some(FoxVariables::RunningState);
        }
        if str_eq(s, "RVolt") {
            proof { Self::lemma_from_key_of_key(FoxVariables::RVolt); }
            return Some(FoxVariables::RVolt);
        }
        if str_eq(s, "SCurrent") {
            proof { Self::lemma_from_key_of_key(FoxVariables::SCurrent); }
            return Some(FoxVariables::SCurrent);
        }
        if str_eq(s, "SFreq") {
            proof { Self::lemma_from_key_of_key(FoxVariables::SFreq); }
            return Some(FoxVariables::SFreq);
        }
        if str_eq(s, "SoC") {
            proof { Self::lemma_from_key_of_key(FoxVariables::SoC); }
            return Some(FoxVariables::SoC);
        }
        if str_eq(s, "SOH") {
            proof { Self::lemma_from_key_of_key(FoxVariables::SOH); }
            return Some(FoxVariables::SOH);
        }
        if str_eq(s, "SPower") {
            proof { Self::lemma_from_key_of_key(FoxVariables::SPower); }
            return Some(FoxVariables::SPower);
        }
        if str_eq(s, "SVolt") {
            proof { Self::lemma_from_key_of_key(FoxVariables::SVolt); }
            return Some(FoxVariables::SVolt);
        }
        if str_eq(s, "TCurrent") {
            proof { Self::lemma_from_key_of_key(FoxVariables::TCurrent); }
            return Some(FoxVariables::TCurrent);
        }
        if str_eq(s, "TFreq") {
            proof { Self::lemma_from_key_of_key(FoxVariables::TFreq); }
            return Some(FoxVariables::TFreq);
        }
        if str_eq(s, "todayYield") {
            proof { Self::lemma_from_key_of_key(FoxVariables::TodayYield); }
            return Some(FoxVariables::TodayYield);
        }
        if str_eq(s, "TPower") {
            proof { Self::lemma_from_key_of_key(FoxVariables::TPower); }
            return Some(FoxVariables::TPower);
        }
        if str_eq(s, "TVolt") {
            proof { Self::lemma_from_key_of_key(FoxVariables::TVolt); }
            return Some(FoxVariables::TVolt);
        }
        None
    }
}

impl core::str::FromStr for FoxVariables {
    type Err = ();

    /// Parses the key by which FoxESS Cloud names a variant.
    fn from_str(s: &str) -> (r: Result<Self, Self::Err>)
        ensures
            r == (match FoxVariables::from_key_spec(s@) {
                Some(v) => Ok::<FoxVariables, ()>(v),
                None => Err::<FoxVariables, ()>(()),
            }),
    {
        match FoxVariables::from_key(s) {
            Some(v) => Ok(v),
            None => Err(()),
        }
    }
}

} // verus!
