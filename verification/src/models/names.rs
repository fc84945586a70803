//! The names by which FoxESS Cloud knows the variables, settings, work modes
//! and scheduler parameters, written out as data: each one's key, and the
//! variant that the key reads back as.

use vstd::prelude::*;
use crate::models::fox_settings::id::FoxSettings;
use crate::models::fox_variables::id::FoxVariables;
use crate::models::fox_scheduler::id::FoxWorkModes;
use crate::models::parameter::FoxParameter;

verus! {

/// FoxESS Cloud names each variable by the key that its registry lists, and that key reads back as the variable.
#[verifier::rlimit(50)]
pub proof fn lemma_cloud_variable_names()
    ensures
        FoxVariables::AmbientTemperation.key() == "ambientTemperation"@,
        FoxVariables::from_key_spec("ambientTemperation"@) == Some(FoxVariables::AmbientTemperation),
        FoxVariables::BatChargePower.key() == "batChargePower"@,
        FoxVariables::from_key_spec("batChargePower"@) == Some(FoxVariables::BatChargePower),
        FoxVariables::BatCurrent.key() == "batCurrent"@,
        FoxVariables::from_key_spec("batCurrent"@) == Some(FoxVariables::BatCurrent),
        FoxVariables::BatDischargePower.key() == "batDischargePower"@,
        FoxVariables::from_key_spec("batDischargePower"@) == Some(FoxVariables::BatDischargePower),
        FoxVariables::BatStatus.key() == "batStatus"@,
        FoxVariables::from_key_spec("batStatus"@) == Some(FoxVariables::BatStatus),
        FoxVariables::BatStatusV2.key() == "batStatusV2"@,
        FoxVariables::from_key_spec("batStatusV2"@) == Some(FoxVariables::BatStatusV2),
        FoxVariables::BatTemperature.key() == "batTemperature"@,
        FoxVariables::from_key_spec("batTemperature"@) == Some(FoxVariables::BatTemperature),
        FoxVariables::BatVolt.key() == "batVolt"@,
        FoxVariables::from_key_spec("batVolt"@) == Some(FoxVariables::BatVolt),
        FoxVariables::BoostTemperation.key() == "boostTemperation"@,
        FoxVariables::from_key_spec("boostTemperation"@) == Some(FoxVariables::BoostTemperation),
        FoxVariables::ChargeEnergyToTal.key() == "chargeEnergyToTal"@,
        FoxVariables::from_key_spec("chargeEnergyToTal"@) == Some(FoxVariables::ChargeEnergyToTal),
        FoxVariables::ChargeTemperature.key() == "chargeTemperature"@,
        FoxVariables::from_key_spec("chargeTemperature"@) == Some(FoxVariables::ChargeTemperature),
        FoxVariables::CurrentFault.key() == "currentFault"@,
        FoxVariables::from_key_spec("currentFault"@) == Some(FoxVariables::CurrentFault),
        FoxVariables::CurrentFaultCount.key() == "currentFaultCount"@,
        FoxVariables::from_key_spec("currentFaultCount"@) == Some(FoxVariables::CurrentFaultCount),
        FoxVariables::DischargeEnergyToTal.key() == "dischargeEnergyToTal"@,
        FoxVariables::from_key_spec("dischargeEnergyToTal"@) == Some(FoxVariables::DischargeEnergyToTal),
        FoxVariables::DspTemperature.key() == "dspTemperature"@,
        FoxVariables::from_key_spec("dspTemperature"@) == Some(FoxVariables::DspTemperature),
        FoxVariables::EnergyThroughput.key() == "energyThroughput"@,
        FoxVariables::from_key_spec("energyThroughput"@) == Some(FoxVariables::EnergyThroughput),
        FoxVariables::EpsCurrentR.key() == "epsCurrentR"@,
        FoxVariables::from_key_spec("epsCurrentR"@) == Some(FoxVariables::EpsCurrentR),
        FoxVariables::EpsCurrentS.key() == "epsCurrentS"@,
        FoxVariables::from_key_spec("epsCurrentS"@) == Some(FoxVariables::EpsCurrentS),
        FoxVariables::EpsCurrentT.key() == "epsCurrentT"@,
        FoxVariables::from_key_spec("epsCurrentT"@) == Some(FoxVariables::EpsCurrentT),
        FoxVariables::EpsPower.key() == "epsPower"@,
        FoxVariables::from_key_spec("epsPower"@) == Some(FoxVariables::EpsPower),
        FoxVariables::EpsPowerR.key() == "epsPowerR"@,
        FoxVariables::from_key_spec("epsPowerR"@) == Some(FoxVariables::EpsPowerR),
        FoxVariables::EpsPowerS.key() == "epsPowerS"@,
        FoxVariables::from_key_spec("epsPowerS"@) == Some(FoxVariables::EpsPowerS),
        FoxVariables::EpsPowerT.key() == "epsPowerT"@,
        FoxVariables::from_key_spec("epsPowerT"@) == Some(FoxVariables::EpsPowerT),
        FoxVariables::EpsVoltR.key() == "epsVoltR"@,
        FoxVariables::from_key_spec("epsVoltR"@) == Some(FoxVariables::EpsVoltR),
        FoxVariables::EpsVoltS.key() == "epsVoltS"@,
        FoxVariables::from_key_spec("epsVoltS"@) == Some(FoxVariables::EpsVoltS),
        FoxVariables::EpsVoltT.key() == "epsVoltT"@,
        FoxVariables::from_key_spec("epsVoltT"@) == Some(FoxVariables::EpsVoltT),
        FoxVariables::Feedin.key() == "feedin"@,
        FoxVariables::from_key_spec("feedin"@) == Some(FoxVariables::Feedin),
        FoxVariables::Feedin2.key() == "feedin2"@,
        FoxVariables::from_key_spec("feedin2"@) == Some(FoxVariables::Feedin2),
        FoxVariables::FeedinPower.key() == "feedinPower"@,
        FoxVariables::from_key_spec("feedinPower"@) == Some(FoxVariables::FeedinPower),
        FoxVariables::Generation.key() == "generation"@,
        FoxVariables::from_key_spec("generation"@) == Some(FoxVariables::Generation),
        FoxVariables::GenerationPower.key() == "generationPower"@,
        FoxVariables::from_key_spec("generationPower"@) == Some(FoxVariables::GenerationPower),
        FoxVariables::GridConsumption.key() == "gridConsumption"@,
        FoxVariables::from_key_spec("gridConsumption"@) == Some(FoxVariables::GridConsumption),
        FoxVariables::GridConsumption2.key() == "gridConsumption2"@,
        FoxVariables::from_key_spec("gridConsumption2"@) == Some(FoxVariables::GridConsumption2),
        FoxVariables::GridConsumptionPower.key() == "gridConsumptionPower"@,
        FoxVariables::from_key_spec("gridConsumptionPower"@) == Some(FoxVariables::GridConsumptionPower),
        FoxVariables::InvBatCurrent.key() == "invBatCurrent"@,
        FoxVariables::from_key_spec("invBatCurrent"@) == Some(FoxVariables::InvBatCurrent),
        FoxVariables::InvBatPower.key() == "invBatPower"@,
        FoxVariables::from_key_spec("invBatPower"@) == Some(FoxVariables::InvBatPower),
        FoxVariables::InvBatVolt.key() == "invBatVolt"@,
        FoxVariables::from_key_spec("invBatVolt"@) == Some(FoxVariables::InvBatVolt),
        FoxVariables::InvTemperation.key() == "invTemperation"@,
        FoxVariables::from_key_spec("invTemperation"@) == Some(FoxVariables::InvTemperation),
        FoxVariables::Loads.key() == "loads"@,
        FoxVariables::from_key_spec("loads"@) == Some(FoxVariables::Loads),
        FoxVariables::LoadsPower.key() == "loadsPower"@,
        FoxVariables::from_key_spec("loadsPower"@) == Some(FoxVariables::LoadsPower),
        FoxVariables::LoadsPowerR.key() == "loadsPowerR"@,
        FoxVariables::from_key_spec("loadsPowerR"@) == Some(FoxVariables::LoadsPowerR),
        FoxVariables::LoadsPowerS.key() == "loadsPowerS"@,
        FoxVariables::from_key_spec("loadsPowerS"@) == Some(FoxVariables::LoadsPowerS),
        FoxVariables::LoadsPowerT.key() == "loadsPowerT"@,
        FoxVariables::from_key_spec("loadsPowerT"@) == Some(FoxVariables::LoadsPowerT),
        FoxVariables::MaxChargeCurrent.key() == "maxChargeCurrent"@,
        FoxVariables::from_key_spec("maxChargeCurrent"@) == Some(FoxVariables::MaxChargeCurrent),
        FoxVariables::MaxDischargeCurrent.key() == "maxDischargeCurrent"@,
        FoxVariables::from_key_spec("maxDischargeCurrent"@) == Some(FoxVariables::MaxDischargeCurrent),
        FoxVariables::MeterPower.key() == "meterPower"@,
        FoxVariables::from_key_spec("meterPower"@) == Some(FoxVariables::MeterPower),
        FoxVariables::MeterPower2.key() == "meterPower2"@,
        FoxVariables::from_key_spec("meterPower2"@) == Some(FoxVariables::MeterPower2),
        FoxVariables::MeterPowerR.key() == "meterPowerR"@,
        FoxVariables::from_key_spec("meterPowerR"@) == Some(FoxVariables::MeterPowerR),
        FoxVariables::MeterPowerS.key() == "meterPowerS"@,
        FoxVariables::from_key_spec("meterPowerS"@) == Some(FoxVariables::MeterPowerS),
        FoxVariables::MeterPowerT.key() == "meterPowerT"@,
        FoxVariables::from_key_spec("meterPowerT"@) == Some(FoxVariables::MeterPowerT),
        FoxVariables::PowerFactor.key() == "PowerFactor"@,
        FoxVariables::from_key_spec("PowerFactor"@) == Some(FoxVariables::PowerFactor),
        FoxVariables::Pv10Current.key() == "pv10Current"@,
        FoxVariables::from_key_spec("pv10Current"@) == Some(FoxVariables::Pv10Current),
        FoxVariables::Pv10Power.key() == "pv10Power"@,
        FoxVariables::from_key_spec("pv10Power"@) == Some(FoxVariables::Pv10Power),
        FoxVariables::Pv10Volt.key() == "pv10Volt"@,
        FoxVariables::from_key_spec("pv10Volt"@) == Some(FoxVariables::Pv10Volt),
        FoxVariables::Pv11Current.key() == "pv11Current"@,
        FoxVariables::from_key_spec("pv11Current"@) == Some(FoxVariables::Pv11Current),
        FoxVariables::Pv11Power.key() == "pv11Power"@,
        FoxVariables::from_key_spec("pv11Power"@) == Some(FoxVariables::Pv11Power),
        FoxVariables::Pv11Volt.key() == "pv11Volt"@,
        FoxVariables::from_key_spec("pv11Volt"@) == Some(FoxVariables::Pv11Volt),
        FoxVariables::Pv12Current.key() == "pv12Current"@,
        FoxVariables::from_key_spec("pv12Current"@) == Some(FoxVariables::Pv12Current),
        FoxVariables::Pv12Power.key() == "pv12Power"@,
        FoxVariables::from_key_spec("pv12Power"@) == Some(FoxVariables::Pv12Power),
        FoxVariables::Pv12Volt.key() == "pv12Volt"@,
        FoxVariables::from_key_spec("pv12Volt"@) == Some(FoxVariables::Pv12Volt),
        FoxVariables::Pv13Current.key() == "pv13Current"@,
        FoxVariables::from_key_spec("pv13Current"@) == Some(FoxVariables::Pv13Current),
        FoxVariables::Pv13Power.key() == "pv13Power"@,
        FoxVariables::from_key_spec("pv13Power"@) == Some(FoxVariables::Pv13Power),
        FoxVariables::Pv13Volt.key() == "pv13Volt"@,
        FoxVariables::from_key_spec("pv13Volt"@) == Some(FoxVariables::Pv13Volt),
        FoxVariables::Pv14Current.key() == "pv14Current"@,
        FoxVariables::from_key_spec("pv14Current"@) == Some(FoxVariables::Pv14Current),
        FoxVariables::Pv14Power.key() == "pv14Power"@,
        FoxVariables::from_key_spec("pv14Power"@) == Some(FoxVariables::Pv14Power),
        FoxVariables::Pv14Volt.key() == "pv14Volt"@,
        FoxVariables::from_key_spec("pv14Volt"@) == Some(FoxVariables::Pv14Volt),
        FoxVariables::Pv15Current.key() == "pv15Current"@,
        FoxVariables::from_key_spec("pv15Current"@) == Some(FoxVariables::Pv15Current),
        FoxVariables::Pv15Power.key() == "pv15Power"@,
        FoxVariables::from_key_spec("pv15Power"@) == Some(FoxVariables::Pv15Power),
        FoxVariables::Pv15Volt.key() == "pv15Volt"@,
        FoxVariables::from_key_spec("pv15Volt"@) == Some(FoxVariables::Pv15Volt),
        FoxVariables::Pv16Current.key() == "pv16Current"@,
        FoxVariables::from_key_spec("pv16Current"@) == Some(FoxVariables::Pv16Current),
        FoxVariables::Pv16Power.key() == "pv16Power"@,
        FoxVariables::from_key_spec("pv16Power"@) == Some(FoxVariables::Pv16Power),
        FoxVariables::Pv16Volt.key() == "pv16Volt"@,
        FoxVariables::from_key_spec("pv16Volt"@) == Some(FoxVariables::Pv16Volt),
        FoxVariables::Pv17Current.key() == "pv17Current"@,
        FoxVariables::from_key_spec("pv17Current"@) == Some(FoxVariables::Pv17Current),
        FoxVariables::Pv17Power.key() == "pv17Power"@,
        FoxVariables::from_key_spec("pv17Power"@) == Some(FoxVariables::Pv17Power),
        FoxVariables::Pv17Volt.key() == "pv17Volt"@,
        FoxVariables::from_key_spec("pv17Volt"@) == Some(FoxVariables::Pv17Volt),
        FoxVariables::Pv18Current.key() == "pv18Current"@,
        FoxVariables::from_key_spec("pv18Current"@) == Some(FoxVariables::Pv18Current),
        FoxVariables::Pv18Power.key() == "pv18Power"@,
        FoxVariables::from_key_spec("pv18Power"@) == Some(FoxVariables::Pv18Power),
        FoxVariables::Pv18Volt.key() == "pv18Volt"@,
        FoxVariables::from_key_spec("pv18Volt"@) == Some(FoxVariables::Pv18Volt),
        FoxVariables::Pv19Current.key() == "pv19Current"@,
        FoxVariables::from_key_spec("pv19Current"@) == Some(FoxVariables::Pv19Current),
        FoxVariables::Pv19Power.key() == "pv19Power"@,
        FoxVariables::from_key_spec("pv19Power"@) == Some(FoxVariables::Pv19Power),
        FoxVariables::Pv19Volt.key() == "pv19Volt"@,
        FoxVariables::from_key_spec("pv19Volt"@) == Some(FoxVariables::Pv19Volt),
        FoxVariables::Pv1Current.key() == "pv1Current"@,
        FoxVariables::from_key_spec("pv1Current"@) == Some(FoxVariables::Pv1Current),
        FoxVariables::Pv1Power.key() == "pv1Power"@,
        FoxVariables::from_key_spec("pv1Power"@) == Some(FoxVariables::Pv1Power),
        FoxVariables::Pv1Volt.key() == "pv1Volt"@,
        FoxVariables::from_key_spec("pv1Volt"@) == Some(FoxVariables::Pv1Volt),
        FoxVariables::Pv20Current.key() == "pv20Current"@,
        FoxVariables::from_key_spec("pv20Current"@) == Some(FoxVariables::Pv20Current),
        FoxVariables::Pv20Power.key() == "pv20Power"@,
        FoxVariables::from_key_spec("pv20Power"@) == Some(FoxVariables::Pv20Power),
        FoxVariables::Pv20Volt.key() == "pv20Volt"@,
        FoxVariables::from_key_spec("pv20Volt"@) == Some(FoxVariables::Pv20Volt),
        FoxVariables::Pv21Current.key() == "pv21Current"@,
        FoxVariables::from_key_spec("pv21Current"@) == Some(FoxVariables::Pv21Current),
        FoxVariables::Pv21Power.key() == "pv21Power"@,
        FoxVariables::from_key_spec("pv21Power"@) == Some(FoxVariables::Pv21Power),
        FoxVariables::Pv21Volt.key() == "pv21Volt"@,
        FoxVariables::from_key_spec("pv21Volt"@) == Some(FoxVariables::Pv21Volt),
        FoxVariables::Pv22Current.key() == "pv22Current"@,
        FoxVariables::from_key_spec("pv22Current"@) == Some(FoxVariables::Pv22Current),
        FoxVariables::Pv22Power.key() == "pv22Power"@,
        FoxVariables::from_key_spec("pv22Power"@) == Some(FoxVariables::Pv22Power),
        FoxVariables::Pv22Volt.key() == "pv22Volt"@,
        FoxVariables::from_key_spec("pv22Volt"@) == Some(FoxVariables::Pv22Volt),
        FoxVariables::Pv23Current.key() == "pv23Current"@,
        FoxVariables::from_key_spec("pv23Current"@) == Some(FoxVariables::Pv23Current),
        FoxVariables::Pv23Power.key() == "pv23Power"@,
        FoxVariables::from_key_spec("pv23Power"@) == Some(FoxVariables::Pv23Power),
        FoxVariables::Pv23Volt.key() == "pv23Volt"@,
        FoxVariables::from_key_spec("pv23Volt"@) == Some(FoxVariables::Pv23Volt),
        FoxVariables::Pv24Current.key() == "pv24Current"@,
        FoxVariables::from_key_spec("pv24Current"@) == Some(FoxVariables::Pv24Current),
        FoxVariables::Pv24Power.key() == "pv24Power"@,
        FoxVariables::from_key_spec("pv24Power"@) == Some(FoxVariables::Pv24Power),
        FoxVariables::Pv24Volt.key() == "pv24Volt"@,
        FoxVariables::from_key_spec("pv24Volt"@) == Some(FoxVariables::Pv24Volt),
        FoxVariables::Pv2Current.key() == "pv2Current"@,
        FoxVariables::from_key_spec("pv2Current"@) == Some(FoxVariables::Pv2Current),
        FoxVariables::Pv2Power.key() == "pv2Power"@,
        FoxVariables::from_key_spec("pv2Power"@) == Some(FoxVariables::Pv2Power),
        FoxVariables::Pv2Volt.key() == "pv2Volt"@,
        FoxVariables::from_key_spec("pv2Volt"@) == Some(FoxVariables::Pv2Volt),
        FoxVariables::Pv3Current.key() == "pv3Current"@,
        FoxVariables::from_key_spec("pv3Current"@) == Some(FoxVariables::Pv3Current),
        FoxVariables::Pv3Power.key() == "pv3Power"@,
        FoxVariables::from_key_spec("pv3Power"@) == Some(FoxVariables::Pv3Power),
        FoxVariables::Pv3Volt.key() == "pv3Volt"@,
        FoxVariables::from_key_spec("pv3Volt"@) == Some(FoxVariables::Pv3Volt),
        FoxVariables::Pv4Current.key() == "pv4Current"@,
        FoxVariables::from_key_spec("pv4Current"@) == Some(FoxVariables::Pv4Current),
        FoxVariables::Pv4Power.key() == "pv4Power"@,
        FoxVariables::from_key_spec("pv4Power"@) == Some(FoxVariables::Pv4Power),
        FoxVariables::Pv4Volt.key() == "pv4Volt"@,
        FoxVariables::from_key_spec("pv4Volt"@) == Some(FoxVariables::Pv4Volt),
        FoxVariables::Pv5Current.key() == "pv5Current"@,
        FoxVariables::from_key_spec("pv5Current"@) == Some(FoxVariables::Pv5Current),
        FoxVariables::Pv5Power.key() == "pv5Power"@,
        FoxVariables::from_key_spec("pv5Power"@) == Some(FoxVariables::Pv5Power),
        FoxVariables::Pv5Volt.key() == "pv5Volt"@,
        FoxVariables::from_key_spec("pv5Volt"@) == Some(FoxVariables::Pv5Volt),
        FoxVariables::Pv6Current.key() == "pv6Current"@,
        FoxVariables::from_key_spec("pv6Current"@) == Some(FoxVariables::Pv6Current),
        FoxVariables::Pv6Power.key() == "pv6Power"@,
        FoxVariables::from_key_spec("pv6Power"@) == Some(FoxVariables::Pv6Power),
        FoxVariables::Pv6Volt.key() == "pv6Volt"@,
        FoxVariables::from_key_spec("pv6Volt"@) == Some(FoxVariables::Pv6Volt),
        FoxVariables::Pv7Current.key() == "pv7Current"@,
        FoxVariables::from_key_spec("pv7Current"@) == Some(FoxVariables::Pv7Current),
        FoxVariables::Pv7Power.key() == "pv7Power"@,
        FoxVariables::from_key_spec("pv7Power"@) == Some(FoxVariables::Pv7Power),
        FoxVariables::Pv7Volt.key() == "pv7Volt"@,
        FoxVariables::from_key_spec("pv7Volt"@) == Some(FoxVariables::Pv7Volt),
        FoxVariables::Pv8Current.key() == "pv8Current"@,
        FoxVariables::from_key_spec("pv8Current"@) == Some(FoxVariables::Pv8Current),
        FoxVariables::Pv8Power.key() == "pv8Power"@,
        FoxVariables::from_key_spec("pv8Power"@) == Some(FoxVariables::Pv8Power),
        FoxVariables::Pv8Volt.key() == "pv8Volt"@,
        FoxVariables::from_key_spec("pv8Volt"@) == Some(FoxVariables::Pv8Volt),
        FoxVariables::Pv9Current.key() == "pv9Current"@,
        FoxVariables::from_key_spec("pv9Current"@) == Some(FoxVariables::Pv9Current),
        FoxVariables::Pv9Power.key() == "pv9Power"@,
        FoxVariables::from_key_spec("pv9Power"@) == Some(FoxVariables::Pv9Power),
        FoxVariables::Pv9Volt.key() == "pv9Volt"@,
        FoxVariables::from_key_spec("pv9Volt"@) == Some(FoxVariables::Pv9Volt),
        FoxVariables::PVEnergyTotal.key() == "PVEnergyTotal"@,
        FoxVariables::from_key_spec("PVEnergyTotal"@) == Some(FoxVariables::PVEnergyTotal),
        FoxVariables::PvPower.key() == "pvPower"@,
        FoxVariables::from_key_spec("pvPower"@) == Some(FoxVariables::PvPower),
        FoxVariables::RCurrent.key() == "RCurrent"@,
        FoxVariables::from_key_spec("RCurrent"@) == Some(FoxVariables::RCurrent),
        FoxVariables::ReactivePower.key() == "ReactivePower"@,
        FoxVariables::from_key_spec("ReactivePower"@) == Some(FoxVariables::ReactivePower),
        FoxVariables::ResidualEnergy.key() == "ResidualEnergy"@,
        FoxVariables::from_key_spec("ResidualEnergy"@) == Some(FoxVariables::ResidualEnergy),
        FoxVariables::RFreq.key() == "RFreq"@,
        FoxVariables::from_key_spec("RFreq"@) == Some(FoxVariables::RFreq),
        FoxVariables::RPower.key() == "RPower"@,
        FoxVariables::from_key_spec("RPower"@) == Some(FoxVariables::RPower),
        FoxVariables::RunningState.key() == "runningState"@,
        FoxVariables::from_key_spec("runningState"@) == Some(FoxVariables::RunningState),
        FoxVariables::RVolt.key() == "RVolt"@,
        FoxVariables::from_key_spec("RVolt"@) == Some(FoxVariables::RVolt),
        FoxVariables::SCurrent.key() == "SCurrent"@,
        FoxVariables::from_key_spec("SCurrent"@) == Some(FoxVariables::SCurrent),
        FoxVariables::SFreq.key() == "SFreq"@,
        FoxVariables::from_key_spec("SFreq"@) == Some(FoxVariables::SFreq),
        FoxVariables::SoC.key() == "SoC"@,
        FoxVariables::from_key_spec("SoC"@) == Some(FoxVariables::SoC),
        FoxVariables::SOH.key() == "SOH"@,
        FoxVariables::from_key_spec("SOH"@) == Some(FoxVariables::SOH),
        FoxVariables::SPower.key() == "SPower"@,
        FoxVariables::from_key_spec("SPower"@) == Some(FoxVariables::SPower),
        FoxVariables::SVolt.key() == "SVolt"@,
        FoxVariables::from_key_spec("SVolt"@) == Some(FoxVariables::SVolt),
        FoxVariables::TCurrent.key() == "TCurrent"@,
        FoxVariables::from_key_spec("TCurrent"@) == Some(FoxVariables::TCurrent),
        FoxVariables::TFreq.key() == "TFreq"@,
        FoxVariables::from_key_spec("TFreq"@) == Some(FoxVariables::TFreq),
        FoxVariables::TodayYield.key() == "todayYield"@,
        FoxVariables::from_key_spec("todayYield"@) == Some(FoxVariables::TodayYield),
        FoxVariables::TPower.key() == "TPower"@,
        FoxVariables::from_key_spec("TPower"@) == Some(FoxVariables::TPower),
        FoxVariables::TVolt.key() == "TVolt"@,
        FoxVariables::from_key_spec("TVolt"@) == Some(FoxVariables::TVolt),
{
    FoxVariables::lemma_from_key_of_key(FoxVariables::AmbientTemperation);
    FoxVariables::lemma_from_key_of_key(FoxVariables::BatChargePower);
    FoxVariables::lemma_from_key_of_key(FoxVariables::BatCurrent);
    FoxVariables::lemma_from_key_of_key(FoxVariables::BatDischargePower);
    FoxVariables::lemma_from_key_of_key(FoxVariables::BatStatus);
    FoxVariables::lemma_from_key_of_key(FoxVariables::BatStatusV2);
    FoxVariables::lemma_from_key_of_key(FoxVariables::BatTemperature);
    FoxVariables::lemma_from_key_of_key(FoxVariables::BatVolt);
    FoxVariables::lemma_from_key_of_key(FoxVariables::BoostTemperation);
    FoxVariables::lemma_from_key_of_key(FoxVariables::ChargeEnergyToTal);
    FoxVariables::lemma_from_key_of_key(FoxVariables::ChargeTemperature);
    FoxVariables::lemma_from_key_of_key(FoxVariables::CurrentFault);
    FoxVariables::lemma_from_key_of_key(FoxVariables::CurrentFaultCount);
    FoxVariables::lemma_from_key_of_key(FoxVariables::DischargeEnergyToTal);
    FoxVariables::lemma_from_key_of_key(FoxVariables::DspTemperature);
    FoxVariables::lemma_from_key_of_key(FoxVariables::EnergyThroughput);
    FoxVariables::lemma_from_key_of_key(FoxVariables::EpsCurrentR);
    FoxVariables::lemma_from_key_of_key(FoxVariables::EpsCurrentS);
    FoxVariables::lemma_from_key_of_key(FoxVariables::EpsCurrentT);
    FoxVariables::lemma_from_key_of_key(FoxVariables::EpsPower);
    FoxVariables::lemma_from_key_of_key(FoxVariables::EpsPowerR);
    FoxVariables::lemma_from_key_of_key(FoxVariables::EpsPowerS);
    FoxVariables::lemma_from_key_of_key(FoxVariables::EpsPowerT);
    FoxVariables::lemma_from_key_of_key(FoxVariables::EpsVoltR);
    FoxVariables::lemma_from_key_of_key(FoxVariables::EpsVoltS);
    FoxVariables::lemma_from_key_of_key(FoxVariables::EpsVoltT);
    FoxVariables::lemma_from_key_of_key(FoxVariables::Feedin);
    FoxVariables::lemma_from_key_of_key(FoxVariables::Feedin2);
    FoxVariables::lemma_from_key_of_key(FoxVariables::FeedinPower);
    FoxVariables::lemma_from_key_of_key(FoxVariables::Generation);
    FoxVariables::lemma_from_key_of_key(FoxVariables::GenerationPower);
    FoxVariables::lemma_from_key_of_key(FoxVariables::GridConsumption);
    FoxVariables::lemma_from_key_of_key(FoxVariables::GridConsumption2);
    FoxVariables::lemma_from_key_of_key(FoxVariables::GridConsumptionPower);
    FoxVariables::lemma_from_key_of_key(FoxVariables::InvBatCurrent);
    FoxVariables::lemma_from_key_of_key(FoxVariables::InvBatPower);
    FoxVariables::lemma_from_key_of_key(FoxVariables::InvBatVolt);
    FoxVariables::lemma_from_key_of_key(FoxVariables::InvTemperation);
    FoxVariables::lemma_from_key_of_key(FoxVariables::Loads);
    FoxVariables::lemma_from_key_of_key(FoxVariables::LoadsPower);
    FoxVariables::lemma_from_key_of_key(FoxVariables::LoadsPowerR);
    FoxVariables::lemma_from_key_of_key(FoxVariables::LoadsPowerS);
    FoxVariables::lemma_from_key_of_key(FoxVariables::LoadsPowerT);
    FoxVariables::lemma_from_key_of_key(FoxVariables::MaxChargeCurrent);
    FoxVariables::lemma_from_key_of_key(FoxVariables::MaxDischargeCurrent);
    FoxVariables::lemma_from_key_of_key(FoxVariables::MeterPower);
    FoxVariables::lemma_from_key_of_key(FoxVariables::MeterPower2);
    FoxVariables::lemma_from_key_of_key(FoxVariables::MeterPowerR);
    FoxVariables::lemma_from_key_of_key(FoxVariables::MeterPowerS);
    FoxVariables::lemma_from_key_of_key(FoxVariables::MeterPowerT);
    FoxVariables::lemma_from_key_of_key(FoxVariables::PowerFactor);
    FoxVariables::lemma_from_key_of_key(FoxVariables::Pv10Current);
    FoxVariables::lemma_from_key_of_key(FoxVariables::Pv10Power);
    FoxVariables::lemma_from_key_of_key(FoxVariables::Pv10Volt);
    FoxVariables::lemma_from_key_of_key(FoxVariables::Pv11Current);
    FoxVariables::lemma_from_key_of_key(FoxVariables::Pv11Power);
    FoxVariables::lemma_from_key_of_key(FoxVariables::Pv11Volt);
    FoxVariables::lemma_from_key_of_key(FoxVariables::Pv12Current);
    FoxVariables::lemma_from_key_of_key(FoxVariables::Pv12Power);
    FoxVariables::lemma_from_key_of_key(FoxVariables::Pv12Volt);
    FoxVariables::lemma_from_key_of_key(FoxVariables::Pv13Current);
    FoxVariables::lemma_from_key_of_key(FoxVariables::Pv13Power);
    FoxVariables::lemma_from_key_of_key(FoxVariables::Pv13Volt);
    FoxVariables::lemma_from_key_of_key(FoxVariables::Pv14Current);
    FoxVariables::lemma_from_key_of_key(FoxVariables::Pv14Power);
    FoxVariables::lemma_from_key_of_key(FoxVariables::Pv14Volt);
    FoxVariables::lemma_from_key_of_key(FoxVariables::Pv15Current);
    FoxVariables::lemma_from_key_of_key(FoxVariables::Pv15Power);
    FoxVariables::lemma_from_key_of_key(FoxVariables::Pv15Volt);
    FoxVariables::lemma_from_key_of_key(FoxVariables::Pv16Current);
    FoxVariables::lemma_from_key_of_key(FoxVariables::Pv16Power);
    FoxVariables::lemma_from_key_of_key(FoxVariables::Pv16Volt);
    FoxVariables::lemma_from_key_of_key(FoxVariables::Pv17Current);
    FoxVariables::lemma_from_key_of_key(FoxVariables::Pv17Power);
    FoxVariables::lemma_from_key_of_key(FoxVariables::Pv17Volt);
    FoxVariables::lemma_from_key_of_key(FoxVariables::Pv18Current);
    FoxVariables::lemma_from_key_of_key(FoxVariables::Pv18Power);
    FoxVariables::lemma_from_key_of_key(FoxVariables::Pv18Volt);
    FoxVariables::lemma_from_key_of_key(FoxVariables::Pv19Current);
    FoxVariables::lemma_from_key_of_key(FoxVariables::Pv19Power);
    FoxVariables::lemma_from_key_of_key(FoxVariables::Pv19Volt);
    FoxVariables::lemma_from_key_of_key(FoxVariables::Pv1Current);
    FoxVariables::lemma_from_key_of_key(FoxVariables::Pv1Power);
    FoxVariables::lemma_from_key_of_key(FoxVariables::Pv1Volt);
    FoxVariables::lemma_from_key_of_key(FoxVariables::Pv20Current);
    FoxVariables::lemma_from_key_of_key(FoxVariables::Pv20Power);
    FoxVariables::lemma_from_key_of_key(FoxVariables::Pv20Volt);
    FoxVariables::lemma_from_key_of_key(FoxVariables::Pv21Current);
    FoxVariables::lemma_from_key_of_key(FoxVariables::Pv21Power);
    FoxVariables::lemma_from_key_of_key(FoxVariables::Pv21Volt);
    FoxVariables::lemma_from_key_of_key(FoxVariables::Pv22Current);
    FoxVariables::lemma_from_key_of_key(FoxVariables::Pv22Power);
    FoxVariables::lemma_from_key_of_key(FoxVariables::Pv22Volt);
    FoxVariables::lemma_from_key_of_key(FoxVariables::Pv23Current);
    FoxVariables::lemma_from_key_of_key(FoxVariables::Pv23Power);
    FoxVariables::lemma_from_key_of_key(FoxVariables::Pv23Volt);
    FoxVariables::lemma_from_key_of_key(FoxVariables::Pv24Current);
    FoxVariables::lemma_from_key_of_key(FoxVariables::Pv24Power);
    FoxVariables::lemma_from_key_of_key(FoxVariables::Pv24Volt);
    FoxVariables::lemma_from_key_of_key(FoxVariables::Pv2Current);
    FoxVariables::lemma_from_key_of_key(FoxVariables::Pv2Power);
    FoxVariables::lemma_from_key_of_key(FoxVariables::Pv2Volt);
    FoxVariables::lemma_from_key_of_key(FoxVariables::Pv3Current);
    FoxVariables::lemma_from_key_of_key(FoxVariables::Pv3Power);
    FoxVariables::lemma_from_key_of_key(FoxVariables::Pv3Volt);
    FoxVariables::lemma_from_key_of_key(FoxVariables::Pv4Current);
    FoxVariables::lemma_from_key_of_key(FoxVariables::Pv4Power);
    FoxVariables::lemma_from_key_of_key(FoxVariables::Pv4Volt);
    FoxVariables::lemma_from_key_of_key(FoxVariables::Pv5Current);
    FoxVariables::lemma_from_key_of_key(FoxVariables::Pv5Power);
    FoxVariables::lemma_from_key_of_key(FoxVariables::Pv5Volt);
    FoxVariables::lemma_from_key_of_key(FoxVariables::Pv6Current);
    FoxVariables::lemma_from_key_of_key(FoxVariables::Pv6Power);
    FoxVariables::lemma_from_key_of_key(FoxVariables::Pv6Volt);
    FoxVariables::lemma_from_key_of_key(FoxVariables::Pv7Current);
    FoxVariables::lemma_from_key_of_key(FoxVariables::Pv7Power);
    FoxVariables::lemma_from_key_of_key(FoxVariables::Pv7Volt);
    FoxVariables::lemma_from_key_of_key(FoxVariables::Pv8Current);
    FoxVariables::lemma_from_key_of_key(FoxVariables::Pv8Power);
    FoxVariables::lemma_from_key_of_key(FoxVariables::Pv8Volt);
    FoxVariables::lemma_from_key_of_key(FoxVariables::Pv9Current);
    FoxVariables::lemma_from_key_of_key(FoxVariables::Pv9Power);
    FoxVariables::lemma_from_key_of_key(FoxVariables::Pv9Volt);
    FoxVariables::lemma_from_key_of_key(FoxVariables::PVEnergyTotal);
    FoxVariables::lemma_from_key_of_key(FoxVariables::PvPower);
    FoxVariables::lemma_from_key_of_key(FoxVariables::RCurrent);
    FoxVariables::lemma_from_key_of_key(FoxVariables::ReactivePower);
    FoxVariables::lemma_from_key_of_key(FoxVariables::ResidualEnergy);
    FoxVariables::lemma_from_key_of_key(FoxVariables::RFreq);
    FoxVariables::lemma_from_key_of_key(FoxVariables::RPower);
    FoxVariables::lemma_from_key_of_key(FoxVariables::RunningState);
    FoxVariables::lemma_from_key_of_key(FoxVariables::RVolt);
    FoxVariables::lemma_from_key_of_key(FoxVariables::SCurrent);
    FoxVariables::lemma_from_key_of_key(FoxVariables::SFreq);
    FoxVariables::lemma_from_key_of_key(FoxVariables::SoC);
    FoxVariables::lemma_from_key_of_key(FoxVariables::SOH);
    FoxVariables::lemma_from_key_of_key(FoxVariables::SPower);
    FoxVariables::lemma_from_key_of_key(FoxVariables::SVolt);
    FoxVariables::lemma_from_key_of_key(FoxVariables::TCurrent);
    FoxVariables::lemma_from_key_of_key(FoxVariables::TFreq);
    FoxVariables::lemma_from_key_of_key(FoxVariables::TodayYield);
    FoxVariables::lemma_from_key_of_key(FoxVariables::TPower);
    FoxVariables::lemma_from_key_of_key(FoxVariables::TVolt);
}

/// FoxESS Cloud names each setting by the key that its registry lists, and that key reads back as the setting.
#[verifier::rlimit(50)]
pub proof fn lemma_cloud_setting_names()
    ensures
        FoxSettings::ActivePowerLimit.key() == "ActivePowerLimit"@,
        FoxSettings::from_key_spec("ActivePowerLimit"@) == Some(FoxSettings::ActivePowerLimit),
        FoxSettings::ECOMode.key() == "ECOMode"@,
        FoxSettings::from_key_spec("ECOMode"@) == Some(FoxSettings::ECOMode),
        FoxSettings::EpsOutPut.key() == "EpsOutPut"@,
        FoxSettings::from_key_spec("EpsOutPut"@) == Some(FoxSettings::EpsOutPut),
        FoxSettings::ExportLimit.key() == "ExportLimit"@,
        FoxSettings::from_key_spec("ExportLimit"@) == Some(FoxSettings::ExportLimit),
        FoxSettings::ExportLimitPower.key() == "ExportLimitPower"@,
        FoxSettings::from_key_spec("ExportLimitPower"@) == Some(FoxSettings::ExportLimitPower),
        FoxSettings::GridCode.key() == "GridCode"@,
        FoxSettings::from_key_spec("GridCode"@) == Some(FoxSettings::GridCode),
        FoxSettings::GroundProtection.key() == "GroundProtection"@,
        FoxSettings::from_key_spec("GroundProtection"@) == Some(FoxSettings::GroundProtection),
        FoxSettings::MaxSetChargeCurrent.key() == "MaxSetChargeCurrent"@,
        FoxSettings::from_key_spec("MaxSetChargeCurrent"@) == Some(FoxSettings::MaxSetChargeCurrent),
        FoxSettings::MaxSetDischargeCurrent.key() == "MaxSetDischargeCurrent"@,
        FoxSettings::from_key_spec("MaxSetDischargeCurrent"@) == Some(FoxSettings::MaxSetDischargeCurrent),
        FoxSettings::MaxSoc.key() == "MaxSoc"@,
        FoxSettings::from_key_spec("MaxSoc"@) == Some(FoxSettings::MaxSoc),
        FoxSettings::Meter1Enable.key() == "Meter1Enable"@,
        FoxSettings::from_key_spec("Meter1Enable"@) == Some(FoxSettings::Meter1Enable),
        FoxSettings::Meter2Enable.key() == "Meter2Enable"@,
        FoxSettings::from_key_spec("Meter2Enable"@) == Some(FoxSettings::Meter2Enable),
        FoxSettings::MinSoc.key() == "MinSoc"@,
        FoxSettings::from_key_spec("MinSoc"@) == Some(FoxSettings::MinSoc),
        FoxSettings::MinSocOnGrid.key() == "MinSocOnGrid"@,
        FoxSettings::from_key_spec("MinSocOnGrid"@) == Some(FoxSettings::MinSocOnGrid),
        FoxSettings::SysSwitch.key() == "SysSwitch"@,
        FoxSettings::from_key_spec("SysSwitch"@) == Some(FoxSettings::SysSwitch),
        FoxSettings::WorkMode.key() == "WorkMode"@,
        FoxSettings::from_key_spec("WorkMode"@) == Some(FoxSettings::WorkMode),
{
    FoxSettings::lemma_from_key_of_key(FoxSettings::ActivePowerLimit);
    FoxSettings::lemma_from_key_of_key(FoxSettings::ECOMode);
    FoxSettings::lemma_from_key_of_key(FoxSettings::EpsOutPut);
    FoxSettings::lemma_from_key_of_key(FoxSettings::ExportLimit);
    FoxSettings::lemma_from_key_of_key(FoxSettings::ExportLimitPower);
    FoxSettings::lemma_from_key_of_key(FoxSettings::GridCode);
    FoxSettings::lemma_from_key_of_key(FoxSettings::GroundProtection);
    FoxSettings::lemma_from_key_of_key(FoxSettings::MaxSetChargeCurrent);
    FoxSettings::lemma_from_key_of_key(FoxSettings::MaxSetDischargeCurrent);
    FoxSettings::lemma_from_key_of_key(FoxSettings::MaxSoc);
    FoxSettings::lemma_from_key_of_key(FoxSettings::Meter1Enable);
    FoxSettings::lemma_from_key_of_key(FoxSettings::Meter2Enable);
    FoxSettings::lemma_from_key_of_key(FoxSettings::MinSoc);
    FoxSettings::lemma_from_key_of_key(FoxSettings::MinSocOnGrid);
    FoxSettings::lemma_from_key_of_key(FoxSettings::SysSwitch);
    FoxSettings::lemma_from_key_of_key(FoxSettings::WorkMode);
}

/// FoxESS Cloud names each work mode as its registry lists it, and that name reads back as the mode.
#[verifier::rlimit(50)]
pub proof fn lemma_work_mode_names()
    ensures
        FoxWorkModes::ForceDischarge.key() == "ForceDischarge"@,
        FoxWorkModes::from_key_spec("ForceDischarge"@) == Some(FoxWorkModes::ForceDischarge),
        FoxWorkModes::PeakShaving.key() == "PeakShaving"@,
        FoxWorkModes::from_key_spec("PeakShaving"@) == Some(FoxWorkModes::PeakShaving),
        FoxWorkModes::Feedin.key() == "Feedin"@,
        FoxWorkModes::from_key_spec("Feedin"@) == Some(FoxWorkModes::Feedin),
        FoxWorkModes::Backup.key() == "Backup"@,
        FoxWorkModes::from_key_spec("Backup"@) == Some(FoxWorkModes::Backup),
        FoxWorkModes::SelfUse.key() == "SelfUse"@,
        FoxWorkModes::from_key_spec("SelfUse"@) == Some(FoxWorkModes::SelfUse),
        FoxWorkModes::ForceCharge.key() == "ForceCharge"@,
        FoxWorkModes::from_key_spec("ForceCharge"@) == Some(FoxWorkModes::ForceCharge),
        FoxWorkModes::Unknown.key() == "Unknown"@,
        FoxWorkModes::from_key_spec("Unknown"@) == Some(FoxWorkModes::Unknown),
{
    FoxWorkModes::lemma_from_key_of_key(FoxWorkModes::ForceDischarge);
    FoxWorkModes::lemma_from_key_of_key(FoxWorkModes::PeakShaving);
    FoxWorkModes::lemma_from_key_of_key(FoxWorkModes::Feedin);
    FoxWorkModes::lemma_from_key_of_key(FoxWorkModes::Backup);
    FoxWorkModes::lemma_from_key_of_key(FoxWorkModes::SelfUse);
    FoxWorkModes::lemma_from_key_of_key(FoxWorkModes::ForceCharge);
    FoxWorkModes::lemma_from_key_of_key(FoxWorkModes::Unknown);
}

/// FoxESS Cloud names each extra scheduler parameter as listed, and that name reads back as the parameter.
#[verifier::rlimit(50)]
pub proof fn lemma_parameter_names()
    ensures
        FoxParameter::PvPower.key() == "pvPower"@,
        FoxParameter::from_key_spec("pvPower"@) == Some(FoxParameter::PvPower),
        FoxParameter::LoadsPower.key() == "loadsPower"@,
        FoxParameter::from_key_spec("loadsPower"@) == Some(FoxParameter::LoadsPower),
        FoxParameter::SoC.key() == "SoC"@,
        FoxParameter::from_key_spec("SoC"@) == Some(FoxParameter::SoC),
        FoxParameter::SoH.key() == "SOH"@,
        FoxParameter::from_key_spec("SOH"@) == Some(FoxParameter::SoH),
{
    FoxParameter::lemma_from_key_of_key(FoxParameter::PvPower);
    FoxParameter::lemma_from_key_of_key(FoxParameter::LoadsPower);
    FoxParameter::lemma_from_key_of_key(FoxParameter::SoC);
    FoxParameter::lemma_from_key_of_key(FoxParameter::SoH);
}

} // verus!
