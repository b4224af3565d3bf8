use vstd::prelude::*;

use crate::text::str_eq;

verus! {

/// The kinds of part that a schematic symbol library names.
#[derive(Debug, Clone, Copy, PartialEq, Eq, Hash, Structural)]
pub enum ComponentType {
    Capacitor,
    Diode,
    DiodeSchottky,
    DiodeZener,
    Inductor,
    Led,
    OpAmp,
    TransistorNPN,
    TransistorNPNDarlington,
    TransistorPNP,
    TransistorPNPDarlington,
    Resistor,
    ResistorUS,
    Potentiometer,
    PotentiometerUS,
    VoltmeterDC,
    Wire,
}

/// The part kind that a symbol name stands for, if any.
pub open spec fn component_type_of(n: Seq<char>) -> Option<ComponentType> {
    if n == "C"@ {
        Some(ComponentType::Capacitor)
    } else if n == "D"@ {
        Some(ComponentType::Diode)
    } else if n == "D_Schottky"@ {
        Some(ComponentType::DiodeSchottky)
    } else if n == "D_Zener"@ {
        Some(ComponentType::DiodeZener)
    } else if n == "L"@ {
        Some(ComponentType::Inductor)
    } else if n == "LED"@ {
        Some(ComponentType::Led)
    } else if n == "Opamp_Dual"@ {
        Some(ComponentType::OpAmp)
    } else if n == "Q_NPN_BCE"@ {
        Some(ComponentType::TransistorNPN)
    } else if n == "Q_NPN_Darlington_BCE"@ {
        Some(ComponentType::TransistorNPNDarlington)
    } else if n == "Q_PNP_BCE"@ {
        Some(ComponentType::TransistorPNP)
    } else if n == "Q_PNP_Darlington_BCE"@ {
        Some(ComponentType::TransistorPNPDarlington)
    } else if n == "R"@ {
        Some(ComponentType::Resistor)
    } else if n == "R_Potentiometer"@ {
        Some(ComponentType::Potentiometer)
    } else if n == "R_US"@ {
        Some(ComponentType::ResistorUS)
    } else if n == "R_Potentiometer_US"@ {
        Some(ComponentType::PotentiometerUS)
    } else if n == "Voltmeter_DC"@ {
        Some(ComponentType::VoltmeterDC)
    } else {
        None
    }
}

/// Maps a symbol-library part name to its component type.
pub fn string_to_componenttype(n: &str) -> (r: Option<ComponentType>)
    ensures
        r == component_type_of(n@),
{
    if str_eq(n, "C") {
        Some(ComponentType::Capacitor)
    } else if str_eq(n, "D") {
        Some(ComponentType::Diode)
    } else if str_eq(n, "D_Schottky") {
        Some(ComponentType::DiodeSchottky)
    } else if str_eq(n, "D_Zener") {
        Some(ComponentType::DiodeZener)
    } else if str_eq(n, "L") {
        Some(ComponentType::Inductor)
    } else if str_eq(n, "LED") {
        Some(ComponentType::Led)
    } else if str_eq(n, "Opamp_Dual") {
        Some(ComponentType::OpAmp)
    } else if str_eq(n, "Q_NPN_BCE") {
        Some(ComponentType::TransistorNPN)
    } else if str_eq(n, "Q_NPN_Darlington_BCE") {
        Some(ComponentType::TransistorNPNDarlington)
    } else if str_eq(n, "Q_PNP_BCE") {
        Some(ComponentType::TransistorPNP)
    } else if str_eq(n, "Q_PNP_Darlington_BCE") {
        Some(ComponentType::TransistorPNPDarlington)
    } else if str_eq(n, "R") {
        Some(ComponentType::Resistor)
    } else if str_eq(n, "R_Potentiometer") {
        Some(ComponentType::Potentiometer)
    } else if str_eq(n, "R_US") {
        Some(ComponentType::ResistorUS)
    } else if str_eq(n, "R_Potentiometer_US") {
        Some(ComponentType::PotentiometerUS)
    } else if str_eq(n, "Voltmeter_DC") {
        Some(ComponentType::VoltmeterDC)
    } else {
        None
    }
}

} // verus!
