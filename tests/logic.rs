use circuit_sim::component_type::{string_to_componenttype, ComponentType};
use circuit_sim::editor::{apply_key, EditKey, KeyOutcome};
use circuit_sim::solver::{all_converged, newton_action, NewtonAction, MAX_ITER};
use circuit_sim::text::{decimal_string, pair_text, str_eq, triple_text, with_decimal};
use circuit_sim::units::{unit_scale_exponent, unit_suffix, unit_suffix_index};

#[test]
fn component_type_names() {
    let cases = [
        ("C", ComponentType::Capacitor),
        ("D", ComponentType::Diode),
        ("D_Schottky", ComponentType::DiodeSchottky),
        ("D_Zener", ComponentType::DiodeZener),
        ("L", ComponentType::Inductor),
        ("LED", ComponentType::Led),
        ("Opamp_Dual", ComponentType::OpAmp),
        ("Q_NPN_BCE", ComponentType::TransistorNPN),
        ("Q_NPN_Darlington_BCE", ComponentType::TransistorNPNDarlington),
        ("Q_PNP_BCE", ComponentType::TransistorPNP),
        ("Q_PNP_Darlington_BCE", ComponentType::TransistorPNPDarlington),
        ("R", ComponentType::Resistor),
        ("R_Potentiometer", ComponentType::Potentiometer),
        ("R_US", ComponentType::ResistorUS),
        ("R_Potentiometer_US", ComponentType::PotentiometerUS),
        ("Voltmeter_DC", ComponentType::VoltmeterDC),
    ];
    for (name, t) in cases {
        assert_eq!(string_to_componenttype(name), Some(t));
    }
    assert_eq!(string_to_componenttype(""), None);
    assert_eq!(string_to_componenttype("Wire"), None);
    assert_eq!(string_to_componenttype("r"), None);
    assert_eq!(string_to_componenttype("RR"), None);
}

#[test]
fn decimal_text() {
    assert_eq!(decimal_string(0), "0");
    assert_eq!(decimal_string(7), "7");
    assert_eq!(decimal_string(10), "10");
    assert_eq!(decimal_string(4096), "4096");
    assert_eq!(decimal_string(usize::MAX), usize::MAX.to_string());
    assert_eq!(with_decimal("v", 12), "v12");
    assert_eq!(pair_text("i:D:", 3, 0), "i:D:3,0");
    assert_eq!(triple_text("v:Q:", 1, 20, 300, ":be"), "v:Q:1,20,300:be");
    assert!(str_eq("abc", "abc"));
    assert!(!str_eq("abc", "abd"));
    assert!(!str_eq("ab", "abc"));
}

fn prefix(exponent: i32) -> &'static str {
    unit_suffix(unit_suffix_index(exponent))
}

#[test]
fn unit_prefix_choice() {
    // exponents are log10 of 1.5, 15, 1500, 150000, 1.5e6, 0.015, 0.0015,
    // 0.00015, rounded down
    assert_eq!(prefix(0), "");
    assert_eq!(prefix(1), "");
    assert_eq!(prefix(3), "k");
    assert_eq!(prefix(5), "k");
    assert_eq!(prefix(6), "M");
    assert_eq!(prefix(-2), "m");
    assert_eq!(prefix(-3), "m");
    assert_eq!(prefix(-4), "u");
    assert_eq!(unit_suffix_index(-4), 2);
    // exact powers: 1, 1e3, 1e6, 1e-3, 1e-6, 1e-9
    assert_eq!(prefix(0), "");
    assert_eq!(prefix(3), "k");
    assert_eq!(prefix(6), "M");
    assert_eq!(prefix(-3), "m");
    assert_eq!(prefix(-6), "u");
    assert_eq!(prefix(-9), "n");
    assert_eq!(prefix(-10), "p");
    assert_eq!(prefix(-12), "p");
    // clamped ends
    assert_eq!(unit_suffix_index(9), 7);
    assert_eq!(prefix(12), "G");
    assert_eq!(prefix(-15), "p");
    assert_eq!(prefix(i32::MIN), "p");
    assert_eq!(prefix(i32::MAX), "G");
}

#[test]
fn unit_scale() {
    assert_eq!(unit_scale_exponent(4), 0);
    assert_eq!(unit_scale_exponent(5), 3);
    assert_eq!(unit_scale_exponent(2), -6);
    assert_eq!(unit_scale_exponent(0), -12);
    assert_eq!(unit_scale_exponent(7), 9);
}

#[test]
fn newton_loop_decisions() {
    assert_eq!(newton_action(1, true), NewtonAction::Converged);
    assert_eq!(newton_action(1, false), NewtonAction::Iterate);
    assert_eq!(newton_action(MAX_ITER - 1, false), NewtonAction::Iterate);
    assert_eq!(newton_action(MAX_ITER, false), NewtonAction::NonConvergence);
    assert_eq!(newton_action(MAX_ITER, true), NewtonAction::Converged);
    assert_eq!(MAX_ITER, 200);
    assert!(all_converged(&vec![]));
    assert!(all_converged(&vec![true, true]));
    assert!(!all_converged(&vec![true, false, true]));
}

#[test]
fn editing_keys() {
    assert_eq!(apply_key(0, 0, EditKey::Delete), KeyOutcome { selected: 0, removed: None });
    assert_eq!(apply_key(1, 4, EditKey::Delete), KeyOutcome { selected: 1, removed: Some(1) });
    assert_eq!(apply_key(3, 4, EditKey::Delete), KeyOutcome { selected: 2, removed: Some(3) });
    assert_eq!(apply_key(0, 1, EditKey::Delete), KeyOutcome { selected: 0, removed: Some(0) });
    assert_eq!(apply_key(0, 4, EditKey::Previous), KeyOutcome { selected: 0, removed: None });
    assert_eq!(apply_key(2, 4, EditKey::Previous), KeyOutcome { selected: 1, removed: None });
    assert_eq!(apply_key(2, 4, EditKey::Next), KeyOutcome { selected: 3, removed: None });
    assert_eq!(apply_key(3, 4, EditKey::Next), KeyOutcome { selected: 3, removed: None });
    assert_eq!(apply_key(0, 0, EditKey::Next), KeyOutcome { selected: 0, removed: None });
}
