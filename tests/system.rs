use circuit_sim::devices::{Capacitor, Diode, Resistor};
use circuit_sim::netlist::{Device, Netlist};
use circuit_sim::system::{InfoType, MnaSystem, NodeInfo};

fn labels(s: &MnaSystem, r: usize, c: usize) -> String {
    s.a_matrix[r][c].label.clone()
}

fn fixed(s: &MnaSystem, r: usize, c: usize) -> Vec<(Option<usize>, i64)> {
    s.a_matrix[r][c].fixed.iter().map(|t| (t.param, t.factor)).collect()
}

fn timed(s: &MnaSystem, r: usize, c: usize) -> Vec<(Option<usize>, i64)> {
    s.a_matrix[r][c].timed.iter().map(|t| (t.param, t.factor)).collect()
}

#[test]
fn test_system() {
    let mut s = MnaSystem::new();
    s.set_size(5);
    assert_eq!(s.a_matrix.len(), 5);
    for row in s.a_matrix {
        assert_eq!(row.len(), 5);
    }
}

#[test]
fn test_component_polymorphism() {
    let mut s = MnaSystem::new();
    s.set_size(3);
    let c1 = Resistor::new(&mut s, "100", 0, 1).unwrap();
    let c2 = Resistor::new(&mut s, "100", 1, 2).unwrap();
    let c3 = Capacitor::new(&mut s, "100m", 1, 2).unwrap();
    let c4 = Diode::new(&mut s, 0, 1).unwrap();
    println!("{:?}", &c1);
    println!("{:?}", &c3);
    c1.stamp(&mut s);
    c2.stamp(&mut s);
    c3.stamp(&mut s);
    let v: Vec<Device> = vec![Device::Resistor(c1), Device::Resistor(c2), Device::Capacitor(c3), Device::Diode(c4)];
    assert_eq!(v.len(), 4);
    assert_eq!(s.net_size, 6);
}

#[test]
fn set_size_keeps_entries_and_names() {
    let mut s = MnaSystem::new();
    s.set_size(2);
    assert_eq!(s.nodes[1].name, "v1");
    let r = Resistor::new(&mut s, "1k", 0, 1).unwrap();
    r.stamp(&mut s);
    s.set_node(1, NodeInfo::new_voltage_with_name("out"));
    s.set_size(4);
    assert_eq!(s.b.len(), 4);
    assert_eq!(s.nodes.len(), 4);
    assert_eq!(s.nodes[1].name, "out");
    assert_eq!(s.nodes[3].name, "v3");
    assert_eq!(labels(&s, 0, 1), "-R1k");
    assert_eq!(fixed(&s, 1, 1), vec![(Some(0), 1)]);
    assert!(s.a_matrix[3][3].fixed.is_empty());
    s.set_size(1);
    assert_eq!(s.a_matrix.len(), 1);
    assert_eq!(s.a_matrix[0].len(), 1);
    assert_eq!(labels(&s, 0, 0), "+R1k");
}

#[test]
fn reserve_grows_by_one_row() {
    let mut s = MnaSystem::new();
    s.set_size(3);
    assert_eq!(s.reserve(), 3);
    assert_eq!(s.net_size, 4);
    assert_eq!(s.reserve_dynamic(), 0);
    assert_eq!(s.reserve_dynamic(), 1);
    assert_eq!(s.reserve_param(), 0);
    assert_eq!(s.n_dynamic, 2);
    assert_eq!(s.n_params, 1);
}

#[test]
fn resistor_divider_stamp() {
    // nodes {0,1,2}; V(0->1); R(1,2); R(2,0)
    let mut n = Netlist::new(3);
    let v = n.add_voltage_source(0, 1, "10").unwrap();
    let r1 = n.add_resistor(1, 2, "1k").unwrap();
    let r2 = n.add_resistor(2, 0, "1k").unwrap();
    assert_eq!((v, r1, r2), (0, 1, 2));
    let s = &n.system;
    assert_eq!(s.net_size, 4);
    // resistor 1 has parameter 1, resistor 2 parameter 2
    assert_eq!(fixed(s, 1, 1), vec![(Some(1), 1)]);
    assert_eq!(fixed(s, 1, 2), vec![(Some(1), -1)]);
    assert_eq!(fixed(s, 2, 1), vec![(Some(1), -1)]);
    assert_eq!(fixed(s, 2, 2), vec![(Some(1), 1), (Some(2), 1)]);
    assert_eq!(fixed(s, 0, 0), vec![(Some(2), 1)]);
    assert_eq!(labels(s, 2, 2), "+R1k+R1k");
    // the source couples nodes 0 and 1 to its current row 3
    assert_eq!(fixed(s, 0, 3), vec![(None, -1)]);
    assert_eq!(fixed(s, 1, 3), vec![(None, 1)]);
    assert_eq!(fixed(s, 3, 0), vec![(None, 1)]);
    assert_eq!(fixed(s, 3, 1), vec![(None, -1)]);
    assert_eq!(s.b[3].fixed.iter().map(|t| (t.param, t.factor)).collect::<Vec<_>>(), vec![(Some(0), 1)]);
    assert_eq!(s.b[3].label, "10V");
    assert_eq!(s.nodes[3].name, "i:V(10:0,1)");
    assert_eq!(s.nodes[3].info_type, InfoType::Current);
}

#[test]
fn capacitor_companion_stamp() {
    // nodes {0,1,2}; V(0->1); R(1,2); C(2,0)
    let mut n = Netlist::new(3);
    n.add_voltage_source(0, 1, "1").unwrap();
    n.add_resistor(1, 2, "1k").unwrap();
    let i = n.add_capacitor(2, 0, "1u").unwrap();
    assert_eq!(i, 2);
    let cap = match &n.devices[2] {
        Device::Capacitor(c) => c,
        _ => panic!("expected a capacitor"),
    };
    assert_eq!((cap.l0, cap.l1, cap.l2), (2, 0, 4));
    assert_eq!((cap.dyn_index, cap.g, cap.inv_c), (0, 2, 3));
    let s = &n.system;
    assert_eq!(s.net_size, 5);
    assert_eq!(timed(s, 2, 4), vec![(None, 1)]);
    assert_eq!(timed(s, 0, 4), vec![(None, -1)]);
    assert_eq!(timed(s, 2, 2), vec![(Some(2), -1)]);
    assert_eq!(timed(s, 2, 0), vec![(Some(2), 1)]);
    assert_eq!(timed(s, 0, 2), vec![(Some(2), 1)]);
    assert_eq!(timed(s, 0, 0), vec![(Some(2), -1)]);
    assert_eq!(fixed(s, 4, 2), vec![(Some(2), 2)]);
    assert_eq!(fixed(s, 4, 0), vec![(Some(2), -2)]);
    assert_eq!(fixed(s, 4, 4), vec![(None, -1)]);
    // the resistor's static part is untouched by the capacitor
    assert_eq!(fixed(s, 2, 2), vec![(Some(1), 1)]);
    assert_eq!(labels(s, 2, 2), "+R1k-t*1u");
    assert_eq!(labels(s, 4, 2), "+2*1u");
    assert_eq!(s.b[4].dyn_refs, vec![0]);
    assert_eq!(s.b[4].label, "q:C:2,0");
    assert_eq!(s.nodes[4].name, "v:C:2,0");
    assert_eq!(s.nodes[4].scale, Some(3));
    assert_eq!(s.nodes[4].info_type, InfoType::Voltage);
}

#[test]
fn resistor_pin_out_of_range_is_refused() {
    let mut n = Netlist::new(3);
    assert_eq!(n.add_resistor(1, 3, "1k"), None);
    assert_eq!(n.add_capacitor(7, 0, "1u"), None);
    assert_eq!(n.add_voltage_source(0, 3, "1"), None);
    assert_eq!(n.add_voltage_probe(3, 0), None);
    assert_eq!(n.add_voltage_function(0, 9), None);
    assert_eq!(n.add_diode(0, 3), None);
    assert_eq!(n.add_bjt(circuit_sim::devices::TransistorType::NPN, 0, 1, 3), None);
    assert!(n.devices.is_empty());
    assert_eq!(n.system.net_size, 3);
    assert_eq!(n.system.n_params, 0);
    assert_eq!(n.system.n_dynamic, 0);
}

#[test]
fn probe_and_voltage_function_stamps() {
    let mut n = Netlist::new(3);
    let p = n.add_voltage_probe(1, 2).unwrap();
    let f = n.add_voltage_function(0, 1).unwrap();
    assert_eq!((p, f), (0, 1));
    let s = &n.system;
    assert_eq!(fixed(s, 3, 1), vec![(None, 1)]);
    assert_eq!(fixed(s, 3, 2), vec![(None, -1)]);
    assert_eq!(fixed(s, 3, 3), vec![(None, -1)]);
    assert_eq!(s.nodes[3].name, "v:probe");
    assert_eq!(s.nodes[3].info_type, InfoType::Voltage);
    assert_eq!(fixed(s, 0, 4), vec![(None, -1)]);
    assert_eq!(fixed(s, 4, 1), vec![(None, -1)]);
    assert_eq!(s.b[4].dyn_refs, vec![0]);
    assert_eq!(s.b[4].label, "Vfn:0,1");
    assert_eq!(s.nodes[4].name, "i:Vfn:0,1");
    assert_eq!(s.nodes[4].info_type, InfoType::Current);
}

#[test]
fn fresh_system_is_empty_and_reserve_keeps_entries() {
    let mut s = MnaSystem::new();
    s.set_size(3);
    for r in 0..3 {
        assert_eq!(s.a_matrix[r].len(), 3);
        for c in 0..3 {
            let cell = &s.a_matrix[r][c];
            assert!(cell.fixed.is_empty() && cell.timed.is_empty() && cell.dyn_refs.is_empty());
            assert!(cell.label.is_empty());
        }
        assert!(s.b[r].fixed.is_empty() && s.b[r].dyn_refs.is_empty() && s.b[r].label.is_empty());
    }
    let r = Resistor::new(&mut s, "2k", 1, 2).unwrap();
    r.stamp(&mut s);
    let before: Vec<Vec<(Vec<(Option<usize>, i64)>, String)>> =
        (0..3).map(|i| (0..3).map(|j| (fixed(&s, i, j), labels(&s, i, j))).collect()).collect();
    let k = s.reserve();
    assert_eq!(k, 3);
    assert_eq!(s.a_matrix.len(), 4);
    for i in 0..3 {
        for j in 0..3 {
            assert_eq!((fixed(&s, i, j), labels(&s, i, j)), before[i][j]);
        }
    }
    for i in 0..4 {
        assert!(s.a_matrix[3][i].fixed.is_empty() && s.a_matrix[i][3].fixed.is_empty());
    }
    assert_eq!(s.nodes[3].name, "v3");
}
