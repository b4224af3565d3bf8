use circuit_sim::devices::TransistorType;
use circuit_sim::netlist::{Device, Netlist};
use circuit_sim::system::{InfoType, MnaSystem};

fn fixed(s: &MnaSystem, r: usize, c: usize) -> Vec<(Option<usize>, i64)> {
    s.a_matrix[r][c].fixed.iter().map(|t| (t.param, t.factor)).collect()
}

#[test]
fn diode_stamp_layout() {
    let mut n = Netlist::new(2);
    n.add_diode(1, 0).unwrap();
    let d = match &n.devices[0] {
        Device::Diode(d) => d,
        _ => panic!("expected a diode"),
    };
    assert_eq!((d.l2, d.l3, d.dyn_index0, d.dyn_index1, d.rs), (2, 3, 0, 1, 0));
    let s = &n.system;
    assert_eq!(s.net_size, 4);
    assert_eq!(fixed(s, 3, 1), vec![(None, -1)]);
    assert_eq!(fixed(s, 3, 0), vec![(None, 1)]);
    assert_eq!(fixed(s, 3, 2), vec![(None, 1)]);
    assert_eq!(fixed(s, 1, 3), vec![(None, 1)]);
    assert_eq!(fixed(s, 0, 3), vec![(None, -1)]);
    assert_eq!(fixed(s, 2, 3), vec![(None, -1)]);
    assert_eq!(fixed(s, 3, 3), vec![(Some(0), 1)]);
    assert_eq!(s.a_matrix[2][2].dyn_refs, vec![0]);
    assert_eq!(s.a_matrix[2][2].label, "gm:D");
    assert_eq!(s.b[2].dyn_refs, vec![1]);
    assert_eq!(s.b[2].label, "i0:D:1,0");
    assert_eq!(s.nodes[2].name, "v:D:1,0");
    assert_eq!(s.nodes[3].name, "i:D:1,0");
    assert_eq!(s.nodes[3].info_type, InfoType::Current);
}

fn bjt_system(t: TransistorType) -> Netlist {
    let mut n = Netlist::new(4);
    n.add_bjt(t, 1, 2, 3).unwrap();
    n
}

#[test]
fn npn_stamp_layout() {
    let n = bjt_system(TransistorType::NPN);
    let s = &n.system;
    assert_eq!(s.net_size, 8);
    assert_eq!(s.n_dynamic, 4);
    assert_eq!(s.n_params, 6);
    // base row: 1 - ar and 1 - af
    assert_eq!(fixed(s, 1, 6), vec![(Some(2), 1)]);
    assert_eq!(fixed(s, 1, 7), vec![(Some(3), 1)]);
    // collector and emitter rows
    assert_eq!(fixed(s, 2, 6), vec![(None, -1)]);
    assert_eq!(fixed(s, 2, 7), vec![(Some(1), 1)]);
    assert_eq!(fixed(s, 3, 6), vec![(Some(0), 1)]);
    assert_eq!(fixed(s, 3, 7), vec![(None, -1)]);
    // junction couplings
    assert_eq!(fixed(s, 6, 4), vec![(None, 1)]);
    assert_eq!(fixed(s, 4, 6), vec![(None, -1)]);
    assert_eq!(fixed(s, 7, 5), vec![(None, 1)]);
    assert_eq!(fixed(s, 5, 7), vec![(None, -1)]);
    // current rows
    assert_eq!(fixed(s, 6, 1), vec![(None, -1)]);
    assert_eq!(fixed(s, 6, 2), vec![(None, 1)]);
    assert_eq!(fixed(s, 6, 6), vec![(Some(4), 1)]);
    assert_eq!(fixed(s, 7, 1), vec![(None, -1)]);
    assert_eq!(fixed(s, 7, 3), vec![(None, 1)]);
    assert_eq!(fixed(s, 7, 7), vec![(Some(5), 1)]);
    assert_eq!(s.a_matrix[4][4].dyn_refs, vec![1]);
    assert_eq!(s.b[4].dyn_refs, vec![0]);
    assert_eq!(s.a_matrix[5][5].dyn_refs, vec![3]);
    assert_eq!(s.b[5].dyn_refs, vec![2]);
    assert_eq!(s.b[4].label, "i0:Q:1,2,3:cb");
    assert_eq!(s.nodes[4].name, "v:Q:1,2,3:bc");
    assert_eq!(s.nodes[5].name, "v:Q:1,2,3:be");
    assert_eq!(s.nodes[6].name, "i:Q:1,2,3:bc");
    assert_eq!(s.nodes[6].scale, Some(2));
    assert_eq!(s.nodes[7].scale, Some(3));
}

#[test]
fn pnp_flips_junction_couplings() {
    let npn = bjt_system(TransistorType::NPN);
    let pnp = bjt_system(TransistorType::PNP);
    let (a, b) = (&npn.system, &pnp.system);
    for (r, c) in [(6, 4), (4, 6), (7, 5), (5, 7)] {
        let x = fixed(a, r, c);
        let y = fixed(b, r, c);
        assert_eq!(x.len(), 1);
        assert_eq!(y, vec![(x[0].0, -x[0].1)]);
    }
    for r in 0..8 {
        for c in 0..8 {
            if ![(6, 4), (4, 6), (7, 5), (5, 7)].contains(&(r, c)) {
                assert_eq!(fixed(a, r, c), fixed(b, r, c));
            }
        }
    }
    assert_eq!(b.nodes[4].name, "v:Q:1,2,3:cb");
    assert_eq!(b.nodes[5].name, "v:Q:1,2,3:eb");
}
