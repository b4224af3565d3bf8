use vstd::prelude::*;

use crate::system::{scaled, unit, InfoType, MnaSystem, NodeInfo, NodeModel, SystemModel, Term};
use crate::text::{joined, pair_name, pair_text, triple_text};

verus! {

/// The system after `k` more parameter slots were reserved.
pub open spec fn with_params(m: SystemModel, k: nat) -> SystemModel {
    SystemModel { n_params: m.n_params + k, ..m }
}

/// The system after `k` more dynamic slots were reserved.
pub open spec fn with_dynamic(m: SystemModel, k: nat) -> SystemModel {
    SystemModel { n_dynamic: m.n_dynamic + k, ..m }
}

/// The system after one internal net was reserved.
pub open spec fn with_net(m: SystemModel) -> SystemModel {
    m.resized(m.size() + 1)
}

/// A resistor between nodes `l0` and `l1`. Its conductance `1/R` is the
/// parameter `g`; `value_text` is the resistance as written in labels.
#[derive(Debug)]
pub struct Resistor {
    pub l0: usize,
    pub l1: usize,
    pub g: usize,
    pub value_text: String,
}

impl Resistor {
    /// The system after the reservations that a new Resistor makes on `m`.
    pub open spec fn reserved(m: SystemModel) -> SystemModel {
        with_params(m, 1)
    }

    /// The fields that construction on `m` gives: the pins asked for, and
    /// the first rows and pool slots that `m` hands out.
    pub open spec fn placed(&self, m: SystemModel, l0: usize, l1: usize, value_text: Seq<char>) -> bool {
        &&& self.l0 == l0
        &&& self.l1 == l1
        &&& self.g == m.n_params
        &&& self.value_text@ == value_text
    }

    /// The resistor refers to rows and slots that exist in `m`.
    pub open spec fn fits(&self, m: SystemModel) -> bool {
        &&& self.l0 < m.size()
        &&& self.l1 < m.size()
        &&& self.g < m.n_params
    }

    /// The conductance stamped as `[[+G, -G], [-G, +G]]` on rows and
    /// columns `l0`, `l1`.
    pub open spec fn stamped(&self, m: SystemModel) -> SystemModel {
        let txt = "R"@ + self.value_text@;
        let (g, l0, l1) = (self.g, self.l0 as int, self.l1 as int);
        m.stamp_static(scaled(g, 1), l0, l0, "+"@ + txt).stamp_static(
            scaled(g, -1),
            l0,
            l1,
            "-"@ + txt,
        ).stamp_static(scaled(g, -1), l1, l0, "-"@ + txt).stamp_static(
            scaled(g, 1),
            l1,
            l1,
            "+"@ + txt,
        )
    }

    /// A resistor between two existing nodes; it reserves the parameter slot
    /// of its conductance. The system refuses a pin that is not one of its
    /// rows, and is then left as it was.
    pub fn new(m: &mut MnaSystem, value_text: &str, l0: usize, l1: usize) -> (r: Option<Resistor>)
        requires
            old(m).wf(),
            old(m)@.n_params < usize::MAX,
        ensures
            final(m).wf(),
            r.is_some() <==> (l0 < old(m)@.size() && l1 < old(m)@.size()),
            r.is_none() ==> final(m)@ == old(m)@,
            r matches Some(d) ==> {
                &&& final(m)@ == Self::reserved(old(m)@)
                &&& d.placed(old(m)@, l0, l1, value_text@)
                &&& d.fits(final(m)@)
            },
    {
        if l0 >= m.net_size || l1 >= m.net_size {
            return None;
        }
        let g = m.reserve_param();
        Some(Resistor { l0, l1, g, value_text: String::from_str(value_text) })
    }

    /// Stamps the resistor into `m`.
    pub fn stamp(&self, m: &mut MnaSystem)
        requires
            old(m).wf(),
            self.fits(old(m)@),
        ensures
            final(m).wf(),
            final(m)@ == self.stamped(old(m)@),
    {
        let (g, l0, l1) = (self.g, self.l0, self.l1);
        let txt = joined("R", self.value_text.as_str());
        let plus = joined("+", txt.as_str());
        let minus = joined("-", txt.as_str());
        m.stamp_static(Term { param: Some(g), factor: 1 }, l0, l0, plus.as_str());
        m.stamp_static(Term { param: Some(g), factor: -1 }, l0, l1, minus.as_str());
        m.stamp_static(Term { param: Some(g), factor: -1 }, l1, l0, minus.as_str());
        m.stamp_static(Term { param: Some(g), factor: 1 }, l1, l1, plus.as_str());
    }
}

/// A capacitor between `l0` and `l1` in the trapezoidal companion form. It
/// owns the internal net `l2`, whose solution is the integrator state, and
/// the dynamic slot `dyn_index`, which feeds that state back into `b[l2]`.
/// Parameter `g` holds `2C`, parameter `inv_c` holds `1/C` (the display
/// scale of the state row).
#[derive(Debug)]
pub struct Capacitor {
    pub l0: usize,
    pub l1: usize,
    pub l2: usize,
    pub dyn_index: usize,
    pub g: usize,
    pub inv_c: usize,
    pub value_text: String,
}

impl Capacitor {
    /// The system after the reservations that a new Capacitor makes on `m`.
    pub open spec fn reserved(m: SystemModel) -> SystemModel {
        with_params(with_dynamic(with_net(m), 1), 2)
    }

    /// The fields that construction on `m` gives: the pins asked for, and
    /// the first rows and pool slots that `m` hands out.
    pub open spec fn placed(&self, m: SystemModel, l0: usize, l1: usize, value_text: Seq<char>) -> bool {
        &&& self.l0 == l0
        &&& self.l1 == l1
        &&& self.l2 == m.size()
        &&& self.dyn_index == m.n_dynamic
        &&& self.g == m.n_params
        &&& self.inv_c == m.n_params + 1
        &&& self.value_text@ == value_text
    }

    pub open spec fn fits(&self, m: SystemModel) -> bool {
        &&& self.l0 < m.size()
        &&& self.l1 < m.size()
        &&& self.l2 < m.size()
        &&& self.dyn_index < m.n_dynamic
        &&& self.g < m.n_params
        &&& self.inv_c < m.n_params
    }

    /// The block
    /// `[[-g t, +g t, +t], [+g t, -g t, -t], [+2g, -2g, -1]]` on `l0, l1, l2`,
    /// where the entries with `t` are per unit of time, and the state slot
    /// added to `b[l2]`.
    pub open spec fn stamped(&self, m: SystemModel) -> SystemModel {
        let txt = self.value_text@;
        let (g, l0, l1, l2) = (self.g, self.l0 as int, self.l1 as int, self.l2 as int);
        m.stamp_timed(unit(1), l0, l2, "+t"@).stamp_timed(unit(-1), l1, l2, "-t"@).stamp_timed(
            scaled(g, -1),
            l0,
            l0,
            "-t*"@ + txt,
        ).stamp_timed(scaled(g, 1), l0, l1, "+t*"@ + txt).stamp_timed(
            scaled(g, 1),
            l1,
            l0,
            "+t*"@ + txt,
        ).stamp_timed(scaled(g, -1), l1, l1, "-t*"@ + txt).stamp_static(
            scaled(g, 2),
            l2,
            l0,
            "+2*"@ + txt,
        ).stamp_static(scaled(g, -2), l2, l1, "-2*"@ + txt).stamp_static(
            unit(-1),
            l2,
            l2,
            "-1"@,
        ).add_dynamic_b(l2, self.dyn_index, pair_name("q:C:"@, self.l0 as nat, self.l1 as nat)).with_node(
            l2,
            NodeModel {
                info_type: InfoType::Voltage,
                scale: Some(self.inv_c),
                name: pair_name("v:C:"@, self.l0 as nat, self.l1 as nat),
            },
        )
    }

    /// A capacitor between two existing nodes. It reserves its state net,
    /// one dynamic slot and the parameter slots of `2C` and `1/C`. The
    /// system refuses a pin that is not one of its rows, and is then left
    /// as it was.
    pub fn new(m: &mut MnaSystem, value_text: &str, l0: usize, l1: usize) -> (r: Option<Capacitor>)
        requires
            old(m).wf(),
            old(m)@.size() < usize::MAX,
            old(m)@.n_dynamic < usize::MAX,
            old(m)@.n_params + 2 <= usize::MAX,
        ensures
            final(m).wf(),
            r.is_some() <==> (l0 < old(m)@.size() && l1 < old(m)@.size()),
            r.is_none() ==> final(m)@ == old(m)@,
            r matches Some(d) ==> {
                &&& final(m)@ == Self::reserved(old(m)@)
                &&& d.placed(old(m)@, l0, l1, value_text@)
                &&& d.fits(final(m)@)
            },
    {
        if l0 >= m.net_size || l1 >= m.net_size {
            return None;
        }
        let l2 = m.reserve();
        let dyn_index = m.reserve_dynamic();
        let g = m.reserve_param();
        let inv_c = m.reserve_param();
        Some(Capacitor { l0, l1, l2, dyn_index, g, inv_c, value_text: String::from_str(value_text) })
    }

    /// Stamps the capacitor into `m`.
    pub fn stamp(&self, m: &mut MnaSystem)
        requires
            old(m).wf(),
            self.fits(old(m)@),
        ensures
            final(m).wf(),
            final(m)@ == self.stamped(old(m)@),
    {
        let (g, l0, l1, l2) = (self.g, self.l0, self.l1, self.l2);
        let txt = self.value_text.as_str();
        m.stamp_timed(Term { param: None, factor: 1 }, l0, l2, "+t");
        m.stamp_timed(Term { param: None, factor: -1 }, l1, l2, "-t");
        m.stamp_timed(Term { param: Some(g), factor: -1 }, l0, l0, joined("-t*", txt).as_str());
        m.stamp_timed(Term { param: Some(g), factor: 1 }, l0, l1, joined("+t*", txt).as_str());
        m.stamp_timed(Term { param: Some(g), factor: 1 }, l1, l0, joined("+t*", txt).as_str());
        m.stamp_timed(Term { param: Some(g), factor: -1 }, l1, l1, joined("-t*", txt).as_str());
        m.stamp_static(Term { param: Some(g), factor: 2 }, l2, l0, joined("+2*", txt).as_str());
        m.stamp_static(Term { param: Some(g), factor: -2 }, l2, l1, joined("-2*", txt).as_str());
        m.stamp_static(Term { param: None, factor: -1 }, l2, l2, "-1");
        m.add_dynamic_b(l2, self.dyn_index, pair_text("q:C:", l0, l1).as_str());
        m.set_node(
            l2,
            NodeInfo::new_voltage_with_name_and_scale(pair_text("v:C:", l0, l1).as_str(), self.inv_c),
        );
    }
}

/// An ideal voltage source from `l0` to `l1`. It owns the current net `l2`;
/// parameter `v` holds its voltage and `value_text` the voltage as written
/// in labels.
#[derive(Debug)]
pub struct VoltageSource {
    pub l0: usize,
    pub l1: usize,
    pub l2: usize,
    pub v: usize,
    pub value_text: String,
}

/// The four couplings of an ideal voltage element between `l0` and `l1`
/// with its current row `l2`.
pub open spec fn source_couplings(m: SystemModel, l0: int, l1: int, l2: int) -> SystemModel {
    m.stamp_static(unit(-1), l0, l2, "-1"@).stamp_static(unit(1), l1, l2, "+1"@).stamp_static(
        unit(1),
        l2,
        l0,
        "+1"@,
    ).stamp_static(unit(-1), l2, l1, "-1"@)
}

fn stamp_source_couplings(m: &mut MnaSystem, l0: usize, l1: usize, l2: usize)
    requires
        old(m).wf(),
        l0 < old(m)@.size(),
        l1 < old(m)@.size(),
        l2 < old(m)@.size(),
    ensures
        final(m).wf(),
        final(m)@ == source_couplings(old(m)@, l0 as int, l1 as int, l2 as int),
{
    m.stamp_static(Term { param: None, factor: -1 }, l0, l2, "-1");
    m.stamp_static(Term { param: None, factor: 1 }, l1, l2, "+1");
    m.stamp_static(Term { param: None, factor: 1 }, l2, l0, "+1");
    m.stamp_static(Term { param: None, factor: -1 }, l2, l1, "-1");
}

impl VoltageSource {
    /// The system after the reservations that a new VoltageSource makes on `m`.
    pub open spec fn reserved(m: SystemModel) -> SystemModel {
        with_params(with_net(m), 1)
    }

    /// The fields that construction on `m` gives: the pins asked for, and
    /// the first rows and pool slots that `m` hands out.
    pub open spec fn placed(&self, m: SystemModel, l0: usize, l1: usize, value_text: Seq<char>) -> bool {
        &&& self.l0 == l0
        &&& self.l1 == l1
        &&& self.l2 == m.size()
        &&& self.v == m.n_params
        &&& self.value_text@ == value_text
    }

    pub open spec fn fits(&self, m: SystemModel) -> bool {
        &&& self.l0 < m.size()
        &&& self.l1 < m.size()
        &&& self.l2 < m.size()
        &&& self.v < m.n_params
    }

    /// The name of the source's current row: `i:V({v}:{l0},{l1})`.
    pub open spec fn current_name(&self) -> Seq<char> {
        pair_name("i:V("@ + self.value_text@ + ":"@, self.l0 as nat, self.l1 as nat) + ")"@
    }

    /// The `+1/-1` couplings of `(l0, l2)`, `(l1, l2)` and their transposes,
    /// the voltage on `b[l2]`, and `l2` marked as a current row.
    pub open spec fn stamped(&self, m: SystemModel) -> SystemModel {
        let l2 = self.l2 as int;
        source_couplings(m, self.l0 as int, self.l1 as int, l2).stamp_b_static(
            scaled(self.v, 1),
            l2,
            self.value_text@ + "V"@,
        ).with_node(l2, NodeModel { info_type: InfoType::Current, scale: None, name: self.current_name() })
    }

    /// A voltage source between two existing nodes. It reserves its current
    /// net and the parameter slot of its voltage. The system refuses a pin
    /// that is not one of its rows, and is then left as it was.
    pub fn new(m: &mut MnaSystem, value_text: &str, l0: usize, l1: usize) -> (r: Option<VoltageSource>)
        requires
            old(m).wf(),
            old(m)@.size() < usize::MAX,
            old(m)@.n_params < usize::MAX,
        ensures
            final(m).wf(),
            r.is_some() <==> (l0 < old(m)@.size() && l1 < old(m)@.size()),
            r.is_none() ==> final(m)@ == old(m)@,
            r matches Some(d) ==> {
                &&& final(m)@ == Self::reserved(old(m)@)
                &&& d.placed(old(m)@, l0, l1, value_text@)
                &&& d.fits(final(m)@)
            },
    {
        if l0 >= m.net_size || l1 >= m.net_size {
            return None;
        }
        let l2 = m.reserve();
        let v = m.reserve_param();
        Some(VoltageSource { l0, l1, l2, v, value_text: String::from_str(value_text) })
    }

    /// Stamps the source into `m`.
    pub fn stamp(&self, m: &mut MnaSystem)
        requires
            old(m).wf(),
            self.fits(old(m)@),
        ensures
            final(m).wf(),
            final(m)@ == self.stamped(old(m)@),
    {
        let (l0, l1, l2) = (self.l0, self.l1, self.l2);
        stamp_source_couplings(m, l0, l1, l2);
        m.stamp_b_static(Term { param: Some(self.v), factor: 1 }, l2, joined(self.value_text.as_str(), "V").as_str());
        let mut name = pair_text(joined("i:V(", joined(self.value_text.as_str(), ":").as_str()).as_str(), l0, l1);
        name.append(")");
        proof {
            assert("i:V("@ + (self.value_text@ + ":"@) =~= "i:V("@ + self.value_text@ + ":"@);
        }
        m.set_node(l2, NodeInfo::new_current(name.as_str()));
    }
}

/// A probe of the voltage from `l0` to `l1`: it forces the difference into
/// the solution on its own net `l2`, without drawing current.
#[derive(Debug)]
pub struct VoltageProbe {
    pub l0: usize,
    pub l1: usize,
    pub l2: usize,
}

impl VoltageProbe {
    /// The system after the reservations that a new VoltageProbe makes on `m`.
    pub open spec fn reserved(m: SystemModel) -> SystemModel {
        with_net(m)
    }

    /// The fields that construction on `m` gives: the pins asked for, and
    /// the first rows and pool slots that `m` hands out.
    pub open spec fn placed(&self, m: SystemModel, l0: usize, l1: usize) -> bool {
        &&& self.l0 == l0
        &&& self.l1 == l1
        &&& self.l2 == m.size()
    }

    pub open spec fn fits(&self, m: SystemModel) -> bool {
        &&& self.l0 < m.size()
        &&& self.l1 < m.size()
        &&& self.l2 < m.size()
    }

    /// `+1` at `(l2, l0)`, `-1` at `(l2, l1)` and `-1` at `(l2, l2)`, so
    /// that the solution at `l2` is `V(l0) - V(l1)`.
    pub open spec fn stamped(&self, m: SystemModel) -> SystemModel {
        let (l0, l1, l2) = (self.l0 as int, self.l1 as int, self.l2 as int);
        m.stamp_static(unit(1), l2, l0, "+1"@).stamp_static(unit(-1), l2, l1, "-1"@).stamp_static(
            unit(-1),
            l2,
            l2,
            "-1"@,
        ).with_node(l2, NodeModel { info_type: InfoType::Voltage, scale: None, name: "v:probe"@ })
    }

    /// A probe between two existing nodes; it reserves its net. The system
    /// refuses a pin that is not one of its rows, and is then left as it was.
    pub fn new(m: &mut MnaSystem, l0: usize, l1: usize) -> (r: Option<VoltageProbe>)
        requires
            old(m).wf(),
            old(m)@.size() < usize::MAX,
        ensures
            final(m).wf(),
            r.is_some() <==> (l0 < old(m)@.size() && l1 < old(m)@.size()),
            r.is_none() ==> final(m)@ == old(m)@,
            r matches Some(d) ==> {
                &&& final(m)@ == Self::reserved(old(m)@)
                &&& d.placed(old(m)@, l0, l1)
                &&& d.fits(final(m)@)
            },
    {
        if l0 >= m.net_size || l1 >= m.net_size {
            return None;
        }
        let l2 = m.reserve();
        Some(VoltageProbe { l0, l1, l2 })
    }

    /// Stamps the probe into `m`.
    pub fn stamp(&self, m: &mut MnaSystem)
        requires
            old(m).wf(),
            self.fits(old(m)@),
        ensures
            final(m).wf(),
            final(m)@ == self.stamped(old(m)@),
    {
        let (l0, l1, l2) = (self.l0, self.l1, self.l2);
        m.stamp_static(Term { param: None, factor: 1 }, l2, l0, "+1");
        m.stamp_static(Term { param: None, factor: -1 }, l2, l1, "-1");
        m.stamp_static(Term { param: None, factor: -1 }, l2, l2, "-1");
        m.set_node(l2, NodeInfo::new_voltage_with_name("v:probe"));
    }
}

/// A voltage source whose voltage is a function of time. Its current net is
/// `l2`; the voltage reaches `b[l2]` through the dynamic slot `dyn_index`.
#[derive(Debug)]
pub struct VoltageFunction {
    pub l0: usize,
    pub l1: usize,
    pub l2: usize,
    pub dyn_index: usize,
}

impl VoltageFunction {
    /// The system after the reservations that a new VoltageFunction makes on `m`.
    pub open spec fn reserved(m: SystemModel) -> SystemModel {
        with_dynamic(with_net(m), 1)
    }

    /// The fields that construction on `m` gives: the pins asked for, and
    /// the first rows and pool slots that `m` hands out.
    pub open spec fn placed(&self, m: SystemModel, l0: usize, l1: usize) -> bool {
        &&& self.l0 == l0
        &&& self.l1 == l1
        &&& self.l2 == m.size()
        &&& self.dyn_index == m.n_dynamic
    }

    pub open spec fn fits(&self, m: SystemModel) -> bool {
        &&& self.l0 < m.size()
        &&& self.l1 < m.size()
        &&& self.l2 < m.size()
        &&& self.dyn_index < m.n_dynamic
    }

    /// The couplings of a voltage source, the voltage slot added to
    /// `b[l2]`, and `l2` marked as a current row.
    pub open spec fn stamped(&self, m: SystemModel) -> SystemModel {
        let l2 = self.l2 as int;
        source_couplings(m, self.l0 as int, self.l1 as int, l2).add_dynamic_b(
            l2,
            self.dyn_index,
            pair_name("Vfn:"@, self.l0 as nat, self.l1 as nat),
        ).with_node(
            l2,
            NodeModel {
                info_type: InfoType::Current,
                scale: None,
                name: pair_name("i:Vfn:"@, self.l0 as nat, self.l1 as nat),
            },
        )
    }

    /// A voltage function between two existing nodes. It reserves its
    /// current net and one dynamic slot. The system refuses a pin that is
    /// not one of its rows, and is then left as it was.
    pub fn new(m: &mut MnaSystem, l0: usize, l1: usize) -> (r: Option<VoltageFunction>)
        requires
            old(m).wf(),
            old(m)@.size() < usize::MAX,
            old(m)@.n_dynamic < usize::MAX,
        ensures
            final(m).wf(),
            r.is_some() <==> (l0 < old(m)@.size() && l1 < old(m)@.size()),
            r.is_none() ==> final(m)@ == old(m)@,
            r matches Some(d) ==> {
                &&& final(m)@ == Self::reserved(old(m)@)
                &&& d.placed(old(m)@, l0, l1)
                &&& d.fits(final(m)@)
            },
    {
        if l0 >= m.net_size || l1 >= m.net_size {
            return None;
        }
        let l2 = m.reserve();
        let dyn_index = m.reserve_dynamic();
        Some(VoltageFunction { l0, l1, l2, dyn_index })
    }

    /// Stamps the voltage function into `m`.
    pub fn stamp(&self, m: &mut MnaSystem)
        requires
            old(m).wf(),
            self.fits(old(m)@),
        ensures
            final(m).wf(),
            final(m)@ == self.stamped(old(m)@),
    {
        let (l0, l1, l2) = (self.l0, self.l1, self.l2);
        stamp_source_couplings(m, l0, l1, l2);
        m.add_dynamic_b(l2, self.dyn_index, pair_text("Vfn:", l0, l1).as_str());
        m.set_node(l2, NodeInfo::new_current(pair_text("i:Vfn:", l0, l1).as_str()));
    }
}

/// A diode from anode `l0` to cathode `l1`, as a PN junction in series with
/// a resistance. It owns the junction-voltage net `l2` and the current net
/// `l3`; the dynamic slots `dyn_index0` and `dyn_index1` carry the
/// junction's linearized conductance (on `A[l2][l2]`) and current (on
/// `b[l2]`); parameter `rs` holds the series resistance.
#[derive(Debug)]
pub struct Diode {
    pub l0: usize,
    pub l1: usize,
    pub l2: usize,
    pub l3: usize,
    pub dyn_index0: usize,
    pub dyn_index1: usize,
    pub rs: usize,
}

impl Diode {
    /// The system after the reservations that a new Diode makes on `m`.
    pub open spec fn reserved(m: SystemModel) -> SystemModel {
        with_params(with_dynamic(with_net(with_net(m)), 2), 1)
    }

    /// The fields that construction on `m` gives: the pins asked for, and
    /// the first rows and pool slots that `m` hands out.
    pub open spec fn placed(&self, m: SystemModel, l0: usize, l1: usize) -> bool {
        &&& self.l0 == l0
        &&& self.l1 == l1
        &&& self.l2 == m.size()
        &&& self.l3 == m.size() + 1
        &&& self.dyn_index0 == m.n_dynamic
        &&& self.dyn_index1 == m.n_dynamic + 1
        &&& self.rs == m.n_params
    }

    pub open spec fn fits(&self, m: SystemModel) -> bool {
        &&& self.l0 < m.size()
        &&& self.l1 < m.size()
        &&& self.l2 < m.size()
        &&& self.l3 < m.size()
        &&& self.dyn_index0 < m.n_dynamic
        &&& self.dyn_index1 < m.n_dynamic
        &&& self.rs < m.n_params
    }

    /// Rows and columns `l0, l1, l2, l3`:
    /// `+1` at `(l0, l3)`, `-1` at `(l1, l3)`, `-1` at `(l2, l3)`,
    /// `[-1, +1, +1, rs]` on row `l3`, the junction conductance slot on
    /// `(l2, l2)` and its current slot on `b[l2]`.
    pub open spec fn stamped(&self, m: SystemModel) -> SystemModel {
        let (l0, l1, l2, l3) = (self.l0 as int, self.l1 as int, self.l2 as int, self.l3 as int);
        let (p0, p1) = (self.l0 as nat, self.l1 as nat);
        m.stamp_static(unit(-1), l3, l0, "-1"@).stamp_static(unit(1), l3, l1, "+1"@).stamp_static(
            unit(1),
            l3,
            l2,
            "+1"@,
        ).stamp_static(unit(1), l0, l3, "+1"@).stamp_static(unit(-1), l1, l3, "-1"@).stamp_static(
            unit(-1),
            l2,
            l3,
            "-1"@,
        ).stamp_static(scaled(self.rs, 1), l3, l3, "rs:pn"@).add_dynamic_a(
            l2,
            l2,
            self.dyn_index0,
            "gm:D"@,
        ).add_dynamic_b(l2, self.dyn_index1, pair_name("i0:D:"@, p0, p1)).with_node(
            l2,
            NodeModel { info_type: InfoType::Voltage, scale: None, name: pair_name("v:D:"@, p0, p1) },
        ).with_node(
            l3,
            NodeModel { info_type: InfoType::Current, scale: None, name: pair_name("i:D:"@, p0, p1) },
        )
    }

    /// A diode between two existing nodes. It reserves its junction net and
    /// its current net, two dynamic slots and the parameter slot of its
    /// series resistance. The system refuses a pin that is not one of its
    /// rows, and is then left as it was.
    pub fn new(m: &mut MnaSystem, l0: usize, l1: usize) -> (r: Option<Diode>)
        requires
            old(m).wf(),
            old(m)@.size() + 2 <= usize::MAX,
            old(m)@.n_dynamic + 2 <= usize::MAX,
            old(m)@.n_params < usize::MAX,
        ensures
            final(m).wf(),
            r.is_some() <==> (l0 < old(m)@.size() && l1 < old(m)@.size()),
            r.is_none() ==> final(m)@ == old(m)@,
            r matches Some(d) ==> {
                &&& final(m)@ == Self::reserved(old(m)@)
                &&& d.placed(old(m)@, l0, l1)
                &&& d.fits(final(m)@)
            },
    {
        if l0 >= m.net_size || l1 >= m.net_size {
            return None;
        }
        let l2 = m.reserve();
        let l3 = m.reserve();
        let dyn_index0 = m.reserve_dynamic();
        let dyn_index1 = m.reserve_dynamic();
        let rs = m.reserve_param();
        Some(Diode { l0, l1, l2, l3, dyn_index0, dyn_index1, rs })
    }

    /// Stamps the diode into `m`.
    pub fn stamp(&self, m: &mut MnaSystem)
        requires
            old(m).wf(),
            self.fits(old(m)@),
        ensures
            final(m).wf(),
            final(m)@ == self.stamped(old(m)@),
    {
        let (l0, l1, l2, l3) = (self.l0, self.l1, self.l2, self.l3);
        m.stamp_static(Term { param: None, factor: -1 }, l3, l0, "-1");
        m.stamp_static(Term { param: None, factor: 1 }, l3, l1, "+1");
        m.stamp_static(Term { param: None, factor: 1 }, l3, l2, "+1");
        m.stamp_static(Term { param: None, factor: 1 }, l0, l3, "+1");
        m.stamp_static(Term { param: None, factor: -1 }, l1, l3, "-1");
        m.stamp_static(Term { param: None, factor: -1 }, l2, l3, "-1");
        m.stamp_static(Term { param: Some(self.rs), factor: 1 }, l3, l3, "rs:pn");
        m.add_dynamic_a(l2, l2, self.dyn_index0, "gm:D");
        m.add_dynamic_b(l2, self.dyn_index1, pair_text("i0:D:", l0, l1).as_str());
        m.set_node(l2, NodeInfo::new_voltage_with_name(pair_text("v:D:", l0, l1).as_str()));
        m.set_node(l3, NodeInfo::new_current(pair_text("i:D:", l0, l1).as_str()));
    }
}

/// The polarity of a bipolar transistor.
#[derive(Debug, Clone, Copy, PartialEq, Eq, Structural)]
pub enum TransistorType {
    NPN,
    PNP,
}

/// A bipolar transistor in the Ebers-Moll injection form, with pins
/// `pin = [base, collector, emitter]`. It owns four nets:
/// `l[0]` and `l[1]` are the base-collector and base-emitter junction
/// voltages, `l[2]` and `l[3]` the junction currents. Four dynamic slots
/// carry each junction's linearized conductance and current. Parameters:
/// `ar` and `af` hold the reverse and forward alphas, `one_minus_ar` and
/// `one_minus_af` their complements to one, `rsbc` and `rsbe` the
/// junction series resistances.
#[derive(Debug)]
pub struct BJT {
    pub pin: [usize; 3],
    pub l: [usize; 4],
    pub dyn_pnc_ieq: usize,
    pub dyn_pnc_geq: usize,
    pub dyn_pne_ieq: usize,
    pub dyn_pne_geq: usize,
    pub ar: usize,
    pub af: usize,
    pub one_minus_ar: usize,
    pub one_minus_af: usize,
    pub rsbc: usize,
    pub rsbe: usize,
    pub transistor_type: TransistorType,
}

impl BJT {
    /// The system after the reservations that a new BJT makes on `m`.
    pub open spec fn reserved(m: SystemModel) -> SystemModel {
        with_params(with_dynamic(with_net(with_net(with_net(with_net(m)))), 4), 6)
    }

    /// The fields that construction on `m` gives: the pins asked for, and
    /// the first rows and pool slots that `m` hands out.
    pub open spec fn placed(&self, m: SystemModel, b: usize, c: usize, e: usize, transistor_type: TransistorType) -> bool {
        &&& self.pin[0] == b && self.pin[1] == c && self.pin[2] == e
        &&& self.l[0] == m.size() && self.l[1] == m.size() + 1
        &&& self.l[2] == m.size() + 2 && self.l[3] == m.size() + 3
        &&& self.dyn_pnc_ieq == m.n_dynamic && self.dyn_pnc_geq == m.n_dynamic + 1
        &&& self.dyn_pne_ieq == m.n_dynamic + 2 && self.dyn_pne_geq == m.n_dynamic + 3
        &&& self.ar == m.n_params && self.af == m.n_params + 1
        &&& self.one_minus_ar == m.n_params + 2 && self.one_minus_af == m.n_params + 3
        &&& self.rsbc == m.n_params + 4 && self.rsbe == m.n_params + 5
        &&& self.transistor_type == transistor_type
    }

    pub open spec fn fits(&self, m: SystemModel) -> bool {
        &&& forall|i: int| 0 <= i < 3 ==> #[trigger] self.pin[i] < m.size()
        &&& forall|i: int| 0 <= i < 4 ==> #[trigger] self.l[i] < m.size()
        &&& self.dyn_pnc_ieq < m.n_dynamic
        &&& self.dyn_pnc_geq < m.n_dynamic
        &&& self.dyn_pne_ieq < m.n_dynamic
        &&& self.dyn_pne_geq < m.n_dynamic
        &&& self.ar < m.n_params
        &&& self.af < m.n_params
        &&& self.one_minus_ar < m.n_params
        &&& self.one_minus_af < m.n_params
        &&& self.rsbc < m.n_params
        &&& self.rsbe < m.n_params
    }

    /// The junction-to-current couplings, whose signs are the only
    /// difference between NPN and PNP.
    pub open spec fn junction_couplings(&self, m: SystemModel) -> SystemModel {
        let (l0, l1, l2, l3) = (self.l[0] as int, self.l[1] as int, self.l[2] as int, self.l[3] as int);
        if self.transistor_type == TransistorType::PNP {
            m.stamp_static(unit(-1), l2, l0, "-1"@).stamp_static(unit(1), l0, l2, "+1"@).stamp_static(
                unit(-1),
                l3,
                l1,
                "-1"@,
            ).stamp_static(unit(1), l1, l3, "+1"@)
        } else {
            m.stamp_static(unit(1), l2, l0, "+1"@).stamp_static(unit(-1), l0, l2, "-1"@).stamp_static(
                unit(1),
                l3,
                l1,
                "+1"@,
            ).stamp_static(unit(-1), l1, l3, "-1"@)
        }
    }

    /// The static part of the seven-by-seven stamp on
    /// `B, C, E, l[0], l[1], l[2], l[3]`.
    pub open spec fn static_part(&self, m: SystemModel) -> SystemModel {
        let (b, c, e) = (self.pin[0] as int, self.pin[1] as int, self.pin[2] as int);
        let (l2, l3) = (self.l[2] as int, self.l[3] as int);
        let m1 = m.stamp_static(scaled(self.one_minus_ar, 1), b, l2, "1-ar"@).stamp_static(
            scaled(self.one_minus_af, 1),
            b,
            l3,
            "1-af"@,
        ).stamp_static(unit(-1), c, l2, "-1"@).stamp_static(unit(-1), e, l3, "-1"@).stamp_static(
            scaled(self.rsbc, 1),
            l2,
            l2,
            "rsbc"@,
        ).stamp_static(scaled(self.rsbe, 1), l3, l3, "rsbe"@);
        self.junction_couplings(m1).stamp_static(unit(-1), l2, b, "-1"@).stamp_static(
            unit(1),
            l2,
            c,
            "+1"@,
        ).stamp_static(unit(-1), l3, b, "-1"@).stamp_static(unit(1), l3, e, "+1"@).stamp_static(
            scaled(self.ar, 1),
            e,
            l2,
            "+ar"@,
        ).stamp_static(scaled(self.af, 1), c, l3, "+af"@)
    }

    /// The name of one of the transistor's rows:
    /// `{prefix}{base},{collector},{emitter}{suffix}`.
    pub open spec fn row_name(&self, prefix: Seq<char>, suffix: Seq<char>) -> Seq<char> {
        crate::text::triple_name(
            prefix,
            self.pin[0] as nat,
            self.pin[1] as nat,
            self.pin[2] as nat,
            suffix,
        )
    }

    /// The whole stamp: the static part, the two junctions' dynamic slots,
    /// and the metadata of the four internal rows.
    pub open spec fn stamped(&self, m: SystemModel) -> SystemModel {
        let pnp = self.transistor_type == TransistorType::PNP;
        let (l0, l1, l2, l3) = (self.l[0] as int, self.l[1] as int, self.l[2] as int, self.l[3] as int);
        self.static_part(m).add_dynamic_a(l0, l0, self.dyn_pnc_geq, "gm:Qbc"@).add_dynamic_b(
            l0,
            self.dyn_pnc_ieq,
            self.row_name("i0:Q:"@, ":cb"@),
        ).add_dynamic_a(l1, l1, self.dyn_pne_geq, "gm:Qbe"@).add_dynamic_b(
            l1,
            self.dyn_pne_ieq,
            self.row_name("i0:Q:"@, ":eb"@),
        ).with_node(
            l0,
            NodeModel {
                info_type: InfoType::Voltage,
                scale: None,
                name: self.row_name("v:Q:"@, if pnp { ":cb"@ } else { ":bc"@ }),
            },
        ).with_node(
            l1,
            NodeModel {
                info_type: InfoType::Voltage,
                scale: None,
                name: self.row_name("v:Q:"@, if pnp { ":eb"@ } else { ":be"@ }),
            },
        ).with_node(
            l2,
            NodeModel {
                info_type: InfoType::Current,
                scale: Some(self.one_minus_ar),
                name: self.row_name("i:Q:"@, ":bc"@),
            },
        ).with_node(
            l3,
            NodeModel {
                info_type: InfoType::Current,
                scale: Some(self.one_minus_af),
                name: self.row_name("i:Q:"@, ":be"@),
            },
        )
    }

    /// A transistor on three existing nodes. It reserves its four nets, four
    /// dynamic slots and six parameter slots. The system refuses a pin that
    /// is not one of its rows, and is then left as it was.
    pub fn new(
        m: &mut MnaSystem,
        b: usize,
        c: usize,
        e: usize,
        transistor_type: TransistorType,
    ) -> (r: Option<BJT>)
        requires
            old(m).wf(),
            old(m)@.size() + 4 <= usize::MAX,
            old(m)@.n_dynamic + 4 <= usize::MAX,
            old(m)@.n_params + 6 <= usize::MAX,
        ensures
            final(m).wf(),
            r.is_some() <==> (b < old(m)@.size() && c < old(m)@.size() && e < old(m)@.size()),
            r.is_none() ==> final(m)@ == old(m)@,
            r matches Some(d) ==> {
                &&& final(m)@ == Self::reserved(old(m)@)
                &&& d.placed(old(m)@, b, c, e, transistor_type)
                &&& d.fits(final(m)@)
            },
    {
        if b >= m.net_size || c >= m.net_size || e >= m.net_size {
            return None;
        }
        let l0 = m.reserve();
        let l1 = m.reserve();
        let l2 = m.reserve();
        let l3 = m.reserve();
        let dyn_pnc_ieq = m.reserve_dynamic();
        let dyn_pnc_geq = m.reserve_dynamic();
        let dyn_pne_ieq = m.reserve_dynamic();
        let dyn_pne_geq = m.reserve_dynamic();
        let ar = m.reserve_param();
        let af = m.reserve_param();
        let one_minus_ar = m.reserve_param();
        let one_minus_af = m.reserve_param();
        let rsbc = m.reserve_param();
        let rsbe = m.reserve_param();
        Some(
            BJT {
                pin: [b, c, e],
                l: [l0, l1, l2, l3],
                dyn_pnc_ieq,
                dyn_pnc_geq,
                dyn_pne_ieq,
                dyn_pne_geq,
                ar,
                af,
                one_minus_ar,
                one_minus_af,
                rsbc,
                rsbe,
                transistor_type,
            },
        )
    }

    fn stamp_junction_couplings(&self, m: &mut MnaSystem)
        requires
            old(m).wf(),
            self.fits(old(m)@),
        ensures
            final(m).wf(),
            final(m)@ == self.junction_couplings(old(m)@),
    {
        let (l0, l1, l2, l3) = (self.l[0], self.l[1], self.l[2], self.l[3]);
        if self.transistor_type == TransistorType::PNP {
            m.stamp_static(Term { param: None, factor: -1 }, l2, l0, "-1");
            m.stamp_static(Term { param: None, factor: 1 }, l0, l2, "+1");
            m.stamp_static(Term { param: None, factor: -1 }, l3, l1, "-1");
            m.stamp_static(Term { param: None, factor: 1 }, l1, l3, "+1");
        } else {
            m.stamp_static(Term { param: None, factor: 1 }, l2, l0, "+1");
            m.stamp_static(Term { param: None, factor: -1 }, l0, l2, "-1");
            m.stamp_static(Term { param: None, factor: 1 }, l3, l1, "+1");
            m.stamp_static(Term { param: None, factor: -1 }, l1, l3, "-1");
        }
    }

    fn stamp_static_part(&self, m: &mut MnaSystem)
        requires
            old(m).wf(),
            self.fits(old(m)@),
        ensures
            final(m).wf(),
            final(m)@ == self.static_part(old(m)@),
    {
        let (b, c, e) = (self.pin[0], self.pin[1], self.pin[2]);
        let (l2, l3) = (self.l[2], self.l[3]);
        // diode currents to the external base
        m.stamp_static(Term { param: Some(self.one_minus_ar), factor: 1 }, b, l2, "1-ar");
        m.stamp_static(Term { param: Some(self.one_minus_af), factor: 1 }, b, l3, "1-af");
        // diode currents to the external collector and emitter
        m.stamp_static(Term { param: None, factor: -1 }, c, l2, "-1");
        m.stamp_static(Term { param: None, factor: -1 }, e, l3, "-1");
        // series resistances
        m.stamp_static(Term { param: Some(self.rsbc), factor: 1 }, l2, l2, "rsbc");
        m.stamp_static(Term { param: Some(self.rsbe), factor: 1 }, l3, l3, "rsbe");
        self.stamp_junction_couplings(m);
        // external voltages to the junction currents
        m.stamp_static(Term { param: None, factor: -1 }, l2, b, "-1");
        m.stamp_static(Term { param: None, factor: 1 }, l2, c, "+1");
        m.stamp_static(Term { param: None, factor: -1 }, l3, b, "-1");
        m.stamp_static(Term { param: None, factor: 1 }, l3, e, "+1");
        // transfer currents to the external pins
        m.stamp_static(Term { param: Some(self.ar), factor: 1 }, e, l2, "+ar");
        m.stamp_static(Term { param: Some(self.af), factor: 1 }, c, l3, "+af");
    }

    /// Stamps the transistor into `m`.
    pub fn stamp(&self, m: &mut MnaSystem)
        requires
            old(m).wf(),
            self.fits(old(m)@),
        ensures
            final(m).wf(),
            final(m)@ == self.stamped(old(m)@),
    {
        let pnp = self.transistor_type == TransistorType::PNP;
        let (b, c, e) = (self.pin[0], self.pin[1], self.pin[2]);
        let (l0, l1, l2, l3) = (self.l[0], self.l[1], self.l[2], self.l[3]);
        self.stamp_static_part(m);
        m.add_dynamic_a(l0, l0, self.dyn_pnc_geq, "gm:Qbc");
        m.add_dynamic_b(l0, self.dyn_pnc_ieq, triple_text("i0:Q:", b, c, e, ":cb").as_str());
        m.add_dynamic_a(l1, l1, self.dyn_pne_geq, "gm:Qbe");
        m.add_dynamic_b(l1, self.dyn_pne_ieq, triple_text("i0:Q:", b, c, e, ":eb").as_str());
        let bc_name = if pnp { triple_text("v:Q:", b, c, e, ":cb") } else { triple_text("v:Q:", b, c, e, ":bc") };
        let be_name = if pnp { triple_text("v:Q:", b, c, e, ":eb") } else { triple_text("v:Q:", b, c, e, ":be") };
        m.set_node(l0, NodeInfo::new_voltage_with_name(bc_name.as_str()));
        m.set_node(l1, NodeInfo::new_voltage_with_name(be_name.as_str()));
        m.set_node(
            l2,
            NodeInfo::new_current_with_scale(triple_text("i:Q:", b, c, e, ":bc").as_str(), self.one_minus_ar),
        );
        m.set_node(
            l3,
            NodeInfo::new_current_with_scale(triple_text("i:Q:", b, c, e, ":be").as_str(), self.one_minus_af),
        );
    }
}

} // verus!
