use vstd::prelude::*;

use crate::devices::{
    Capacitor,
    Diode,
    Resistor,
    TransistorType,
    VoltageFunction,
    VoltageProbe,
    VoltageSource,
    BJT,
};
use crate::system::{empty_system, MnaSystem, SystemModel};

verus! {

/// Any device of the library.
#[derive(Debug)]
pub enum Device {
    Resistor(Resistor),
    Capacitor(Capacitor),
    VoltageSource(VoltageSource),
    VoltageProbe(VoltageProbe),
    VoltageFunction(VoltageFunction),
    Diode(Diode),
    BJT(BJT),
}

impl Device {
    /// The device refers to rows and slots that exist in `m`.
    pub open spec fn fits(&self, m: SystemModel) -> bool {
        match self {
            Device::Resistor(d) => d.fits(m),
            Device::Capacitor(d) => d.fits(m),
            Device::VoltageSource(d) => d.fits(m),
            Device::VoltageProbe(d) => d.fits(m),
            Device::VoltageFunction(d) => d.fits(m),
            Device::Diode(d) => d.fits(m),
            Device::BJT(d) => d.fits(m),
        }
    }

    /// `m` with the device's stamp added.
    pub open spec fn stamped(&self, m: SystemModel) -> SystemModel {
        match self {
            Device::Resistor(d) => d.stamped(m),
            Device::Capacitor(d) => d.stamped(m),
            Device::VoltageSource(d) => d.stamped(m),
            Device::VoltageProbe(d) => d.stamped(m),
            Device::VoltageFunction(d) => d.stamped(m),
            Device::Diode(d) => d.stamped(m),
            Device::BJT(d) => d.stamped(m),
        }
    }

    /// Stamps the device into `m`.
    pub fn stamp(&self, m: &mut MnaSystem)
        requires
            old(m).wf(),
            self.fits(old(m)@),
        ensures
            final(m).wf(),
            final(m)@ == self.stamped(old(m)@),
            old(m)@.same_shape(final(m)@),
    {
        match self {
            Device::Resistor(d) => d.stamp(m),
            Device::Capacitor(d) => d.stamp(m),
            Device::VoltageSource(d) => d.stamp(m),
            Device::VoltageProbe(d) => d.stamp(m),
            Device::VoltageFunction(d) => d.stamp(m),
            Device::Diode(d) => d.stamp(m),
            Device::BJT(d) => d.stamp(m),
        }
    }
}

/// A device that fits a system fits every system with at least its rows
/// and pool slots.
pub proof fn lemma_fits_grow(d: &Device, m1: SystemModel, m2: SystemModel)
    requires
        d.fits(m1),
        m1.within(m2),
    ensures
        d.fits(m2),
{
}

/// A circuit under construction: the system and the devices stamped into
/// it, in the order they were added.
#[derive(Debug)]
pub struct Netlist {
    pub system: MnaSystem,
    pub devices: Vec<Device>,
}

impl Netlist {
    pub open spec fn wf(&self) -> bool {
        &&& self.system.wf()
        &&& forall|i: int| 0 <= i < self.devices@.len() ==> (#[trigger] self.devices@[i]).fits(self.system@)
    }

    /// A circuit of `n` nodes (node 0 is ground) and no devices.
    pub fn new(n: usize) -> (r: Netlist)
        ensures
            r.wf(),
            r.system@ == empty_system().resized(n as nat),
            r.devices@.len() == 0,
    {
        let mut system = MnaSystem::new();
        system.set_size(n);
        Netlist { system, devices: Vec::new() }
    }

    /// Records a device that was just built against the system (which grew
    /// from `before` to its present state) and stamps it.
    fn push_device(&mut self, d: Device, Ghost(before): Ghost<SystemModel>) -> (i: usize)
        requires
            old(self).system.wf(),
            forall|k: int|
                0 <= k < old(self).devices@.len() ==> (#[trigger] old(self).devices@[k]).fits(before),
            before.within(old(self).system@),
            d.fits(old(self).system@),
        ensures
            final(self).wf(),
            i == old(self).devices@.len(),
            final(self).devices@ == old(self).devices@.push(d),
            final(self).system@ == d.stamped(old(self).system@),
    {
        let ghost grown = self.system@;
        d.stamp(&mut self.system);
        let i = self.devices.len();
        self.devices.push(d);
        proof {
            assert forall|k: int| 0 <= k < self.devices@.len() implies (
            #[trigger] self.devices@[k]).fits(self.system@) by {
                if k < i {
                    lemma_fits_grow(&self.devices@[k], before, self.system@);
                }
            }
        }
        i
    }
    /// Adds a resistor between nodes `a` and `b`, whose resistance reads
    /// `value_text` in labels, and stamps it. Returns the device's position in
    /// `devices`. A pin that is not a row of the system is refused, and the
    /// circuit is then left as it was.
    pub fn add_resistor(&mut self, a: usize, b: usize, value_text: &str) -> (r: Option<usize>)
        requires
            old(self).wf(),
            old(self).system@.n_params < usize::MAX,
        ensures
            final(self).wf(),
            r.is_some() <==> (a < old(self).system@.size() && b < old(self).system@.size()),
            r.is_none() ==> final(self).system@ == old(self).system@ && final(self).devices@ == old(self).devices@,
            r matches Some(i) ==> {
                let d = final(self).devices@[i as int];
                &&& i == old(self).devices@.len()
                &&& final(self).devices@ == old(self).devices@.push(d)
                &&& d matches Device::Resistor(x) && x.placed(old(self).system@, a, b, value_text@)
                &&& final(self).system@ == d.stamped(Resistor::reserved(old(self).system@))
            },
    {
        let ghost before = self.system@;
        match Resistor::new(&mut self.system, value_text, a, b) {
            None => None,
            Some(d) => Some(self.push_device(Device::Resistor(d), Ghost(before))),
        }
    }

    /// Adds a capacitor between nodes `a` and `b`, whose capacitance reads
    /// `value_text` in labels, and stamps it. Returns the device's position in
    /// `devices`. A pin that is not a row of the system is refused, and the
    /// circuit is then left as it was.
    pub fn add_capacitor(&mut self, a: usize, b: usize, value_text: &str) -> (r: Option<usize>)
        requires
            old(self).wf(),
            old(self).system@.size() < usize::MAX,
            old(self).system@.n_dynamic < usize::MAX,
            old(self).system@.n_params + 2 <= usize::MAX,
        ensures
            final(self).wf(),
            r.is_some() <==> (a < old(self).system@.size() && b < old(self).system@.size()),
            r.is_none() ==> final(self).system@ == old(self).system@ && final(self).devices@ == old(self).devices@,
            r matches Some(i) ==> {
                let d = final(self).devices@[i as int];
                &&& i == old(self).devices@.len()
                &&& final(self).devices@ == old(self).devices@.push(d)
                &&& d matches Device::Capacitor(x) && x.placed(old(self).system@, a, b, value_text@)
                &&& final(self).system@ == d.stamped(Capacitor::reserved(old(self).system@))
            },
    {
        let ghost before = self.system@;
        match Capacitor::new(&mut self.system, value_text, a, b) {
            None => None,
            Some(d) => Some(self.push_device(Device::Capacitor(d), Ghost(before))),
        }
    }

    /// Adds an ideal voltage source from node `a` to node `b`, whose voltage
    /// reads `value_text` in labels, and stamps it. Returns the device's
    /// position in `devices`. A pin that is not a row of the system is refused,
    /// and the circuit is then left as it was.
    pub fn add_voltage_source(&mut self, a: usize, b: usize, value_text: &str) -> (r: Option<usize>)
        requires
            old(self).wf(),
            old(self).system@.size() < usize::MAX,
            old(self).system@.n_params < usize::MAX,
        ensures
            final(self).wf(),
            r.is_some() <==> (a < old(self).system@.size() && b < old(self).system@.size()),
            r.is_none() ==> final(self).system@ == old(self).system@ && final(self).devices@ == old(self).devices@,
            r matches Some(i) ==> {
                let d = final(self).devices@[i as int];
                &&& i == old(self).devices@.len()
                &&& final(self).devices@ == old(self).devices@.push(d)
                &&& d matches Device::VoltageSource(x) && x.placed(old(self).system@, a, b, value_text@)
                &&& final(self).system@ == d.stamped(VoltageSource::reserved(old(self).system@))
            },
    {
        let ghost before = self.system@;
        match VoltageSource::new(&mut self.system, value_text, a, b) {
            None => None,
            Some(d) => Some(self.push_device(Device::VoltageSource(d), Ghost(before))),
        }
    }

    /// Adds a probe of the voltage from node `a` to node `b` and stamps it.
    /// Returns the device's position in `devices`. A pin that is not a row of
    /// the system is refused, and the circuit is then left as it was.
    pub fn add_voltage_probe(&mut self, a: usize, b: usize) -> (r: Option<usize>)
        requires
            old(self).wf(),
            old(self).system@.size() < usize::MAX,
        ensures
            final(self).wf(),
            r.is_some() <==> (a < old(self).system@.size() && b < old(self).system@.size()),
            r.is_none() ==> final(self).system@ == old(self).system@ && final(self).devices@ == old(self).devices@,
            r matches Some(i) ==> {
                let d = final(self).devices@[i as int];
                &&& i == old(self).devices@.len()
                &&& final(self).devices@ == old(self).devices@.push(d)
                &&& d matches Device::VoltageProbe(x) && x.placed(old(self).system@, a, b)
                &&& final(self).system@ == d.stamped(VoltageProbe::reserved(old(self).system@))
            },
    {
        let ghost before = self.system@;
        match VoltageProbe::new(&mut self.system, a, b) {
            None => None,
            Some(d) => Some(self.push_device(Device::VoltageProbe(d), Ghost(before))),
        }
    }

    /// Adds a voltage source from node `a` to node `b` whose voltage follows a
    /// function of time, and stamps it. Returns the device's position in
    /// `devices`. A pin that is not a row of the system is refused, and the
    /// circuit is then left as it was.
    pub fn add_voltage_function(&mut self, a: usize, b: usize) -> (r: Option<usize>)
        requires
            old(self).wf(),
            old(self).system@.size() < usize::MAX,
            old(self).system@.n_dynamic < usize::MAX,
        ensures
            final(self).wf(),
            r.is_some() <==> (a < old(self).system@.size() && b < old(self).system@.size()),
            r.is_none() ==> final(self).system@ == old(self).system@ && final(self).devices@ == old(self).devices@,
            r matches Some(i) ==> {
                let d = final(self).devices@[i as int];
                &&& i == old(self).devices@.len()
                &&& final(self).devices@ == old(self).devices@.push(d)
                &&& d matches Device::VoltageFunction(x) && x.placed(old(self).system@, a, b)
                &&& final(self).system@ == d.stamped(VoltageFunction::reserved(old(self).system@))
            },
    {
        let ghost before = self.system@;
        match VoltageFunction::new(&mut self.system, a, b) {
            None => None,
            Some(d) => Some(self.push_device(Device::VoltageFunction(d), Ghost(before))),
        }
    }

    /// Adds a diode from node `anode` to node `cathode` and stamps it. Returns
    /// the device's position in `devices`. A pin that is not a row of the
    /// system is refused, and the circuit is then left as it was.
    pub fn add_diode(&mut self, anode: usize, cathode: usize) -> (r: Option<usize>)
        requires
            old(self).wf(),
            old(self).system@.size() + 2 <= usize::MAX,
            old(self).system@.n_dynamic + 2 <= usize::MAX,
            old(self).system@.n_params < usize::MAX,
        ensures
            final(self).wf(),
            r.is_some() <==> (anode < old(self).system@.size() && cathode < old(self).system@.size()),
            r.is_none() ==> final(self).system@ == old(self).system@ && final(self).devices@ == old(self).devices@,
            r matches Some(i) ==> {
                let d = final(self).devices@[i as int];
                &&& i == old(self).devices@.len()
                &&& final(self).devices@ == old(self).devices@.push(d)
                &&& d matches Device::Diode(x) && x.placed(old(self).system@, anode, cathode)
                &&& final(self).system@ == d.stamped(Diode::reserved(old(self).system@))
            },
    {
        let ghost before = self.system@;
        match Diode::new(&mut self.system, anode, cathode) {
            None => None,
            Some(d) => Some(self.push_device(Device::Diode(d), Ghost(before))),
        }
    }

    /// Adds a bipolar transistor of the given polarity on nodes `base`,
    /// `collector` and `emitter`, and stamps it. Returns the device's position
    /// in `devices`. A pin that is not a row of the system is refused, and the
    /// circuit is then left as it was.
    pub fn add_bjt(&mut self, transistor_type: TransistorType, base: usize, collector: usize, emitter: usize) -> (r: Option<usize>)
        requires
            old(self).wf(),
            old(self).system@.size() + 4 <= usize::MAX,
            old(self).system@.n_dynamic + 4 <= usize::MAX,
            old(self).system@.n_params + 6 <= usize::MAX,
        ensures
            final(self).wf(),
            r.is_some() <==> (base < old(self).system@.size() && collector < old(self).system@.size() && emitter < old(self).system@.size()),
            r.is_none() ==> final(self).system@ == old(self).system@ && final(self).devices@ == old(self).devices@,
            r matches Some(i) ==> {
                let d = final(self).devices@[i as int];
                &&& i == old(self).devices@.len()
                &&& final(self).devices@ == old(self).devices@.push(d)
                &&& d matches Device::BJT(x) && x.placed(old(self).system@, base, collector, emitter, transistor_type)
                &&& final(self).system@ == d.stamped(BJT::reserved(old(self).system@))
            },
    {
        let ghost before = self.system@;
        match BJT::new(&mut self.system, base, collector, emitter, transistor_type) {
            None => None,
            Some(d) => Some(self.push_device(Device::BJT(d), Ghost(before))),
        }
    }
}

} // verus!
