use vstd::prelude::*;

use crate::text::{decimal, with_decimal};

verus! {

/// One contribution to a matrix or vector entry: `factor` times a value of
/// the parameter pool, or `factor` alone when `param` is `None`.
///
/// Parameter values (conductances, capacitances, source voltages) are real
/// numbers that the numeric side of the simulator keeps; the system only
/// records where each one enters the equations.
#[derive(Clone, Copy, Debug)]
pub struct Term {
    pub param: Option<usize>,
    pub factor: i64,
}

/// A term that is the constant `factor`.
pub open spec fn unit(factor: int) -> Term {
    Term { param: None, factor: factor as i64 }
}

/// A term that is `factor` times parameter `p`.
pub open spec fn scaled(p: usize, factor: int) -> Term {
    Term { param: Some(p), factor: factor as i64 }
}

pub open spec fn term_in_range(t: Term, n_params: nat) -> bool {
    match t.param {
        Some(p) => p < n_params,
        None => true,
    }
}

/// What a row of the solution vector holds.
#[derive(Clone, Copy, Debug, PartialEq, Eq, Structural)]
pub enum InfoType {
    Voltage,
    Current,
}

/// Display metadata of one row: its kind, an optional scale factor taken
/// from the parameter pool (`None` reads as 1) and a name.
#[derive(Debug)]
pub struct NodeInfo {
    pub info_type: InfoType,
    pub scale: Option<usize>,
    pub name: String,
}

pub struct NodeModel {
    pub info_type: InfoType,
    pub scale: Option<usize>,
    pub name: Seq<char>,
}

impl View for NodeInfo {
    type V = NodeModel;

    open spec fn view(&self) -> NodeModel {
        NodeModel { info_type: self.info_type, scale: self.scale, name: self.name@ }
    }
}

/// The name that a row has before any component renames it.
pub open spec fn default_node_name(n: nat) -> Seq<char> {
    "v"@ + decimal(n)
}

pub open spec fn default_node(n: nat) -> NodeModel {
    NodeModel { info_type: InfoType::Voltage, scale: None, name: default_node_name(n) }
}

impl NodeInfo {
    /// A voltage row with the default name of row `n`.
    pub fn new_voltage(n: usize) -> (r: NodeInfo)
        ensures
            r@ == default_node(n as nat),
    {
        NodeInfo { info_type: InfoType::Voltage, scale: None, name: with_decimal("v", n) }
    }

    pub fn new_voltage_with_name(name: &str) -> (r: NodeInfo)
        ensures
            r@ == (NodeModel { info_type: InfoType::Voltage, scale: None, name: name@ }),
    {
        NodeInfo { info_type: InfoType::Voltage, scale: None, name: String::from_str(name) }
    }

    pub fn new_voltage_with_name_and_scale(name: &str, scale: usize) -> (r: NodeInfo)
        ensures
            r@ == (NodeModel { info_type: InfoType::Voltage, scale: Some(scale), name: name@ }),
    {
        NodeInfo { info_type: InfoType::Voltage, scale: Some(scale), name: String::from_str(name) }
    }

    pub fn new_current(name: &str) -> (r: NodeInfo)
        ensures
            r@ == (NodeModel { info_type: InfoType::Current, scale: None, name: name@ }),
    {
        NodeInfo { info_type: InfoType::Current, scale: None, name: String::from_str(name) }
    }

    pub fn new_current_with_scale(name: &str, scale: usize) -> (r: NodeInfo)
        ensures
            r@ == (NodeModel { info_type: InfoType::Current, scale: Some(scale), name: name@ }),
    {
        NodeInfo { info_type: InfoType::Current, scale: Some(scale), name: String::from_str(name) }
    }
}

/// One entry of the matrix or of the right-hand side: its static terms, its
/// terms per unit of time (multiplied by the step scale `1/dt`), the dynamic
/// pool slots added to it, and a debug label.
#[derive(Debug)]
pub struct Cell {
    pub fixed: Vec<Term>,
    pub timed: Vec<Term>,
    pub dyn_refs: Vec<usize>,
    pub label: String,
}

pub struct CellModel {
    pub fixed: Seq<Term>,
    pub timed: Seq<Term>,
    pub dyn_refs: Seq<usize>,
    pub label: Seq<char>,
}

impl View for Cell {
    type V = CellModel;

    open spec fn view(&self) -> CellModel {
        CellModel {
            fixed: self.fixed@,
            timed: self.timed@,
            dyn_refs: self.dyn_refs@,
            label: self.label@,
        }
    }
}

pub open spec fn empty_cell() -> CellModel {
    CellModel { fixed: seq![], timed: seq![], dyn_refs: seq![], label: seq![] }
}

impl CellModel {
    /// Every index the cell holds points into pools of the given sizes.
    pub open spec fn in_range(self, n_params: nat, n_dynamic: nat) -> bool {
        &&& forall|i: int| 0 <= i < self.fixed.len() ==> term_in_range(#[trigger] self.fixed[i], n_params)
        &&& forall|i: int| 0 <= i < self.timed.len() ==> term_in_range(#[trigger] self.timed[i], n_params)
        &&& forall|i: int| 0 <= i < self.dyn_refs.len() ==> #[trigger] self.dyn_refs[i] < n_dynamic
    }

    pub open spec fn add_fixed(self, t: Term, label: Seq<char>) -> CellModel {
        CellModel { fixed: self.fixed.push(t), label: self.label + label, ..self }
    }

    pub open spec fn add_timed(self, t: Term, label: Seq<char>) -> CellModel {
        CellModel { timed: self.timed.push(t), label: self.label + label, ..self }
    }

    /// A dynamic slot is added and the label replaced by the slot's own.
    pub open spec fn add_dyn(self, index: usize, label: Seq<char>) -> CellModel {
        CellModel { dyn_refs: self.dyn_refs.push(index), label, ..self }
    }
}

impl Cell {
    pub fn new() -> (r: Cell)
        ensures
            r@ == empty_cell(),
    {
        Cell { fixed: Vec::new(), timed: Vec::new(), dyn_refs: Vec::new(), label: String::new() }
    }
}

/// The abstract content of a system: `a` is the square matrix, `b` the
/// right-hand side, `nodes` the row metadata; `n_params` and `n_dynamic`
/// are the sizes of the parameter pool and of the dynamic pool.
pub struct SystemModel {
    pub a: Seq<Seq<CellModel>>,
    pub b: Seq<CellModel>,
    pub nodes: Seq<NodeModel>,
    pub n_params: nat,
    pub n_dynamic: nat,
}

/// A system with no rows and empty pools.
pub open spec fn empty_system() -> SystemModel {
    SystemModel { a: seq![], b: seq![], nodes: seq![], n_params: 0, n_dynamic: 0 }
}

impl SystemModel {
    pub open spec fn size(self) -> nat {
        self.nodes.len()
    }

    /// `other` has at least the rows and pool slots of `self`.
    pub open spec fn within(self, other: SystemModel) -> bool {
        &&& self.size() <= other.size()
        &&& self.n_params <= other.n_params
        &&& self.n_dynamic <= other.n_dynamic
    }

    /// `other` has exactly the rows and pool slots of `self`.
    pub open spec fn same_shape(self, other: SystemModel) -> bool {
        &&& self.size() == other.size()
        &&& self.n_params == other.n_params
        &&& self.n_dynamic == other.n_dynamic
    }

    pub open spec fn wf(self) -> bool {
        &&& self.a.len() == self.size()
        &&& self.b.len() == self.size()
        &&& forall|r: int| 0 <= r < self.size() ==> (#[trigger] self.a[r]).len() == self.size()
        &&& forall|r: int, c: int|
            0 <= r < self.size() && 0 <= c < self.size() ==> (#[trigger] self.a[r][c]).in_range(
                self.n_params,
                self.n_dynamic,
            )
        &&& forall|r: int| 0 <= r < self.size() ==> (#[trigger] self.b[r]).in_range(self.n_params, self.n_dynamic)
        &&& forall|r: int| 0 <= r < self.size() ==> match (#[trigger] self.nodes[r]).scale {
            Some(p) => p < self.n_params,
            None => true,
        }
    }

    /// The system grown or cut to `n` rows: kept entries stay, new ones are
    /// empty, new rows get default metadata.
    pub open spec fn resized(self, n: nat) -> SystemModel {
        SystemModel {
            a: Seq::new(
                n,
                |r: int|
                    Seq::new(
                        n,
                        |c: int|
                            if r < self.size() && c < self.size() {
                                self.a[r][c]
                            } else {
                                empty_cell()
                            },
                    ),
            ),
            b: Seq::new(n, |r: int| if r < self.size() { self.b[r] } else { empty_cell() }),
            nodes: Seq::new(n, |r: int| if r < self.size() { self.nodes[r] } else { default_node(r as nat) }),
            ..self
        }
    }

    pub open spec fn with_a(self, r: int, c: int, cell: CellModel) -> SystemModel {
        SystemModel { a: self.a.update(r, self.a[r].update(c, cell)), ..self }
    }

    pub open spec fn with_b(self, r: int, cell: CellModel) -> SystemModel {
        SystemModel { b: self.b.update(r, cell), ..self }
    }

    pub open spec fn stamp_static(self, t: Term, r: int, c: int, label: Seq<char>) -> SystemModel {
        self.with_a(r, c, self.a[r][c].add_fixed(t, label))
    }

    pub open spec fn stamp_timed(self, t: Term, r: int, c: int, label: Seq<char>) -> SystemModel {
        self.with_a(r, c, self.a[r][c].add_timed(t, label))
    }

    pub open spec fn stamp_b_static(self, t: Term, r: int, label: Seq<char>) -> SystemModel {
        self.with_b(r, self.b[r].add_fixed(t, label))
    }

    pub open spec fn add_dynamic_a(self, r: int, c: int, index: usize, label: Seq<char>) -> SystemModel {
        self.with_a(r, c, self.a[r][c].add_dyn(index, label))
    }

    pub open spec fn add_dynamic_b(self, r: int, index: usize, label: Seq<char>) -> SystemModel {
        self.with_b(r, self.b[r].add_dyn(index, label))
    }

    pub open spec fn with_node(self, r: int, info: NodeModel) -> SystemModel {
        SystemModel { nodes: self.nodes.update(r, info), ..self }
    }
}

/// The system `A x = b` of modified nodal analysis, as far as its structure
/// goes: which terms and dynamic slots enter each entry, how many rows it
/// has, and how large the two value pools are.
///
/// Row 0 is ground. Rows beyond the circuit's nodes are nets reserved by
/// components. Components refer to rows and pool slots by index only.
#[derive(Debug)]
pub struct MnaSystem {
    pub nodes: Vec<NodeInfo>,
    pub a_matrix: Vec<Vec<Cell>>,
    pub b: Vec<Cell>,
    pub net_size: usize,
    pub n_params: usize,
    pub n_dynamic: usize,
}

impl View for MnaSystem {
    type V = SystemModel;

    open spec fn view(&self) -> SystemModel {
        SystemModel {
            a: self.a_matrix@.map_values(|row: Vec<Cell>| row@.map_values(|c: Cell| c@)),
            b: self.b@.map_values(|c: Cell| c@),
            nodes: self.nodes@.map_values(|n: NodeInfo| n@),
            n_params: self.n_params as nat,
            n_dynamic: self.n_dynamic as nat,
        }
    }
}

/// Cuts or extends a row to `n` entries; new entries are empty.
fn resize_row(row: &mut Vec<Cell>, n: usize)
    ensures
        final(row)@.len() == n,
        forall|c: int|
            0 <= c < n ==> (#[trigger] final(row)@[c])@ == if c < old(row)@.len() {
                old(row)@[c]@
            } else {
                empty_cell()
            },
{
    row.truncate(n);
    while row.len() < n
        invariant
            row@.len() <= n,
            n <= old(row)@.len() ==> row@.len() == n,
            n > old(row)@.len() ==> row@.len() >= old(row)@.len(),
            forall|c: int|
                0 <= c < row@.len() ==> (#[trigger] row@[c])@ == if c < old(row)@.len() {
                    old(row)@[c]@
                } else {
                    empty_cell()
                },
        decreases n - row@.len(),
    {
        row.push(Cell::new());
    }
}

/// A row of `n` empty entries.
fn empty_row(n: usize) -> (row: Vec<Cell>)
    ensures
        row@.len() == n,
        forall|c: int| 0 <= c < n ==> (#[trigger] row@[c])@ == empty_cell(),
{
    let mut row: Vec<Cell> = Vec::new();
    while row.len() < n
        invariant
            row@.len() <= n,
            forall|c: int| 0 <= c < row@.len() ==> (#[trigger] row@[c])@ == empty_cell(),
        decreases n - row@.len(),
    {
        row.push(Cell::new());
    }
    row
}

impl MnaSystem {
    /// The system is square, its metadata matches its rows, and every index
    /// that an entry holds points into the pools.
    pub open spec fn wf(&self) -> bool {
        &&& self@.wf()
        &&& self.net_size == self@.size()
        &&& self.a_matrix@.len() == self.net_size
        &&& self.b@.len() == self.net_size
        &&& forall|r: int| 0 <= r < self.net_size ==> (#[trigger] self.a_matrix@[r])@.len() == self.net_size
    }

    /// An empty system.
    pub fn new() -> (r: MnaSystem)
        ensures
            r.wf(),
            r@ == empty_system(),
    {
        let r = MnaSystem {
            nodes: Vec::new(),
            a_matrix: Vec::new(),
            b: Vec::new(),
            net_size: 0,
            n_params: 0,
            n_dynamic: 0,
        };
        assert(r@.a =~= empty_system().a);
        assert(r@.b =~= empty_system().b);
        assert(r@.nodes =~= empty_system().nodes);
        r
    }

    /// Adds `t` to the static part of entry `(r, c)` and appends `label` to
    /// its label.
    pub fn stamp_static(&mut self, t: Term, r: usize, c: usize, label: &str)
        requires
            old(self).wf(),
            r < old(self)@.size(),
            c < old(self)@.size(),
            term_in_range(t, old(self)@.n_params),
        ensures
            final(self).wf(),
            final(self)@ == old(self)@.stamp_static(t, r as int, c as int, label@),
    {
        self.a_matrix[r][c].fixed.push(t);
        self.a_matrix[r][c].label.append(label);
        proof {
            let want = old(self)@.stamp_static(t, r as int, c as int, label@);
            assert(self@.a[r as int] =~= want.a[r as int]);
            assert(self@.a =~= want.a);
            assert(self@.b =~= want.b);
            assert(self@.nodes =~= want.nodes);
        }
    }
    /// Adds `t` to the per-unit-time part of entry `(r, c)` and appends
    /// `label` to its label.
    pub fn stamp_timed(&mut self, t: Term, r: usize, c: usize, label: &str)
        requires
            old(self).wf(),
            r < old(self)@.size(),
            c < old(self)@.size(),
            term_in_range(t, old(self)@.n_params),
        ensures
            final(self).wf(),
            final(self)@ == old(self)@.stamp_timed(t, r as int, c as int, label@),
    {
        self.a_matrix[r][c].timed.push(t);
        self.a_matrix[r][c].label.append(label);
        proof {
            let want = old(self)@.stamp_timed(t, r as int, c as int, label@);
            assert(self@.a[r as int] =~= want.a[r as int]);
            assert(self@.a =~= want.a);
            assert(self@.b =~= want.b);
            assert(self@.nodes =~= want.nodes);
        }
    }

    /// Adds `t` to the static part of right-hand-side entry `r` and appends
    /// `label` to its label.
    pub fn stamp_b_static(&mut self, t: Term, r: usize, label: &str)
        requires
            old(self).wf(),
            r < old(self)@.size(),
            term_in_range(t, old(self)@.n_params),
        ensures
            final(self).wf(),
            final(self)@ == old(self)@.stamp_b_static(t, r as int, label@),
    {
        self.b[r].fixed.push(t);
        self.b[r].label.append(label);
        proof {
            let want = old(self)@.stamp_b_static(t, r as int, label@);
            assert(self@.a =~= want.a);
            assert(self@.b =~= want.b);
            assert(self@.nodes =~= want.nodes);
        }
    }

    /// Makes dynamic slot `index` a contribution to entry `(r, c)`; the
    /// entry's label becomes `label`.
    pub fn add_dynamic_a(&mut self, r: usize, c: usize, index: usize, label: &str)
        requires
            old(self).wf(),
            r < old(self)@.size(),
            c < old(self)@.size(),
            index < old(self)@.n_dynamic,
        ensures
            final(self).wf(),
            final(self)@ == old(self)@.add_dynamic_a(r as int, c as int, index, label@),
    {
        self.a_matrix[r][c].dyn_refs.push(index);
        self.a_matrix[r][c].label = String::from_str(label);
        proof {
            let want = old(self)@.add_dynamic_a(r as int, c as int, index, label@);
            assert(self@.a[r as int] =~= want.a[r as int]);
            assert(self@.a =~= want.a);
            assert(self@.b =~= want.b);
            assert(self@.nodes =~= want.nodes);
        }
    }

    /// Makes dynamic slot `index` a contribution to right-hand-side entry
    /// `r`; the entry's label becomes `label`.
    pub fn add_dynamic_b(&mut self, r: usize, index: usize, label: &str)
        requires
            old(self).wf(),
            r < old(self)@.size(),
            index < old(self)@.n_dynamic,
        ensures
            final(self).wf(),
            final(self)@ == old(self)@.add_dynamic_b(r as int, index, label@),
    {
        self.b[r].dyn_refs.push(index);
        self.b[r].label = String::from_str(label);
        proof {
            let want = old(self)@.add_dynamic_b(r as int, index, label@);
            assert(self@.a =~= want.a);
            assert(self@.b =~= want.b);
            assert(self@.nodes =~= want.nodes);
        }
    }

    /// Replaces the metadata of row `r`.
    pub fn set_node(&mut self, r: usize, info: NodeInfo)
        requires
            old(self).wf(),
            r < old(self)@.size(),
            match info.scale {
                Some(p) => p < old(self)@.n_params,
                None => true,
            },
        ensures
            final(self).wf(),
            final(self)@ == old(self)@.with_node(r as int, info@),
    {
        self.nodes.set(r, info);
        proof {
            let want = old(self)@.with_node(r as int, info@);
            assert(self@.a =~= want.a);
            assert(self@.b =~= want.b);
            assert(self@.nodes =~= want.nodes);
        }
    }

    /// Reserves a fresh slot of the dynamic pool, where a component keeps a
    /// value that changes between iterations; returns its index.
    pub fn reserve_dynamic(&mut self) -> (i: usize)
        requires
            old(self).wf(),
            old(self)@.n_dynamic < usize::MAX,
        ensures
            final(self).wf(),
            i == old(self)@.n_dynamic,
            final(self)@ == (SystemModel { n_dynamic: old(self)@.n_dynamic + 1, ..old(self)@ }),
    {
        let i = self.n_dynamic;
        self.n_dynamic = self.n_dynamic + 1;
        proof {
            let m = self@;
            assert forall|r: int, c: int| 0 <= r < m.size() && 0 <= c < m.size() implies (
            #[trigger] m.a[r][c]).in_range(m.n_params, m.n_dynamic) by {
                assert(old(self)@.a[r][c].in_range(m.n_params, i as nat));
            }
            assert forall|r: int| 0 <= r < m.size() implies (#[trigger] m.b[r]).in_range(
                m.n_params,
                m.n_dynamic,
            ) by {
                assert(old(self)@.b[r].in_range(m.n_params, i as nat));
            }
        }
        i
    }

    /// Reserves a fresh slot of the parameter pool, where a component keeps
    /// a value that its terms refer to; returns its index.
    pub fn reserve_param(&mut self) -> (i: usize)
        requires
            old(self).wf(),
            old(self)@.n_params < usize::MAX,
        ensures
            final(self).wf(),
            i == old(self)@.n_params,
            final(self)@ == (SystemModel { n_params: old(self)@.n_params + 1, ..old(self)@ }),
    {
        let i = self.n_params;
        self.n_params = self.n_params + 1;
        proof {
            let m = self@;
            assert forall|r: int, c: int| 0 <= r < m.size() && 0 <= c < m.size() implies (
            #[trigger] m.a[r][c]).in_range(m.n_params, m.n_dynamic) by {
                assert(old(self)@.a[r][c].in_range(i as nat, m.n_dynamic));
            }
            assert forall|r: int| 0 <= r < m.size() implies (#[trigger] m.b[r]).in_range(
                m.n_params,
                m.n_dynamic,
            ) by {
                assert(old(self)@.b[r].in_range(i as nat, m.n_dynamic));
            }
        }
        i
    }
    /// Resizes the system to `n` rows and columns. Entries and metadata of
    /// rows and columns below both sizes are kept; new entries are empty and
    /// new rows are voltage rows with their default names.
    pub fn set_size(&mut self, n: usize)
        requires
            old(self).wf(),
        ensures
            final(self).wf(),
            final(self)@ == old(self)@.resized(n as nat),
    {
        let ghost want = old(self)@.resized(n as nat);
        let ghost old_a = old(self).a_matrix@;
        let old_n = self.net_size;
        let keep = if n < old_n { n } else { old_n };
        self.a_matrix.truncate(n);
        self.b.truncate(n);
        self.nodes.truncate(n);
        let mut i: usize = 0;
        while i < keep
            invariant
                keep <= n,
                keep <= old_n,
                old_n == old(self)@.size(),
                old(self).wf(),
                want == old(self)@.resized(n as nat),
                old_a == old(self).a_matrix@,
                self.a_matrix@.len() == keep,
                i <= keep,
                forall|r: int| i <= r < keep ==> #[trigger] self.a_matrix@[r] == old_a[r],
                forall|r: int| 0 <= r < i ==> (#[trigger] self.a_matrix@[r])@.len() == n,
                forall|r: int, c: int|
                    0 <= r < i && 0 <= c < n ==> (#[trigger] self.a_matrix@[r]@[c])@ == want.a[r][c],
                self.b@ == old(self).b@.subrange(0, keep as int),
                self.nodes@ == old(self).nodes@.subrange(0, keep as int),
                self.n_params == old(self).n_params,
                self.n_dynamic == old(self).n_dynamic,
            decreases keep - i,
        {
            resize_row(&mut self.a_matrix[i], n);
            i = i + 1;
        }
        while self.a_matrix.len() < n
            invariant
                keep <= n,
                keep <= old_n,
                old_n == old(self)@.size(),
                old(self).wf(),
                want == old(self)@.resized(n as nat),
                keep <= self.a_matrix@.len() <= n,
                keep == (if n < old_n { n } else { old_n }),
                self.b@.len() == self.a_matrix@.len(),
                self.nodes@.len() == self.a_matrix@.len(),
                forall|r: int| 0 <= r < self.a_matrix@.len() ==> (#[trigger] self.a_matrix@[r])@.len() == n,
                forall|r: int, c: int|
                    0 <= r < self.a_matrix@.len() && 0 <= c < n ==> (#[trigger] self.a_matrix@[r]@[c])@
                        == want.a[r][c],
                forall|r: int| 0 <= r < self.a_matrix@.len() ==> (#[trigger] self.b@[r])@ == want.b[r],
                forall|r: int| 0 <= r < self.a_matrix@.len() ==> (#[trigger] self.nodes@[r])@ == want.nodes[r],
                self.n_params == old(self).n_params,
                self.n_dynamic == old(self).n_dynamic,
            decreases n - self.a_matrix@.len(),
        {
            let k = self.a_matrix.len();
            self.a_matrix.push(empty_row(n));
            self.b.push(Cell::new());
            self.nodes.push(NodeInfo::new_voltage(k));
        }
        self.net_size = n;
        proof {
            assert forall|r: int| 0 <= r < n implies #[trigger] self@.a[r] =~= want.a[r] by {}
            assert(self@.a =~= want.a);
            assert(self@.b =~= want.b);
            assert(self@.nodes =~= want.nodes);
        }
    }
    /// Reserves a fresh row and column for a component's internal net;
    /// returns its index.
    pub fn reserve(&mut self) -> (i: usize)
        requires
            old(self).wf(),
            old(self)@.size() < usize::MAX,
        ensures
            final(self).wf(),
            i == old(self)@.size(),
            final(self)@ == old(self)@.resized(old(self)@.size() + 1),
    {
        let sz = self.net_size;
        self.set_size(sz + 1);
        sz
    }
}

/// A fresh system of `n` rows is square, and every entry of the matrix and
/// of the right-hand side is empty: no terms, no dynamic slots, no label.
pub proof fn lemma_fresh_system_shape(n: nat)
    ensures
        empty_system().resized(n).wf(),
        empty_system().resized(n).size() == n,
        empty_system().resized(n).a.len() == n,
        empty_system().resized(n).b.len() == n,
        forall|r: int| 0 <= r < n ==> (#[trigger] empty_system().resized(n).a[r]).len() == n,
        forall|r: int, c: int|
            0 <= r < n && 0 <= c < n ==> #[trigger] empty_system().resized(n).a[r][c] == empty_cell(),
        forall|r: int| 0 <= r < n ==> #[trigger] empty_system().resized(n).b[r] == empty_cell(),
{
    let m = empty_system().resized(n);
    assert forall|r: int, c: int| 0 <= r < n && 0 <= c < n implies (#[trigger] m.a[r][c]).in_range(
        m.n_params,
        m.n_dynamic,
    ) by {
        assert(m.a[r][c] == empty_cell());
    }
    assert forall|r: int| 0 <= r < n implies (#[trigger] m.b[r]).in_range(m.n_params, m.n_dynamic) by {
        assert(m.b[r] == empty_cell());
    }
}

/// Reserving a net on a system of `n` rows gives a square system of `n + 1`
/// rows in which every entry and every row's metadata below `n` is as it
/// was, and the new row and column are empty.
pub proof fn lemma_reserve_keeps_entries(m: SystemModel)
    requires
        m.wf(),
    ensures
        m.resized(m.size() + 1).wf(),
        m.resized(m.size() + 1).size() == m.size() + 1,
        forall|r: int, c: int|
            0 <= r < m.size() && 0 <= c < m.size() ==> #[trigger] m.resized(m.size() + 1).a[r][c]
                == m.a[r][c],
        forall|r: int| 0 <= r < m.size() ==> #[trigger] m.resized(m.size() + 1).b[r] == m.b[r],
        forall|r: int| 0 <= r < m.size() ==> #[trigger] m.resized(m.size() + 1).nodes[r] == m.nodes[r],
        forall|i: int|
            0 <= i <= m.size() ==> m.resized(m.size() + 1).a[m.size() as int][i] == empty_cell()
                && #[trigger] m.resized(m.size() + 1).a[i][m.size() as int] == empty_cell(),
        m.resized(m.size() + 1).b[m.size() as int] == empty_cell(),
{
    let g = m.resized(m.size() + 1);
    assert forall|r: int, c: int| 0 <= r < g.size() && 0 <= c < g.size() implies (
    #[trigger] g.a[r][c]).in_range(g.n_params, g.n_dynamic) by {
        if r < m.size() && c < m.size() {
            assert(g.a[r][c] == m.a[r][c]);
        } else {
            assert(g.a[r][c] == empty_cell());
        }
    }
    assert forall|r: int| 0 <= r < g.size() implies (#[trigger] g.b[r]).in_range(
        g.n_params,
        g.n_dynamic,
    ) by {
        if r < m.size() {
            assert(g.b[r] == m.b[r]);
        } else {
            assert(g.b[r] == empty_cell());
        }
    }
}

} // verus!
