//! The structure of a modified-nodal-analysis circuit simulator: the
//! netlist, the matrix layout that each device stamps once, and the
//! integer decisions of the solver and of the schematic editor. Real-valued
//! quantities live in pools that the numeric side fills; the system refers
//! to them by index.

pub mod component_type;
pub mod devices;
pub mod editor;
pub mod netlist;
pub mod solver;
pub mod system;
pub mod text;
pub mod units;
