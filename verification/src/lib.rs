//! Permanent magnet definitions for stem, a Simulation Toolbox for Electric
//! Motors: the parts of the magnet model that are exact (counts of magnets in
//! an assembly and the orientation rules of arc magnets), with their contracts.

pub mod arc;
pub mod assembly;
pub mod representation;
