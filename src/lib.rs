use vstd::prelude::*;

// Character-level scanning: lines, fields, trimming, decimal numbers.
pub mod text;
// Interfaces, their kinds, states and owners, and the removal strategies.
pub mod model;
// The commands that change links and addresses.
pub mod command;
// Reading the link, address, route and resolver listings into interface records.
pub mod inventory;
// The ownership detectors and the ordered chain that resolves an owner.
pub mod ownership;
// Strategy selection, safety warnings and the step-by-step removal plan.
pub mod removal;

verus! {

} // verus!
