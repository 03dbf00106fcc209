//! Disk-usage scanning: the sizes of the children of a directory, summed over
//! their subtrees, ordered largest first and shown in scaled units.
use vstd::prelude::*;

pub mod clock;
pub mod order;
pub mod report;
pub mod scan;
pub mod session;
pub mod units;
pub mod widget;

verus! {

/// The unit result of an action that hands nothing back.
#[derive(Debug, Clone)]
pub struct Null;

} // verus!
