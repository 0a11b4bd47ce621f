//! The loaded rule content a match is played with: fighters, stages and
//! match rules. Loading, saving and integrity-checking package archives are
//! I/O concerns outside the simulation core; a package in memory is plain
//! data.

use vstd::prelude::*;
use crate::stage::Stage;

verus! {

/// One selectable fighter. Its rule content (frame data, hitboxes) is not
/// simulated here; the core only needs the action a press enters.
pub struct Fighter {
    pub name: String,
    /// The action a player enters on an attack press.
    pub attack_action: u64,
}

/// Match rules.
#[derive(Clone, Copy, Debug, PartialEq, Eq, Structural)]
pub struct Rules {
    /// Stocks each player starts the match with.
    pub stock_count: u64,
    /// Match length in seconds; no limit when absent.
    pub time_limit: Option<u64>,
}

/// Outcome of checking a package against its published hash. The check
/// itself needs the network and the archive bytes, so it happens outside
/// the core; a package held in memory counts as verified.
#[derive(Clone, Copy, Debug, PartialEq, Eq, Structural)]
pub enum Verify {
    Valid,
    Absent,
}

/// A loaded package: everything a match needs to start.
pub struct Package {
    pub fighters: Vec<Fighter>,
    pub stages: Vec<Stage>,
    pub rules: Rules,
}

impl Package {
    /// The verification status of a package already held in memory.
    pub fn verify(&self) -> (r: Verify)
        ensures
            r == Verify::Valid,
    {
        Verify::Valid
    }

    /// The name of the fighter at `index`, or nothing when out of range.
    pub fn fighter_name(&self, index: usize) -> (r: Option<&String>)
        ensures
            index < self.fighters@.len() ==> r == Some(&self.fighters@[index as int].name),
            index >= self.fighters@.len() ==> r is None,
    {
        if index < self.fighters.len() {
            Some(&self.fighters[index].name)
        } else {
            None
        }
    }
}

} // verus!
