use vstd::prelude::*;
use vstd::string::StringExecFns;

verus! {

/// One enemy's strength level on a given day: a name and the level in
/// force for it.
pub struct LevelEntry {
    pub name: String,
    pub level: u8,
}

impl LevelEntry {
    pub fn new(name: &str, level: u8) -> (r: LevelEntry)
        ensures
            r.name@ == name@,
            r.level == level,
    {
        LevelEntry { name: String::from_str(name), level }
    }
}

} // verus!
