//! Telling whether a program is running, from the names of the executables
//! of the running processes.

use crate::paths::texts;
use vstd::prelude::*;
use vstd::string::*;

verus! {

/// Tells whether a process is running whose executable's file name is
/// `name`. `exe_names` holds the file name of the executable of each running
/// process that has one.
pub fn check_for_process(name: &str, exe_names: &Vec<String>) -> (running: bool)
    ensures
        running == texts(exe_names@).contains(name@),
{
    let wanted = String::from_str(name);
    let mut i: usize = 0;
    while i < exe_names.len()
        invariant
            i <= exe_names.len(),
            wanted@ == name@,
            forall|j: int| 0 <= j < i ==> texts(exe_names@)[j] != name@,
        decreases exe_names.len() - i,
    {
        if exe_names[i] == wanted {
            assert(texts(exe_names@)[i as int] == name@);
            return true;
        }
        i += 1;
    }
    false
}

} // verus!
