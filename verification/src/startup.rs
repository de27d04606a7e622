//! How the program was started.

use vstd::prelude::*;

verus! {

/// Some argument is the flag of daemon mode.
pub open spec fn asks_for_daemon(args: Seq<String>) -> bool {
    exists|i: int| 0 <= i < args.len() && (#[trigger] args[i])@ == "--daemon"@
}

/// Whether the program was started in daemon mode, by its arguments.
pub fn is_daemon(args: &Vec<String>) -> (daemon: bool)
    ensures
        daemon == asks_for_daemon(args@),
{
    let mut i: usize = 0;
    while i < args.len()
        invariant
            i <= args.len(),
            forall|j: int| 0 <= j < i ==> (#[trigger] args@[j])@ != "--daemon"@,
        decreases args.len() - i,
    {
        if args[i] == "--daemon".to_owned() {
            return true;
        }
        i = i + 1;
    }
    false
}

/// One argument that is the flag suffices, wherever it stands and whatever else there is.
pub proof fn flag_suffices(before: Seq<String>, flag: String, after: Seq<String>)
    requires
        flag@ == "--daemon"@,
    ensures
        asks_for_daemon(before.push(flag) + after),
{
    let args = before.push(flag) + after;
    assert(args[before.len() as int] == flag);
}

/// Without such an argument the program runs with its display.
pub proof fn flag_is_needed(args: Seq<String>)
    requires
        forall|i: int| 0 <= i < args.len() ==> (#[trigger] args[i])@ != "--daemon"@,
    ensures
        !asks_for_daemon(args),
{
}

} // verus!
