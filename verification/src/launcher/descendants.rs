//! Ending a process together with everything it has spawned, where the
//! operating system knows no process groups: the processes are found in a
//! snapshot of the process table.

use vstd::prelude::*;
use crate::protocol::launcher::ShutdownMethod;

verus! {

/// One process of a snapshot: its PID and the PID of its parent.
#[derive(Debug, Clone, Copy, PartialEq, Eq, Structural)]
pub struct ProcessEntry {
    pub pid: u32,
    pub parent: u32,
}

/// The children of `pid` among the first `n` entries of a snapshot, in the
/// order of the snapshot.
pub open spec fn children_upto(table: Seq<ProcessEntry>, pid: u32, n: int) -> Seq<u32>
    decreases n,
{
    if n <= 0 {
        Seq::empty()
    } else {
        let before = children_upto(table, pid, n - 1);
        if table[n - 1].parent == pid {
            before.push(table[n - 1].pid)
        } else {
            before
        }
    }
}

/// The children of `pid` in a snapshot.
pub open spec fn children_of(table: Seq<ProcessEntry>, pid: u32) -> Seq<u32> {
    children_upto(table, pid, table.len() as int)
}

/// The order in which the first `n` of `pids` are ended with all their
/// descendants, down to `depth` generations.
pub open spec fn order_of_all(table: Seq<ProcessEntry>, pids: Seq<u32>, n: int, depth: nat) -> Seq<
    u32,
>
    decreases depth, 1nat, n,
{
    if n <= 0 {
        Seq::empty()
    } else {
        order_of_all(table, pids, n - 1, depth) + termination_order(table, pids[n - 1], depth)
    }
}

/// The order in which `pid` is ended with all its descendants: every child
/// with its own descendants first, in the order of the snapshot, and
/// `pid` last. Descendants are followed down to `depth` generations, so
/// that a snapshot in which a PID was used twice cannot lead in circles.
pub open spec fn termination_order(table: Seq<ProcessEntry>, pid: u32, depth: nat) -> Seq<u32>
    decreases depth, 0nat, 0int,
{
    if depth == 0 {
        seq![pid]
    } else {
        let children = children_of(table, pid);
        order_of_all(table, children, children.len() as int, (depth - 1) as nat).push(pid)
    }
}

/// The children of `pid` in a snapshot of the process table.
pub fn children(table: &Vec<ProcessEntry>, pid: u32) -> (r: Vec<u32>)
    ensures
        r@ == children_of(table@, pid),
{
    let mut out: Vec<u32> = Vec::new();
    let mut i: usize = 0;
    while i < table.len()
        invariant
            i <= table.len(),
            out@ == children_upto(table@, pid, i as int),
        decreases table.len() - i,
    {
        if table[i].parent == pid {
            out.push(table[i].pid);
        }
        i = i + 1;
    }
    out
}

/// The processes to end so that `pid` ends with all its descendants, in
/// the order in which to end them, descendants being followed down to
/// `depth` generations.
pub fn descendants_first(table: &Vec<ProcessEntry>, pid: u32, depth: usize) -> (r: Vec<u32>)
    ensures
        r@ == termination_order(table@, pid, depth as nat),
    decreases depth,
{
    let mut out: Vec<u32> = Vec::new();
    if depth > 0 {
        let kids = children(table, pid);
        let mut i: usize = 0;
        while i < kids.len()
            invariant
                i <= kids.len(),
                depth > 0,
                kids@ == children_of(table@, pid),
                out@ == order_of_all(table@, kids@, i as int, (depth - 1) as nat),
            decreases kids.len() - i,
        {
            let mut below = descendants_first(table, kids[i], depth - 1);
            out.append(&mut below);
            i = i + 1;
        }
    }
    out.push(pid);
    out
}

/// The processes to end so that `pid` ends with all its descendants, in
/// the order in which to end them. No line of descent in a snapshot is
/// longer than the snapshot.
pub fn terminate_process_descendants(table: &Vec<ProcessEntry>, pid: u32) -> (r: Vec<u32>)
    ensures
        r@ == termination_order(table@, pid, table@.len()),
{
    descendants_first(table, pid, table.len())
}

/// How a process came to its end when it was asked to end. A process that
/// was gone before it could be asked had already exited. One that ended
/// before its time was up has ended in good order, and so has one that
/// was gone when it was to be killed. Any other was killed.
pub open spec fn method_of(asked: bool, ended_in_time: bool, killed: bool) -> ShutdownMethod {
    if !asked {
        ShutdownMethod::AlreadyExited
    } else if ended_in_time || !killed {
        ShutdownMethod::GracefulTermination
    } else {
        ShutdownMethod::Killed
    }
}

/// Tells how a process came to its end. `asked` says whether the signal to
/// end reached it, `ended_in_time` whether it ended before its time was
/// up, and `killed` whether the signal to kill reached it after that.
pub fn shutdown_method(asked: bool, ended_in_time: bool, killed: bool) -> (r: ShutdownMethod)
    ensures
        r == method_of(asked, ended_in_time, killed),
{
    if !asked {
        ShutdownMethod::AlreadyExited
    } else if ended_in_time || !killed {
        ShutdownMethod::GracefulTermination
    } else {
        ShutdownMethod::Killed
    }
}

} // verus!
