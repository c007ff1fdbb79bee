//! Reconciliation: what to start, stop and restart so that what runs is what
//! the specs on disk ask for.
//!
//! A service is known by the name of its package. Of several specs under one
//! name in a list, the last one counts. Every name that occurs among the
//! running or the declared specs is looked up in a decision table; the
//! operations come out in the order in which the names first occur, running
//! specs before declared ones.

use vstd::prelude::*;
use crate::spec::{DesiredState, ServiceSpec, ServiceSpecView, specs_view};

verus! {

/// One step towards the desired state.
#[derive(Debug, PartialEq, Eq)]
pub enum ServiceOperation {
    /// Start a service that does not run.
    Start(ServiceSpec),
    /// Stop a running service.
    Stop(ServiceSpec),
    /// Stop a running service and start it again with another spec.
    Restart { to_stop: ServiceSpec, to_start: ServiceSpec },
}

/// The mathematical value of a `ServiceOperation`.
pub enum ServiceOperationView {
    Start(ServiceSpecView),
    Stop(ServiceSpecView),
    Restart { to_stop: ServiceSpecView, to_start: ServiceSpecView },
}

impl View for ServiceOperation {
    type V = ServiceOperationView;

    open spec fn view(&self) -> ServiceOperationView {
        match *self {
            ServiceOperation::Start(s) => ServiceOperationView::Start(s@),
            ServiceOperation::Stop(s) => ServiceOperationView::Stop(s@),
            ServiceOperation::Restart { to_stop, to_start } => ServiceOperationView::Restart {
                to_stop: to_stop@,
                to_start: to_start@,
            },
        }
    }
}

impl Clone for ServiceOperation {
    fn clone(&self) -> (r: Self)
        ensures
            r@ == self@,
    {
        match self {
            ServiceOperation::Start(s) => ServiceOperation::Start(s.clone()),
            ServiceOperation::Stop(s) => ServiceOperation::Stop(s.clone()),
            ServiceOperation::Restart { to_stop, to_start } => ServiceOperation::Restart {
                to_stop: to_stop.clone(),
                to_start: to_start.clone(),
            },
        }
    }
}

impl ServiceOperationView {
    /// The name of the service that the operation acts on. For a restart it
    /// is that of the spec to stop.
    pub open spec fn identity(self) -> Seq<char> {
        match self {
            ServiceOperationView::Start(s) => s.identity(),
            ServiceOperationView::Stop(s) => s.identity(),
            ServiceOperationView::Restart { to_stop, to_start } => to_stop.identity(),
        }
    }
}

/// The views of a list of operations.
pub open spec fn operations_view(v: Seq<ServiceOperation>) -> Seq<ServiceOperationView> {
    v.map_values(|o: ServiceOperation| o@)
}

/// The view of an optional reference to a spec.
pub open spec fn opt_spec(o: Option<&ServiceSpec>) -> Option<ServiceSpecView> {
    match o {
        Some(s) => Some(s@),
        None => None,
    }
}

/// The view of an optional operation.
pub open spec fn opt_operation(o: Option<ServiceOperation>) -> Option<ServiceOperationView> {
    match o {
        Some(s) => Some(s@),
        None => None,
    }
}

/// The spec that a list holds for the service `key`: the last one under that
/// name, if there is one.
pub open spec fn latest(specs: Seq<ServiceSpecView>, key: Seq<char>) -> Option<ServiceSpecView>
    decreases specs.len(),
{
    if specs.len() == 0 {
        None
    } else if specs.last().identity() == key {
        Some(specs.last())
    } else {
        latest(specs.drop_last(), key)
    }
}

/// The decision table: what is to be done for one service, given the spec
/// it runs with and the spec that is declared for it.
pub open spec fn decide(running: Option<ServiceSpecView>, disk: Option<ServiceSpecView>) -> Option<
    ServiceOperationView,
> {
    match (disk, running) {
        (Some(d), None) => if d.desired_state is Up {
            Some(ServiceOperationView::Start(d))
        } else {
            None
        },
        (Some(d), Some(r)) => if d.desired_state is Up {
            if r == d {
                None
            } else {
                Some(ServiceOperationView::Restart { to_stop: r, to_start: d })
            }
        } else {
            Some(ServiceOperationView::Stop(r))
        },
        (None, Some(r)) => Some(ServiceOperationView::Stop(r)),
        (None, None) => None,
    }
}

/// What is to be done for the service `key`.
pub open spec fn operation_for(
    running: Seq<ServiceSpecView>,
    disk: Seq<ServiceSpecView>,
    key: Seq<char>,
) -> Option<ServiceOperationView> {
    decide(latest(running, key), latest(disk, key))
}

/// Whether the name of `all[i]` does not occur before place `i`.
pub open spec fn first_seen(all: Seq<ServiceSpecView>, i: int) -> bool {
    forall|j: int| 0 <= j < i ==> (#[trigger] all[j]).identity() != all[i].identity()
}

/// The operations for the names that first occur among the first `n` specs
/// of the running specs followed by the declared ones.
pub open spec fn operations_upto(
    running: Seq<ServiceSpecView>,
    disk: Seq<ServiceSpecView>,
    n: nat,
) -> Seq<ServiceOperationView>
    decreases n,
{
    if n == 0 {
        Seq::<ServiceOperationView>::empty()
    } else {
        let before = operations_upto(running, disk, (n - 1) as nat);
        let all = running + disk;
        if first_seen(all, n - 1) {
            match operation_for(running, disk, all[n - 1].identity()) {
                Some(op) => before.push(op),
                None => before,
            }
        } else {
            before
        }
    }
}

/// The operations that bring what runs in line with what is declared: for
/// each service name, in the order of first occurrence, what the decision
/// table gives, where it gives anything.
pub open spec fn operations(running: Seq<ServiceSpecView>, disk: Seq<ServiceSpecView>) -> Seq<
    ServiceOperationView,
> {
    operations_upto(running, disk, running.len() + disk.len())
}

/// Whether some spec of `specs` before place `upto` is named `key`.
pub open spec fn occurs_before(specs: Seq<ServiceSpecView>, upto: int, key: Seq<char>) -> bool {
    exists|j: int| 0 <= j < upto && (#[trigger] specs[j]).identity() == key
}

/// `latest` finds a spec exactly when the name occurs, and what it finds is
/// in the list under that name.
pub proof fn lemma_latest(specs: Seq<ServiceSpecView>, key: Seq<char>)
    ensures
        latest(specs, key) is Some <==> occurs_before(specs, specs.len() as int, key),
        latest(specs, key) matches Some(s) ==> s.identity() == key && specs.contains(s),
    decreases specs.len(),
{
    if specs.len() == 0 {
    } else if specs.last().identity() == key {
        assert(specs[specs.len() - 1].identity() == key);
    } else {
        let init = specs.drop_last();
        lemma_latest(init, key);
        if occurs_before(init, init.len() as int, key) {
            let j = choose|j: int| 0 <= j < init.len() && (#[trigger] init[j]).identity() == key;
            assert(specs[j].identity() == key);
        }
        if occurs_before(specs, specs.len() as int, key) {
            let j = choose|j: int| 0 <= j < specs.len() && (#[trigger] specs[j]).identity() == key;
            assert(init[j].identity() == key);
        }
        if latest(init, key) is Some {
            let s = latest(init, key)->0;
            let k = choose|k: int| 0 <= k < init.len() && init[k] == s;
            assert(specs[k] == s);
        }
    }
}

/// The decision for one service, given the spec it runs with and the spec
/// declared for it.
pub fn decide_operation(running: Option<&ServiceSpec>, disk: Option<&ServiceSpec>) -> (r: Option<
    ServiceOperation,
>)
    ensures
        opt_operation(r) == decide(opt_spec(running), opt_spec(disk)),
{
    match disk {
        Some(d) => {
            let up = match d.desired_state {
                DesiredState::Up => true,
                DesiredState::Down => false,
            };
            match running {
                Some(r) => {
                    if up {
                        if r.same(d) {
                            None
                        } else {
                            Some(
                                ServiceOperation::Restart {
                                    to_stop: r.clone(),
                                    to_start: d.clone(),
                                },
                            )
                        }
                    } else {
                        Some(ServiceOperation::Stop(r.clone()))
                    }
                },
                None => {
                    if up {
                        Some(ServiceOperation::Start(d.clone()))
                    } else {
                        None
                    }
                },
            }
        },
        None => match running {
            Some(r) => Some(ServiceOperation::Stop(r.clone())),
            None => None,
        },
    }
}

/// The place of the last spec in `specs` that is named `key`.
pub fn find_latest(specs: &Vec<ServiceSpec>, key: &String) -> (r: Option<usize>)
    ensures
        match r {
            Some(i) => i < specs.len() && latest(specs_view(specs@), key@) == Some(specs@[i as int]@),
            None => latest(specs_view(specs@), key@) is None,
        },
{
    let ghost all = specs_view(specs@);
    let mut i: usize = specs.len();
    assert(all.subrange(0, i as int) =~= all);
    while i > 0
        invariant
            i <= specs.len(),
            all == specs_view(specs@),
            latest(all, key@) == latest(all.subrange(0, i as int), key@),
        decreases i,
    {
        let ghost here = all.subrange(0, i as int);
        assert(here.last() == specs@[i - 1]@);
        assert(here.drop_last() =~= all.subrange(0, i - 1));
        if specs[i - 1].ident.name == *key {
            return Some(i - 1);
        }
        i = i - 1;
    }
    assert(all.subrange(0, 0).len() == 0);
    None
}

/// Whether one of the first `upto` specs is named `key`.
pub fn named_before(specs: &Vec<ServiceSpec>, upto: usize, key: &String) -> (r: bool)
    requires
        upto <= specs.len(),
    ensures
        r == occurs_before(specs_view(specs@), upto as int, key@),
{
    let ghost all = specs_view(specs@);
    let mut j: usize = 0;
    while j < upto
        invariant
            j <= upto <= specs.len(),
            all == specs_view(specs@),
            forall|k: int| 0 <= k < j ==> (#[trigger] all[k]).identity() != key@,
        decreases upto - j,
    {
        if specs[j].ident.name == *key {
            assert(all[j as int].identity() == key@);
            return true;
        }
        j = j + 1;
    }
    false
}

/// Determines what to start, stop and restart so that the running services
/// become those that the specs on disk declare.
pub fn specs_to_operations(
    currently_running_specs: Vec<ServiceSpec>,
    on_disk_specs: Vec<ServiceSpec>,
) -> (ops: Vec<ServiceOperation>)
    ensures
        operations_view(ops@) == operations(
            specs_view(currently_running_specs@),
            specs_view(on_disk_specs@),
        ),
{
    let ghost running = specs_view(currently_running_specs@);
    let ghost disk = specs_view(on_disk_specs@);
    let ghost all = running + disk;
    let mut ops: Vec<ServiceOperation> = Vec::new();
    assert(operations_view(ops@) =~= operations_upto(running, disk, 0));
    let mut i: usize = 0;
    while i < currently_running_specs.len()
        invariant
            i <= currently_running_specs.len(),
            running == specs_view(currently_running_specs@),
            disk == specs_view(on_disk_specs@),
            all == running + disk,
            operations_view(ops@) == operations_upto(running, disk, i as nat),
        decreases currently_running_specs.len() - i,
    {
        let key = &currently_running_specs[i].ident.name;
        assert(all[i as int] == running[i as int]);
        let seen = named_before(&currently_running_specs, i, key);
        proof {
            if seen {
                let j = choose|j: int| 0 <= j < i && (#[trigger] running[j]).identity() == key@;
                assert(all[j] == running[j]);
            } else {
                assert forall|j: int| 0 <= j < i implies (#[trigger] all[j]).identity()
                    != all[i as int].identity() by {
                    assert(all[j] == running[j]);
                }
            }
        }
        if !seen {
            let r = find_latest(&currently_running_specs, key);
            let d = find_latest(&on_disk_specs, key);
            let r_spec = match r {
                Some(p) => Some(&currently_running_specs[p]),
                None => None,
            };
            let d_spec = match d {
                Some(p) => Some(&on_disk_specs[p]),
                None => None,
            };
            match decide_operation(r_spec, d_spec) {
                Some(op) => {
                    let ghost before = ops@;
                    ops.push(op);
                    assert(operations_view(ops@) =~= operations_view(before).push(op@));
                },
                None => {},
            }
        }
        i = i + 1;
    }
    let n = currently_running_specs.len();
    let mut k: usize = 0;
    while k < on_disk_specs.len()
        invariant
            k <= on_disk_specs.len(),
            n == currently_running_specs.len(),
            running == specs_view(currently_running_specs@),
            disk == specs_view(on_disk_specs@),
            all == running + disk,
            operations_view(ops@) == operations_upto(running, disk, (n + k) as nat),
        decreases on_disk_specs.len() - k,
    {
        let key = &on_disk_specs[k].ident.name;
        assert(all[n + k] == disk[k as int]);
        let seen_running = named_before(&currently_running_specs, n, key);
        let seen_disk = named_before(&on_disk_specs, k, key);
        let seen = seen_running || seen_disk;
        proof {
            if seen_running {
                let j = choose|j: int| 0 <= j < n && (#[trigger] running[j]).identity() == key@;
                assert(all[j] == running[j]);
            } else if seen_disk {
                let j = choose|j: int| 0 <= j < k && (#[trigger] disk[j]).identity() == key@;
                assert(all[n + j] == disk[j]);
            } else {
                assert forall|j: int| 0 <= j < n + k implies (#[trigger] all[j]).identity()
                    != all[n + k].identity() by {
                    if j < n {
                        assert(all[j] == running[j]);
                    } else {
                        assert(all[j] == disk[j - n]);
                    }
                }
            }
        }
        if !seen {
            let r = find_latest(&currently_running_specs, key);
            let d = find_latest(&on_disk_specs, key);
            let r_spec = match r {
                Some(p) => Some(&currently_running_specs[p]),
                None => None,
            };
            let d_spec = match d {
                Some(p) => Some(&on_disk_specs[p]),
                None => None,
            };
            match decide_operation(r_spec, d_spec) {
                Some(op) => {
                    let ghost before = ops@;
                    ops.push(op);
                    assert(operations_view(ops@) =~= operations_view(before).push(op@));
                },
                None => {},
            }
        }
        k = k + 1;
    }
    ops
}

/// What the table gives for a service acts on that service.
pub proof fn lemma_decision_identity(
    running: Seq<ServiceSpecView>,
    disk: Seq<ServiceSpecView>,
    key: Seq<char>,
)
    ensures
        operation_for(running, disk, key) matches Some(op) ==> op.identity() == key,
        operation_for(running, disk, key) is Some ==> occurs_before(
            running + disk,
            (running.len() + disk.len()) as int,
            key,
        ),
{
    lemma_latest(running, key);
    lemma_latest(disk, key);
    let all = running + disk;
    if occurs_before(running, running.len() as int, key) {
        let j = choose|j: int| 0 <= j < running.len() && (#[trigger] running[j]).identity() == key;
        assert(all[j].identity() == key);
    }
    if occurs_before(disk, disk.len() as int, key) {
        let j = choose|j: int| 0 <= j < disk.len() && (#[trigger] disk[j]).identity() == key;
        assert(all[running.len() + j].identity() == key);
    }
}

/// Every operation among the first `n` steps is what the table gives for its
/// own service, and that service occurs among the first `n` specs.
proof fn lemma_upto_origin(running: Seq<ServiceSpecView>, disk: Seq<ServiceSpecView>, n: nat)
    requires
        n <= running.len() + disk.len(),
    ensures
        forall|k: int|
            0 <= k < operations_upto(running, disk, n).len() ==> {
                let op = #[trigger] operations_upto(running, disk, n)[k];
                &&& occurs_before(running + disk, n as int, op.identity())
                &&& operation_for(running, disk, op.identity()) == Some(op)
            },
    decreases n,
{
    if n > 0 {
        let all = running + disk;
        let before = operations_upto(running, disk, (n - 1) as nat);
        let now = operations_upto(running, disk, n);
        lemma_upto_origin(running, disk, (n - 1) as nat);
        lemma_decision_identity(running, disk, all[n - 1].identity());
        assert forall|k: int| 0 <= k < now.len() implies {
            let op = #[trigger] now[k];
            &&& occurs_before(all, n as int, op.identity())
            &&& operation_for(running, disk, op.identity()) == Some(op)
        } by {
            if k < before.len() {
                let op = before[k];
                assert(now[k] == op);
                let j = choose|j: int| 0 <= j < n - 1 && (#[trigger] all[j]).identity() == op.identity();
                assert(all[j].identity() == op.identity());
            } else {
                assert(all[n - 1].identity() == now[k].identity());
            }
        }
    }
}

/// No two of the operations among the first `n` steps act on one service.
proof fn lemma_upto_distinct(running: Seq<ServiceSpecView>, disk: Seq<ServiceSpecView>, n: nat)
    requires
        n <= running.len() + disk.len(),
    ensures
        forall|a: int, b: int|
            0 <= a < b < operations_upto(running, disk, n).len() ==> (
            #[trigger] operations_upto(running, disk, n)[a]).identity() != (
            #[trigger] operations_upto(running, disk, n)[b]).identity(),
    decreases n,
{
    if n > 0 {
        let all = running + disk;
        let before = operations_upto(running, disk, (n - 1) as nat);
        let now = operations_upto(running, disk, n);
        lemma_upto_distinct(running, disk, (n - 1) as nat);
        lemma_upto_origin(running, disk, (n - 1) as nat);
        lemma_decision_identity(running, disk, all[n - 1].identity());
        assert forall|a: int, b: int| 0 <= a < b < now.len() implies (#[trigger] now[a]).identity()
            != (#[trigger] now[b]).identity() by {
            if b < before.len() {
                assert(now[a] == before[a]);
                assert(now[b] == before[b]);
            } else {
                let op = before[a];
                assert(now[a] == op);
                let j = choose|j: int| 0 <= j < n - 1 && (#[trigger] all[j]).identity() == op.identity();
                assert(all[j].identity() != all[n - 1].identity());
            }
        }
    }
}

/// The operations of the first `n` steps stay, in place, when more steps follow.
proof fn lemma_upto_grows(
    running: Seq<ServiceSpecView>,
    disk: Seq<ServiceSpecView>,
    n: nat,
    m: nat,
)
    requires
        n <= m,
    ensures
        operations_upto(running, disk, n).len() <= operations_upto(running, disk, m).len(),
        forall|k: int|
            0 <= k < operations_upto(running, disk, n).len() ==> operations_upto(running, disk, m)[k]
                == #[trigger] operations_upto(running, disk, n)[k],
    decreases m,
{
    if n < m {
        lemma_upto_grows(running, disk, n, (m - 1) as nat);
    }
}

/// Every operation that is returned is the one that the decision table
/// gives for the service it acts on, looked up in the two lists.
pub proof fn law_operations_follow_table(
    running: Seq<ServiceSpecView>,
    disk: Seq<ServiceSpecView>,
)
    ensures
        forall|k: int|
            0 <= k < operations(running, disk).len() ==> operation_for(
                running,
                disk,
                (#[trigger] operations(running, disk)[k]).identity(),
            ) == Some(operations(running, disk)[k]),
{
    lemma_upto_origin(running, disk, running.len() + disk.len());
}

/// Whatever the decision table gives for a service is among the operations.
pub proof fn law_decisions_are_returned(
    running: Seq<ServiceSpecView>,
    disk: Seq<ServiceSpecView>,
    key: Seq<char>,
)
    requires
        operation_for(running, disk, key) is Some,
    ensures
        operations(running, disk).contains(operation_for(running, disk, key)->0),
{
    let all = running + disk;
    let total = running.len() + disk.len();
    let op = operation_for(running, disk, key)->0;
    lemma_decision_identity(running, disk, key);
    let j = choose|j: int| 0 <= j < total && (#[trigger] all[j]).identity() == key;
    let i = lemma_first_occurrence(all, j);
    let upto = operations_upto(running, disk, (i + 1) as nat);
    assert(upto.last() == op);
    lemma_upto_grows(running, disk, (i + 1) as nat, total);
    assert(operations(running, disk)[upto.len() - 1] == op);
}

/// The first place at which the name of `all[j]` occurs.
proof fn lemma_first_occurrence(all: Seq<ServiceSpecView>, j: int) -> (i: int)
    requires
        0 <= j < all.len(),
    ensures
        0 <= i <= j,
        all[i].identity() == all[j].identity(),
        first_seen(all, i),
    decreases j,
{
    if first_seen(all, j) {
        j
    } else {
        let k = choose|k: int| 0 <= k < j && (#[trigger] all[k]).identity() == all[j].identity();
        lemma_first_occurrence(all, k)
    }
}

/// No two of the operations act on the same service: a service is started,
/// stopped or restarted at most once.
pub proof fn law_one_operation_per_service(
    running: Seq<ServiceSpecView>,
    disk: Seq<ServiceSpecView>,
)
    ensures
        forall|a: int, b: int|
            0 <= a < operations(running, disk).len() && 0 <= b < operations(running, disk).len()
                && a != b ==> (#[trigger] operations(running, disk)[a]).identity() != (
            #[trigger] operations(running, disk)[b]).identity(),
{
    lemma_upto_distinct(running, disk, running.len() + disk.len());
    let ops = operations(running, disk);
    assert forall|a: int, b: int| 0 <= a < ops.len() && 0 <= b < ops.len() && a != b implies (
    #[trigger] ops[a]).identity() != (#[trigger] ops[b]).identity() by {
        if a < b {
        } else {
            assert(ops[b].identity() != ops[a].identity());
        }
    }
}

/// Reconciling the same running and declared specs again gives the same
/// operations, each as often as before.
pub proof fn law_reconciling_again_changes_nothing(
    running: Seq<ServiceSpecView>,
    disk: Seq<ServiceSpecView>,
    running_again: Seq<ServiceSpecView>,
    disk_again: Seq<ServiceSpecView>,
)
    requires
        running_again == running,
        disk_again == disk,
    ensures
        operations(running_again, disk_again).to_multiset() == operations(running, disk).to_multiset(),
{
}

/// Where the declared specs are exactly the running ones, all of them meant
/// to be up and no two of them under one name, nothing is to be done.
pub proof fn law_identical_specs_need_nothing(
    running: Seq<ServiceSpecView>,
    disk: Seq<ServiceSpecView>,
)
    requires
        forall|s: ServiceSpecView| running.contains(s) <==> disk.contains(s),
        forall|i: int| 0 <= i < running.len() ==> (#[trigger] running[i]).desired_state is Up,
        forall|i: int, j: int|
            0 <= i < running.len() && 0 <= j < running.len() && (#[trigger] running[i]).identity()
                == (#[trigger] running[j]).identity() ==> running[i] == running[j],
    ensures
        operations(running, disk).len() == 0,
{
    let ops = operations(running, disk);
    if ops.len() > 0 {
        law_operations_follow_table(running, disk);
        let key = ops[0].identity();
        lemma_latest(running, key);
        lemma_latest(disk, key);
        if latest(disk, key) is Some {
            let d = latest(disk, key)->0;
            assert(running.contains(d));
            let r = latest(running, key)->0;
            let i = choose|i: int| 0 <= i < running.len() && running[i] == d;
            let j = choose|j: int| 0 <= j < running.len() && running[j] == r;
            assert(running[i].identity() == running[j].identity());
            assert(r.desired_state is Up);
        } else if latest(running, key) is Some {
            let r = latest(running, key)->0;
            assert(disk.contains(r));
            let j = choose|j: int| 0 <= j < disk.len() && disk[j] == r;
            assert(disk[j].identity() == key);
        }
    }
}

/// A service that is declared down and does not run gets no operation.
pub proof fn law_down_and_absent_needs_nothing(
    running: Seq<ServiceSpecView>,
    disk: Seq<ServiceSpecView>,
    key: Seq<char>,
)
    requires
        latest(disk, key) matches Some(d) && d.desired_state is Down,
        latest(running, key) is None,
    ensures
        forall|k: int|
            0 <= k < operations(running, disk).len() ==> (#[trigger] operations(
                running,
                disk,
            )[k]).identity() != key,
{
    law_operations_follow_table(running, disk);
}

/// A running service whose declared spec is up and differs from the spec it
/// runs with is restarted, from the old spec to the new one, in exactly one
/// operation; nothing else among the operations acts on it.
pub proof fn law_changed_spec_is_restarted(
    running: Seq<ServiceSpecView>,
    disk: Seq<ServiceSpecView>,
    key: Seq<char>,
) -> (at: int)
    requires
        latest(running, key) is Some,
        latest(disk, key) matches Some(d) && d.desired_state is Up,
        latest(running, key) != latest(disk, key),
    ensures
        0 <= at < operations(running, disk).len(),
        operations(running, disk)[at] == (ServiceOperationView::Restart {
            to_stop: latest(running, key)->0,
            to_start: latest(disk, key)->0,
        }),
        forall|k: int|
            0 <= k < operations(running, disk).len() && k != at ==> (#[trigger] operations(
                running,
                disk,
            )[k]).identity() != key,
{
    let ops = operations(running, disk);
    let op = ServiceOperationView::Restart {
        to_stop: latest(running, key)->0,
        to_start: latest(disk, key)->0,
    };
    assert(operation_for(running, disk, key) == Some(op));
    law_decisions_are_returned(running, disk, key);
    let at = choose|at: int| 0 <= at < ops.len() && ops[at] == op;
    lemma_latest(running, key);
    law_one_operation_per_service(running, disk);
    at
}

} // verus!
