//! What the manager tells the gossip layer of its services.

use vstd::prelude::*;
use crate::spec::{ServiceGroup, ServiceGroupView};

verus! {

/// The incarnation of the next rumor of a service: one more than that of
/// the rumor that is out, one if none is out. The count stops at the
/// largest number it can hold.
pub fn next_incarnation(current: Option<u64>) -> (r: u64)
    ensures
        r == match current {
            Some(n) => if n < u64::MAX {
                (n + 1) as u64
            } else {
                u64::MAX
            },
            None => 1u64,
        },
{
    match current {
        Some(n) => {
            if n < u64::MAX {
                n + 1
            } else {
                u64::MAX
            }
        },
        None => 1,
    }
}

/// A service with what it says of its own suitability to lead.
#[derive(Debug, PartialEq, Eq)]
pub struct Candidate {
    pub service_group: ServiceGroup,
    pub suitability: Option<u64>,
}

/// The place of the first service of the group `group`; the number of
/// services if there is none.
pub open spec fn first_of_group(services: Seq<Candidate>, group: ServiceGroupView) -> int
    decreases services.len(),
{
    if services.len() == 0 {
        0
    } else if services.first().service_group@ == group {
        0
    } else {
        1 + first_of_group(services.drop_first(), group)
    }
}

/// The suitability of this supervisor to lead the group `group`: what the
/// first of its services in that group says, and the lowest where there is
/// no such service or it says nothing.
pub open spec fn suitability_of(services: Seq<Candidate>, group: ServiceGroupView) -> u64 {
    let at = first_of_group(services, group);
    if at < services.len() {
        match services[at].suitability {
            Some(s) => s,
            None => u64::MIN,
        }
    } else {
        u64::MIN
    }
}

proof fn lemma_first_of_group(services: Seq<Candidate>, group: ServiceGroupView, i: int)
    requires
        0 <= i <= services.len(),
        forall|j: int| 0 <= j < i ==> (#[trigger] services[j]).service_group@ != group,
        i < services.len() ==> services[i].service_group@ == group,
    ensures
        first_of_group(services, group) == i,
    decreases services.len(),
{
    if services.len() > 0 && i > 0 {
        assert(services[0].service_group@ != group);
        let rest = services.drop_first();
        assert forall|j: int| 0 <= j < i - 1 implies (#[trigger] rest[j]).service_group@
            != group by {
            assert(rest[j] == services[j + 1]);
        }
        if i < services.len() {
            assert(rest[i - 1] == services[i]);
        }
        lemma_first_of_group(rest, group, i - 1);
    }
}

/// Looks up the suitability of this supervisor to lead a service group.
pub fn suitability(services: &Vec<Candidate>, group: &ServiceGroup) -> (r: u64)
    ensures
        r == suitability_of(services@, group@),
{
    let mut i: usize = 0;
    while i < services.len()
        invariant
            i <= services.len(),
            forall|j: int| 0 <= j < i ==> (#[trigger] services@[j]).service_group@ != group@,
        decreases services.len() - i,
    {
        if services[i].service_group.same(group) {
            proof {
                lemma_first_of_group(services@, group@, i as int);
            }
            return match services[i].suitability {
                Some(s) => s,
                None => u64::MIN,
            };
        }
        i = i + 1;
    }
    proof {
        lemma_first_of_group(services@, group@, i as int);
    }
    u64::MIN
}

} // verus!
