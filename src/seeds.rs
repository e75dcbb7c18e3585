use vstd::prelude::*;
use crate::topology::Topology;

verus! {

/// A resistor whose value the operator picks freely; the others follow from it.
#[derive(Clone, Copy, Debug, PartialEq, Eq, Structural)]
pub enum Seed {
    R1,
    R2,
    Rf,
}

/// The resistors the operator is asked for, in the order they are asked.
pub open spec fn seed_plan(t: Topology) -> Seq<Seed> {
    match t {
        Topology::TopologyA => seq![Seed::R1, Seed::Rf],
        Topology::TopologyB => seq![Seed::Rf],
        Topology::TopologyC => seq![Seed::Rf, Seed::R2],
        Topology::TopologyD => seq![Seed::Rf],
    }
}

/// The number of resistor values the operator chooses for topology `t`.
pub fn seed_count(t: Topology) -> (n: usize)
    ensures
        n == seed_plan(t).len(),
{
    match t {
        Topology::TopologyA => 2,
        Topology::TopologyB => 1,
        Topology::TopologyC => 2,
        Topology::TopologyD => 1,
    }
}

/// The resistor to ask for once `supplied` values have been given for
/// topology `t`, or `None` when all of them are in and the rest can be
/// computed.
pub fn next_seed(t: Topology, supplied: usize) -> (r: Option<Seed>)
    ensures
        supplied < seed_plan(t).len() ==> r == Some(seed_plan(t)[supplied as int]),
        supplied >= seed_plan(t).len() ==> r is None,
{
    match t {
        Topology::TopologyA => {
            if supplied == 0 {
                Some(Seed::R1)
            } else if supplied == 1 {
                Some(Seed::Rf)
            } else {
                None
            }
        },
        Topology::TopologyC => {
            if supplied == 0 {
                Some(Seed::Rf)
            } else if supplied == 1 {
                Some(Seed::R2)
            } else {
                None
            }
        },
        _ => {
            if supplied == 0 {
                Some(Seed::Rf)
            } else {
                None
            }
        },
    }
}

/// All requests for topology `t`, in order.
pub fn seed_requests(t: Topology) -> (v: Vec<Seed>)
    ensures
        v@ == seed_plan(t),
{
    let n = seed_count(t);
    let mut v: Vec<Seed> = Vec::new();
    let mut i: usize = 0;
    while i < n
        invariant
            n == seed_plan(t).len(),
            i <= n,
            v@ == seed_plan(t).subrange(0, i as int),
        decreases n - i,
    {
        match next_seed(t, i) {
            Some(s) => v.push(s),
            None => {},
        }
        i = i + 1;
        assert(v@ =~= seed_plan(t).subrange(0, i as int));
    }
    assert(v@ =~= seed_plan(t));
    v
}

/// Every topology asks for the feedback resistor exactly once, asks for no
/// resistor twice, and asks for at most two.
pub proof fn lemma_plan_shape(t: Topology)
    ensures
        1 <= seed_plan(t).len() <= 2,
        seed_plan(t).contains(Seed::Rf),
        seed_plan(t).no_duplicates(),
{
    assert(seed_plan(t).contains(Seed::Rf)) by {
        match t {
            Topology::TopologyA => assert(seed_plan(t)[1] == Seed::Rf),
            _ => assert(seed_plan(t)[0] == Seed::Rf),
        }
    }
}

} // verus!
