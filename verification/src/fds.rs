//! File descriptors travel beside the byte stream, and may arrive with an
//! earlier message than the one that they belong to. They are kept in line
//! until a message claims them. Here they go by numbers.

use crate::wire;
use crate::wire::{ArgView, DecodedWaylandArg};
use vstd::prelude::*;

verus! {

/// How many descriptors a message with these arguments carries.
pub open spec fn expected_fds(args: Seq<ArgView>) -> nat
    decreases args.len(),
{
    if args.len() == 0 {
        0
    } else {
        expected_fds(args.drop_last()) + (if args.last() is Fd {
            1nat
        } else {
            0nat
        })
    }
}

/// How many of `available` descriptors a message takes that expects some.
pub open spec fn taken(expected: nat, available: nat) -> nat {
    if expected < available {
        expected
    } else {
        available
    }
}

/// The descriptors that a message gets: the first ones in line, those that
/// arrived with it last.
pub open spec fn claimed(pending: Seq<u64>, fds: Seq<u64>, expected: nat) -> Seq<u64> {
    (pending + fds).take(taken(expected, (pending + fds).len()) as int)
}

/// The descriptors that stay in line.
pub open spec fn left_over(pending: Seq<u64>, fds: Seq<u64>, expected: nat) -> Seq<u64> {
    (pending + fds).skip(taken(expected, (pending + fds).len()) as int)
}

/// Gives a message the descriptors that it expects, and keeps the rest in line.
pub fn claim_fds(pending: &mut Vec<u64>, fds: &mut Vec<u64>, expected: usize)
    ensures
        final(fds)@ == claimed(old(pending)@, old(fds)@, expected as nat),
        final(pending)@ == left_over(old(pending)@, old(fds)@, expected as nat),
{
    pending.append(fds);
    let count: usize = if expected < pending.len() {
        expected
    } else {
        pending.len()
    };
    let mut rest = pending.split_off(count);
    std::mem::swap(&mut rest, pending);
    *fds = rest;
    proof {
        let all = old(pending)@ + old(fds)@;
        assert(fds@ =~= all.take(count as int));
        assert(pending@ =~= all.skip(count as int));
    }
}

/// Counts the descriptors that a message carries.
pub fn count_fds(args: &[DecodedWaylandArg]) -> (count: usize)
    ensures
        count == expected_fds(wire::arg_values(args@)),
{
    let ghost values = wire::arg_values(args@);
    let mut count: usize = 0;
    let mut index: usize = 0;
    proof {
        assert(values.take(0) =~= Seq::<ArgView>::empty());
    }
    while index < args.len()
        invariant
            index <= args@.len(),
            count <= index,
            values == wire::arg_values(args@),
            count == expected_fds(values.take(index as int)),
        decreases args@.len() - index,
    {
        proof {
            assert(values.take(index + 1).drop_last() =~= values.take(index as int));
            assert(values.take(index + 1).last() == args@[index as int]@);
        }
        match &args[index] {
            DecodedWaylandArg::Fd => {
                count = count + 1;
            },
            _ => {},
        }
        index = index + 1;
    }
    proof {
        assert(values.take(index as int) =~= values);
    }
    count
}

/// Gives a message the descriptors that its arguments ask for, and keeps the
/// rest in line.
pub fn reassociate_fds(pending: &mut Vec<u64>, args: &[DecodedWaylandArg], fds: &mut Vec<u64>)
    ensures
        final(fds)@ == claimed(
            old(pending)@,
            old(fds)@,
            expected_fds(wire::arg_values(args@)),
        ),
        final(pending)@ == left_over(
            old(pending)@,
            old(fds)@,
            expected_fds(wire::arg_values(args@)),
        ),
{
    let expected: usize = count_fds(args);
    claim_fds(pending, fds, expected);
}

/// No descriptor is lost, doubled or overtaken: what a message gets, followed
/// by what stays in line, is what was in line, followed by what arrived.
pub proof fn descriptors_stay_in_line(pending: Seq<u64>, fds: Seq<u64>, expected: nat)
    ensures
        claimed(pending, fds, expected) + left_over(pending, fds, expected) == pending + fds,
        claimed(pending, fds, expected).len() <= expected,
        left_over(pending, fds, expected).len() > 0 ==> claimed(pending, fds, expected).len()
            == expected,
{
    assert(claimed(pending, fds, expected) + left_over(pending, fds, expected) =~= pending + fds);
}

/// A descriptor that arrives with a message that carries none is given to the
/// next message that carries one.
pub proof fn early_descriptor_waits_for_its_message(fd: u64)
    ensures
        claimed(Seq::empty(), seq![fd], 0) == Seq::<u64>::empty(),
        claimed(left_over(Seq::empty(), seq![fd], 0), Seq::empty(), 1) == seq![fd],
{
    assert(Seq::<u64>::empty() + seq![fd] =~= seq![fd]);
    assert(claimed(Seq::empty(), seq![fd], 0) =~= Seq::<u64>::empty());
    assert(left_over(Seq::empty(), seq![fd], 0) =~= seq![fd]);
    assert(claimed(left_over(Seq::empty(), seq![fd], 0), Seq::empty(), 1) =~= seq![fd]);
}

} // verus!
