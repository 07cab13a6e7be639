//! Laying the table: from a configuration to the philosophers and their
//! forks.

use crate::config::{ConfigError, PhilosopherArguments};
use crate::philosopher::Philosopher;
use crate::table::{all_free, Table};
use vstd::prelude::*;

verus! {

/// The philosopher on seat `index` of a round table with `count` seats: the
/// left fork has the seat's own number, the right fork the number of the
/// next seat, and the last seat's right fork is fork zero.
pub open spec fn seat(index: int, count: int, range: (u32, u32)) -> Philosopher {
    Philosopher {
        index: index as usize,
        left: index as usize,
        right: ((index + 1) % count) as usize,
        range,
    }
}

/// No two philosophers share a number, and every fork they reach for is on
/// the table.
pub open spec fn party(philosophers: Seq<Philosopher>, forks: nat) -> bool {
    &&& forall|i: int|
        0 <= i < philosophers.len() ==> (#[trigger] philosophers[i]).left < forks
            && philosophers[i].right < forks
    &&& forall|i: int, j: int|
        0 <= i < j < philosophers.len() ==> (#[trigger] philosophers[i]).index != (
        #[trigger] philosophers[j]).index
}

/// Every seat is well formed and has its forks on the table; with two
/// seats or more its two forks differ; and its right fork is the left fork
/// of the next seat.
pub proof fn lemma_seat(index: int, count: int, range: (u32, u32))
    requires
        0 <= index < count <= i32::MAX,
        range.0 <= range.1,
    ensures
        seat(index, count, range).seated_at(count as nat),
        count >= 2 ==> seat(index, count, range).left != seat(index, count, range).right,
        seat(index, count, range).right == seat((index + 1) % count, count, range).left,
{
    if index + 1 < count {
        vstd::arithmetic::div_mod::lemma_small_mod((index + 1) as nat, count as nat);
    } else {
        vstd::arithmetic::div_mod::lemma_mod_self_0(count);
    }
}

/// Checks the configuration and lays the table: one philosopher on each
/// seat, all with the range in force, and as many free forks as seats. A
/// configuration that does not pass the check builds nothing.
pub fn setup(args: &PhilosopherArguments) -> (built: Result<(Vec<Philosopher>, Table), ConfigError>)
    ensures
        match built {
            Ok((philosophers, table)) => {
                &&& args.verdict() is Ok
                &&& philosophers@.len() == args.number_of_philosophers
                &&& forall|i: int|
                    0 <= i < philosophers@.len() ==> #[trigger] philosophers@[i] == seat(
                        i,
                        args.number_of_philosophers as int,
                        args.range(),
                    )
                &&& forall|i: int|
                    0 <= i < philosophers@.len() ==> (#[trigger] philosophers@[i]).seated_at(
                        table@.len(),
                    )
                &&& party(philosophers@, table@.len())
                &&& table@ == all_free(args.number_of_philosophers as nat)
            },
            Err(e) => args.verdict() == Err::<(), ConfigError>(e),
        },
{
    match args.validate() {
        Err(e) => {
            return Err(e);
        },
        Ok(_) => {},
    }
    let count: usize = args.number_of_philosophers as usize;
    let range: (u32, u32) = args.effective_range();
    let mut philosophers: Vec<Philosopher> = Vec::new();
    let mut index: usize = 0;
    while index < count
        invariant
            index <= count,
            0 < count <= i32::MAX,
            count == args.number_of_philosophers,
            range == args.range(),
            range.0 <= range.1,
            philosophers@.len() == index,
            forall|i: int|
                0 <= i < index ==> #[trigger] philosophers@[i] == seat(i, count as int, range),
            forall|i: int|
                0 <= i < index ==> (#[trigger] philosophers@[i]).seated_at(count as nat),
        decreases count - index,
    {
        let right: usize = (index + 1) % count;
        philosophers.push(Philosopher::new(index, index, right, range));
        index = index + 1;
    }
    let table: Table = Table::new(count);
    Ok((philosophers, table))
}

} // verus!
