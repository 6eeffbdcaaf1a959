//! The threads of the debuggee.

use vstd::prelude::*;

verus! {

/// A thread as the debugger lists it.
#[derive(Clone, Copy, Debug, PartialEq, Eq)]
pub struct ThreadSnapshot {
    /// Its process id in the system.
    pub pid: i32,
    /// Its number in the debugger.
    pub number: u32,
}

/// The number of the first listed thread with this process id.
pub open spec fn number_of(threads: Seq<ThreadSnapshot>, pid: i32) -> Option<u32>
    decreases threads.len(),
{
    if threads.len() == 0 {
        None
    } else if threads[0].pid == pid {
        Some(threads[0].number)
    } else {
        number_of(threads.drop_first(), pid)
    }
}

/// Looks a thread up by its process id.
pub fn find_thread(threads: &Vec<ThreadSnapshot>, pid: i32) -> (r: Option<u32>)
    ensures
        r == number_of(threads@, pid),
{
    assert(threads@.skip(0) =~= threads@);
    for i in 0..threads.len()
        invariant
            number_of(threads@, pid) == number_of(threads@.skip(i as int), pid),
    {
        let rest = Ghost(threads@.skip(i as int));
        assert(rest@.drop_first() =~= threads@.skip(i + 1));
        assert(rest@[0] == threads@[i as int]);
        if threads[i].pid == pid {
            return Some(threads[i].number);
        }
    }
    None
}

/// A thread is found exactly if it is listed, and the first one with its process id counts.
pub proof fn law_first_listed_thread_is_found(threads: Seq<ThreadSnapshot>, pid: i32, i: int)
    requires
        0 <= i < threads.len(),
    ensures
        threads[i].pid == pid && (forall|j: int|
            0 <= j < i ==> (#[trigger] threads[j]).pid != pid) ==> number_of(threads, pid) == Some(
            threads[i].number,
        ),
        number_of(threads, pid) is None ==> threads[i].pid != pid,
        number_of(threads, pid) is Some ==> exists|j: int|
            0 <= j < threads.len() && (#[trigger] threads[j]).pid == pid && threads[j].number
                == number_of(threads, pid)->0,
    decreases threads.len(),
{
    if threads[0].pid == pid {
        assert(threads[0].number == number_of(threads, pid)->0);
    } else if threads.len() > 1 {
        let rest = threads.drop_first();
        let k = if i > 0 {
            i - 1
        } else {
            0
        };
        law_first_listed_thread_is_found(rest, pid, k);
        if i > 0 {
            if threads[i].pid == pid && (forall|j: int|
                0 <= j < i ==> (#[trigger] threads[j]).pid != pid) {
                assert forall|j: int| 0 <= j < k implies (#[trigger] rest[j]).pid != pid by {
                    assert(rest[j] == threads[j + 1]);
                }
            }
        }
        if number_of(threads, pid) is Some {
            let j = choose|j: int|
                0 <= j < rest.len() && (#[trigger] rest[j]).pid == pid && rest[j].number
                    == number_of(rest, pid)->0;
            assert(threads[j + 1] == rest[j]);
        }
    } else {
        assert(number_of(threads.drop_first(), pid) is None);
    }
}

} // verus!
