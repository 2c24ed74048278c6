//! Supervision records for the spawned backend workers, and the shutdown
//! decision that sends every live child its termination signal exactly
//! once.

use vstd::prelude::*;

verus! {

/// The supervisor's record of one spawned worker: what it was started with,
/// and whether its termination signal has been issued.
pub struct ModelProcess {
    pub name: String,
    pub port: u16,
    pub signalled: bool,
}

/// Owns the records of every spawned worker. The operating-system child
/// handles live outside, in the order of registration; this decides which
/// of them are still owed a termination signal.
pub struct Supervisor {
    procs: Vec<ModelProcess>,
}

impl View for Supervisor {
    type V = Seq<ModelProcess>;

    closed spec fn view(&self) -> Seq<ModelProcess> {
        self.procs@
    }
}

impl Supervisor {
    pub fn new() -> (r: Supervisor)
        ensures
            r@.len() == 0,
    {
        Supervisor { procs: Vec::new() }
    }

    /// Records one freshly spawned worker, not yet signalled.
    pub fn register(&mut self, name: String, port: u16)
        ensures
            final(self)@.len() == old(self)@.len() + 1,
            final(self)@.subrange(0, old(self)@.len() as int) == old(self)@,
            final(self)@.last().name@ == name@,
            final(self)@.last().port == port,
            !final(self)@.last().signalled,
    {
        let ghost before = self.procs@;
        self.procs.push(ModelProcess { name, port, signalled: false });
        proof {
            assert(self.procs@.subrange(0, before.len() as int) =~= before);
        }
    }

    pub fn len(&self) -> (r: usize)
        ensures
            r == self@.len(),
    {
        self.procs.len()
    }

    /// Decides the shutdown signals: returns, in registration order, the
    /// index of every worker that has not been signalled yet, and marks
    /// them all signalled. Each worker appears at most once in the list,
    /// and every yet-unsignalled worker appears in it; a second shutdown
    /// therefore returns nothing.
    pub fn shutdown(&mut self) -> (kills: Vec<usize>)
        ensures
            final(self)@.len() == old(self)@.len(),
            forall|i: int|
                0 <= i < old(self)@.len() ==> (#[trigger] final(self)@[i]).name@
                    == old(self)@[i].name@ && final(self)@[i].port == old(self)@[i].port
                    && final(self)@[i].signalled,
            forall|j: int|
                0 <= j < kills@.len() ==> 0 <= #[trigger] kills@[j] < old(self)@.len()
                    && !old(self)@[kills@[j] as int].signalled,
            forall|j: int, k: int| 0 <= j < k < kills@.len() ==> kills@[j] < kills@[k],
            forall|i: int|
                0 <= i < old(self)@.len() && !(#[trigger] old(self)@[i]).signalled
                    ==> kills@.contains(i as usize),
    {
        let n = self.procs.len();
        let mut kills: Vec<usize> = Vec::new();
        let mut done: Vec<ModelProcess> = Vec::new();
        let mut i: usize = 0;
        while i < n
            invariant
                n == self@.len(),
                i <= n,
                done@.len() == i,
                forall|p: int|
                    0 <= p < i ==> (#[trigger] done@[p]).name@ == self@[p].name@ && done@[p].port
                        == self@[p].port && done@[p].signalled,
                forall|j: int|
                    0 <= j < kills@.len() ==> 0 <= #[trigger] kills@[j] < i && !self@[kills@[j] as int].signalled,
                forall|j: int, k: int| 0 <= j < k < kills@.len() ==> kills@[j] < kills@[k],
                forall|p: int|
                    0 <= p < i && !(#[trigger] self@[p]).signalled ==> kills@.contains(p as usize),
            decreases n - i,
        {
            let ghost pre_kills = kills@;
            let p = &self.procs[i];
            if !p.signalled {
                kills.push(i);
            }
            done.push(ModelProcess { name: p.name.clone(), port: p.port, signalled: true });
            proof {
                assert forall|q: int|
                    0 <= q < i + 1 && !(#[trigger] self@[q]).signalled implies kills@.contains(
                    q as usize,
                ) by {
                    if q < i {
                        assert(pre_kills.contains(q as usize));
                        let j = choose|j: int|
                            0 <= j < pre_kills.len() && pre_kills[j] == q as usize;
                        assert(kills@[j] == q as usize);
                    } else {
                        assert(kills@[kills@.len() - 1] == i as usize);
                    }
                }
            }
            i += 1;
        }
        self.procs = done;
        kills
    }
}

/// Law: a shutdown signals each worker at most once — no index appears
/// twice in the kill list.
pub proof fn lemma_signal_at_most_once(kills: Seq<usize>, j: int, k: int)
    requires
        forall|a: int, b: int| 0 <= a < b < kills.len() ==> kills[a] < kills[b],
        0 <= j < kills.len(),
        0 <= k < kills.len(),
        kills[j] == kills[k],
    ensures
        j == k,
{
}

} // verus!
