//! A bot's running tasks, recorded by key: at most one task per key, and
//! recording a task under a key hands back the one it replaces.

use vstd::prelude::*;
use crate::text::text_eq;
use crate::control::{ControlStep, ModuleCommand, control_steps_spec, routine_spec};

verus! {

/// The tasks of one bot, each recorded under a key.
pub struct TaskRegistry<H> {
    entries: Vec<(String, H)>,
}

/// What the steps of a command leave recorded, starting from `tasks`, when
/// they record the started task `h` under `key`: a stop removes the key, a
/// recorded start puts `h` under it, an unrecorded start leaves the record.
pub open spec fn apply_steps<H>(
    tasks: Map<Seq<char>, H>,
    steps: Seq<ControlStep>,
    key: Seq<char>,
    h: H,
) -> Map<Seq<char>, H>
    decreases steps.len(),
{
    if steps.len() == 0 {
        tasks
    } else {
        let before = apply_steps(tasks, steps.drop_last(), key, h);
        match steps.last() {
            ControlStep::Stop => before.remove(key),
            ControlStep::Start { register, .. } => if register {
                before.insert(key, h)
            } else {
                before
            },
        }
    }
}

/// What a command leaves recorded under its key, when its started task `h`
/// is recorded as its steps say: an enabled action, switched module or chat
/// spam leaves exactly `h` under the key, replacing whatever ran there; a
/// disabled one leaves nothing under the key; a chat message and the
/// inventory action leave the record as it was. Other keys are untouched.
pub proof fn lemma_command_leaves_one_task<H>(
    cmd: ModuleCommand,
    tasks: Map<Seq<char>, H>,
    key: Seq<char>,
    h: H,
)
    ensures
        apply_steps(tasks, control_steps_spec(cmd), key, h) == (match cmd {
            ModuleCommand::Chat { mode, state } => if mode@ == "spamming"@ {
                if state {
                    tasks.insert(key, h)
                } else {
                    tasks.remove(key)
                }
            } else {
                tasks
            },
            ModuleCommand::Action { state, .. } => if state {
                tasks.insert(key, h)
            } else {
                tasks.remove(key)
            },
            ModuleCommand::Switch { state, .. } => if state {
                tasks.insert(key, h)
            } else {
                tasks.remove(key)
            },
            ModuleCommand::Inventory => tasks,
        }),
{
    let steps = control_steps_spec(cmd);
    let stop = ControlStep::Stop;
    let start_reg = ControlStep::Start { routine: routine_spec(cmd), register: true };
    let start_free = ControlStep::Start { routine: routine_spec(cmd), register: false };
    let empty = Seq::<ControlStep>::empty();
    assert(apply_steps(tasks, empty, key, h) == tasks);
    assert(seq![stop].drop_last() =~= empty);
    assert(seq![stop].last() == stop);
    assert(apply_steps(tasks, seq![stop], key, h) == tasks.remove(key));
    assert(seq![start_free].drop_last() =~= empty);
    assert(seq![start_free].last() == start_free);
    assert(apply_steps(tasks, seq![start_free], key, h) == tasks);
    match cmd {
        ModuleCommand::Chat { mode, state } => {
            if mode@ == "spamming"@ {
                if state {
                    assert(steps =~= seq![stop, start_reg]);
                    assert(steps.drop_last() =~= seq![stop]);
                    assert(tasks.remove(key).insert(key, h) =~= tasks.insert(key, h));
                } else {
                    assert(steps =~= seq![stop, stop]);
                    assert(steps.drop_last() =~= seq![stop]);
                    assert(tasks.remove(key).remove(key) =~= tasks.remove(key));
                }
            } else if state {
                assert(steps =~= seq![start_free]);
            } else {
                assert(steps =~= empty);
            }
        },
        ModuleCommand::Inventory => {
            assert(steps =~= seq![start_free]);
        },
        _ => {
            assert(steps.drop_last() =~= seq![stop]);
            assert(tasks.remove(key).insert(key, h) =~= tasks.insert(key, h));
            assert(tasks.remove(key).remove(key) =~= tasks.remove(key));
        },
    }
}

impl<H> TaskRegistry<H> {
    /// Keys are recorded once each.
    pub closed spec fn wf(&self) -> bool {
        forall|i: int, j: int|
            0 <= i < j < self.entries@.len() ==> (#[trigger] self.entries@[i]).0@
                != (#[trigger] self.entries@[j]).0@
    }

    /// Some entry is recorded under key `k`.
    pub closed spec fn has(&self, k: Seq<char>) -> bool {
        exists|i: int| 0 <= i < self.entries@.len() && (#[trigger] self.entries@[i]).0@ == k
    }

    /// The entry recorded under key `k`.
    pub closed spec fn pos(&self, k: Seq<char>) -> int {
        choose|i: int| 0 <= i < self.entries@.len() && (#[trigger] self.entries@[i]).0@ == k
    }

    /// The recorded tasks, by key.
    pub closed spec fn tasks(&self) -> Map<Seq<char>, H> {
        Map::new(|k: Seq<char>| self.has(k), |k: Seq<char>| self.entries@[self.pos(k)].1)
    }

    proof fn lemma_pos(&self, i: int)
        requires
            self.wf(),
            0 <= i < self.entries@.len(),
        ensures
            self.has(self.entries@[i].0@),
            self.pos(self.entries@[i].0@) == i,
            self.tasks()[self.entries@[i].0@] == self.entries@[i].1,
    {
        let k = self.entries@[i].0@;
        assert(self.has(k));
        let p = self.pos(k);
        if p != i {
            if p < i {
                assert(self.entries@[p].0@ != self.entries@[i].0@);
            } else {
                assert(self.entries@[i].0@ != self.entries@[p].0@);
            }
        }
    }

    /// An empty registry.
    pub fn new() -> (res: TaskRegistry<H>)
        ensures
            res.wf(),
            res.tasks() == Map::<Seq<char>, H>::empty(),
    {
        let res = TaskRegistry { entries: Vec::new() };
        assert(res.tasks() =~= Map::<Seq<char>, H>::empty());
        res
    }

    /// The index of the entry recorded under `key`, if any.
    fn find(&self, key: &str) -> (res: Option<usize>)
        requires
            self.wf(),
        ensures
            res is None <==> !self.has(key@),
            res matches Some(i) ==> i < self.entries@.len() && self.entries@[i as int].0@ == key@,
    {
        let n: usize = self.entries.len();
        let mut i: usize = 0;
        while i < n
            invariant
                n == self.entries@.len(),
                i <= n,
                forall|j: int| 0 <= j < i ==> (#[trigger] self.entries@[j]).0@ != key@,
            decreases n - i,
        {
            if text_eq(self.entries[i].0.as_str(), key) {
                return Some(i);
            }
            i = i + 1;
        }
        None
    }

    /// Whether a task is recorded under `key`.
    pub fn is_recorded(&self, key: &str) -> (res: bool)
        requires
            self.wf(),
        ensures
            res == self.tasks().dom().contains(key@),
    {
        self.find(key).is_some()
    }

    /// The task recorded under `key`, if any.
    pub fn get(&self, key: &str) -> (res: Option<&H>)
        requires
            self.wf(),
        ensures
            res is Some <==> self.tasks().dom().contains(key@),
            res matches Some(h) ==> *h == self.tasks()[key@],
    {
        match self.find(key) {
            Some(i) => {
                proof {
                    self.lemma_pos(i as int);
                }
                Some(&self.entries[i].1)
            },
            None => None,
        }
    }

    /// Removing the entry at `i` removes its key from the record.
    proof fn lemma_remove(&self, after: &Self, i: int)
        requires
            self.wf(),
            0 <= i < self.entries@.len(),
            after.entries@ == self.entries@.remove(i),
        ensures
            after.wf(),
            after.tasks() == self.tasks().remove(self.entries@[i].0@),
    {
        let key = self.entries@[i].0@;
        assert forall|a: int, b: int|
            0 <= a < b < after.entries@.len() implies (#[trigger] after.entries@[a]).0@
            != (#[trigger] after.entries@[b]).0@ by {
            let a2 = if a < i { a } else { a + 1 };
            let b2 = if b < i { b } else { b + 1 };
            assert(after.entries@[a] == self.entries@[a2]);
            assert(after.entries@[b] == self.entries@[b2]);
            assert(self.entries@[a2].0@ != self.entries@[b2].0@);
        }
        assert forall|k: Seq<char>| #[trigger] after.has(k) <==> (self.has(k) && k != key) by {
            if after.has(k) {
                let a = choose|a: int| 0 <= a < after.entries@.len() && (#[trigger] after.entries@[a]).0@ == k;
                let a2 = if a < i { a } else { a + 1 };
                assert(self.entries@[a2] == after.entries@[a]);
                assert(self.has(k));
                self.lemma_pos(a2);
                self.lemma_pos(i);
            }
            if self.has(k) && k != key {
                let p = choose|p: int| 0 <= p < self.entries@.len() && (#[trigger] self.entries@[p]).0@ == k;
                let a = if p < i { p } else { p - 1 };
                assert(after.entries@[a] == self.entries@[p]);
            }
        }
        assert forall|k: Seq<char>| after.has(k) implies after.tasks()[k] == self.tasks().remove(key)[k] by {
            let a = after.pos(k);
            after.lemma_pos(a);
            let a2 = if a < i { a } else { a + 1 };
            assert(after.entries@[a] == self.entries@[a2]);
            self.lemma_pos(a2);
        }
        assert(after.tasks() =~= self.tasks().remove(key));
    }

    /// Records task `h` under `key`, handing back the task it replaces (to be
    /// ended by the caller), or `None` when the key was free.
    pub fn run_task(&mut self, key: &str, h: H) -> (res: Option<H>)
        requires
            old(self).wf(),
        ensures
            final(self).wf(),
            final(self).tasks() == old(self).tasks().insert(key@, h),
            res is Some <==> old(self).tasks().dom().contains(key@),
            res matches Some(prev) ==> prev == old(self).tasks()[key@],
    {
        let ghost start = *self;
        let found = self.find(key);
        let prev = match found {
            Some(i) => {
                proof {
                    start.lemma_pos(i as int);
                }
                let entry = self.entries.remove(i);
                proof {
                    start.lemma_remove(self, i as int);
                }
                Some(entry.1)
            },
            None => None,
        };
        let ghost mid = *self;
        assert(!mid.has(key@));
        self.entries.push((String::from_str(key), h));
        proof {
            let n: int = mid.entries@.len() as int;
            assert forall|a: int, b: int|
                0 <= a < b < self.entries@.len() implies (#[trigger] self.entries@[a]).0@
                != (#[trigger] self.entries@[b]).0@ by {
                if b == n {
                    assert(self.entries@[a] == mid.entries@[a]);
                    assert(mid.has(self.entries@[a].0@));
                } else {
                    assert(self.entries@[a] == mid.entries@[a]);
                    assert(self.entries@[b] == mid.entries@[b]);
                }
            }
            assert forall|k: Seq<char>| #[trigger] self.has(k) <==> (mid.has(k) || k == key@) by {
                if self.has(k) {
                    let a = choose|a: int| 0 <= a < self.entries@.len() && (#[trigger] self.entries@[a]).0@ == k;
                    if a < n {
                        assert(self.entries@[a] == mid.entries@[a]);
                    }
                }
                if mid.has(k) {
                    let a = choose|a: int| 0 <= a < mid.entries@.len() && (#[trigger] mid.entries@[a]).0@ == k;
                    assert(self.entries@[a] == mid.entries@[a]);
                }
                if k == key@ {
                    assert(self.entries@[n].0@ == k);
                }
            }
            assert forall|k: Seq<char>| self.has(k) implies self.tasks()[k] == mid.tasks().insert(key@, h)[k] by {
                let a = self.pos(k);
                self.lemma_pos(a);
                if a < n {
                    assert(self.entries@[a] == mid.entries@[a]);
                    mid.lemma_pos(a);
                }
            }
            assert(self.tasks() =~= mid.tasks().insert(key@, h));
            assert(mid.tasks().insert(key@, h) =~= start.tasks().insert(key@, h));
        }
        prev
    }

    /// Removes the task recorded under `key`, handing it back (to be ended by
    /// the caller), or `None` when nothing is recorded there.
    pub fn stop_task(&mut self, key: &str) -> (res: Option<H>)
        requires
            old(self).wf(),
        ensures
            final(self).wf(),
            final(self).tasks() == old(self).tasks().remove(key@),
            res is Some <==> old(self).tasks().dom().contains(key@),
            res matches Some(prev) ==> prev == old(self).tasks()[key@],
    {
        let ghost start = *self;
        match self.find(key) {
            Some(i) => {
                proof {
                    start.lemma_pos(i as int);
                }
                let entry = self.entries.remove(i);
                proof {
                    start.lemma_remove(self, i as int);
                }
                Some(entry.1)
            },
            None => {
                assert(start.tasks().remove(key@) =~= start.tasks());
                None
            },
        }
    }
}

} // verus!
