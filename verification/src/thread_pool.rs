use vstd::prelude::*;
use std::collections::VecDeque;

verus! {

/// One deferred action on a resource: made once, run once.
pub struct Task<F> {
    inner: F,
}

impl<F> Task<F> {
    /// The action that running the task performs.
    pub closed spec fn action(self) -> F {
        self.inner
    }

    pub fn new(f: F) -> (task: Self)
        ensures
            task.action() == f,
    {
        Task { inner: f }
    }

    /// Runs the action on `resource`, to which it has exclusive access until
    /// it returns.
    pub fn run<T>(self, resource: &mut T) where F: FnOnce(&mut T)
        requires
            forall|r: &mut T| *r == *old(resource) ==> call_requires(self.action(), (r,)),
        ensures
            exists|r: &mut T|
                *r == *old(resource) && *final(r) == *final(resource) && call_ensures(
                    self.action(),
                    (r,),
                    (),
                ),
    {
        (self.inner)(resource)
    }
}

/// What travels through the queue of a pool.
pub enum Message<J> {
    /// A task for whichever worker is free first.
    Task(J),
    /// The order, to the one worker that takes it, to stop.
    Terminate,
}

/// What a worker is doing.
#[derive(Clone, Copy, Debug, PartialEq, Eq, Structural)]
pub enum WorkerState {
    /// Waiting for a task; its resource rests in the pool.
    Idle,
    /// Running a task that holds its resource.
    Busy,
    /// Stopped for good.
    Stopped,
}

/// What a worker that asked for work is given.
pub enum Assignment<T, J> {
    /// A job, and the worker's resource to run it on; the resource goes back
    /// to the pool afterwards.
    Run(J, T),
    /// Stop.
    Terminate,
}

/// What a probe around each task would record: a task beginning on a worker,
/// with that worker's resource, or ending there.
pub enum Record {
    Began(nat),
    Ended(nat),
}

impl Record {
    /// By how much the record changes the number of tasks under way on
    /// `worker`.
    pub open spec fn change(self, worker: nat) -> int {
        match self {
            Record::Began(w) => if w == worker { 1 } else { 0 },
            Record::Ended(w) => if w == worker { -1 } else { 0 },
        }
    }
}

/// How many tasks are under way on `worker` at the end of `log`.
pub open spec fn under_way(log: Seq<Record>, worker: nat) -> int
    decreases log.len(),
{
    if log.len() == 0 {
        0
    } else {
        under_way(log.drop_last(), worker) + log.last().change(worker)
    }
}

/// At no moment of `log` are two tasks under way on one worker, that is
/// with one resource.
pub open spec fn exclusive(log: Seq<Record>) -> bool {
    forall|k: int, worker: nat|
        0 <= k <= log.len() ==> 0 <= #[trigger] under_way(log.take(k), worker) <= 1
}

/// A record that leaves every worker with at most one task keeps the log
/// exclusive.
pub proof fn lemma_record_keeps_exclusive(log: Seq<Record>, record: Record)
    requires
        exclusive(log),
        forall|worker: nat| 0 <= #[trigger] under_way(log, worker) + record.change(worker) <= 1,
    ensures
        exclusive(log.push(record)),
        forall|worker: nat| #[trigger]
            under_way(log.push(record), worker) == under_way(log, worker) + record.change(worker),
{
    let next = log.push(record);
    assert(next.drop_last() =~= log);
    assert forall|k: int, worker: nat| 0 <= k <= next.len() implies 0 <= #[trigger] under_way(
        next.take(k),
        worker,
    ) <= 1 by {
        if k <= log.len() {
            assert(next.take(k) =~= log.take(k));
            assert(0 <= under_way(log.take(k), worker) <= 1);
        } else {
            assert(next.take(k) =~= next);
            assert(0 <= under_way(log, worker) + record.change(worker) <= 1);
        }
    }
}

/// The bookkeeping of a fixed set of workers that share one queue. Each
/// worker is bound to one resource for the pool's lifetime; the resource
/// leaves the pool for as long as a task of that worker runs, and for no
/// other reason.
pub struct WorkerPool<T, J> {
    queue: VecDeque<Message<J>>,
    resources: Vec<Option<T>>,
    states: Vec<WorkerState>,
    log: Ghost<Seq<Record>>,
}

impl<T, J> WorkerPool<T, J> {
    /// A resource is out of the pool exactly while its worker is busy, and
    /// the log agrees with the workers' states.
    pub closed spec fn wf(&self) -> bool {
        &&& self.resources@.len() == self.states@.len()
        &&& forall|w: int|
            0 <= w < self.states@.len() ==> (#[trigger] self.states@[w] is Busy
                <==> self.resources@[w] is None)
        &&& exclusive(self.log@)
        &&& forall|w: nat| #[trigger]
            under_way(self.log@, w) == if w < self.states@.len() && self.states@[w as int] is Busy {
                1int
            } else {
                0int
            }
    }

    /// Every task that began or ended on a worker of this pool, in order.
    pub closed spec fn log(&self) -> Seq<Record> {
        self.log@
    }

    /// The messages waiting, the oldest first.
    pub closed spec fn queue(&self) -> Seq<Message<J>> {
        self.queue@
    }

    /// The state of each worker, by its number.
    pub closed spec fn workers(&self) -> Seq<WorkerState> {
        self.states@
    }

    /// The resource of each worker, by the worker's number; `None` while
    /// a task holds it.
    pub closed spec fn resources(&self) -> Seq<Option<T>> {
        self.resources@
    }

    /// No resource serves two tasks at once. At no moment of the pool's
    /// history were two tasks under way on one worker; and now, a task is
    /// under way on a worker exactly if the worker is busy, which is exactly
    /// when its resource is out of the pool.
    pub proof fn lemma_resource_is_exclusive(&self, worker: nat)
        requires
            self.wf(),
        ensures
            exclusive(self.log()),
            self.resources().len() == self.workers().len(),
            worker < self.workers().len() ==> (self.workers()[worker as int] is Busy
                <==> self.resources()[worker as int] is None),
            under_way(self.log(), worker) == if worker < self.workers().len()
                && self.workers()[worker as int] is Busy {
                1int
            } else {
                0int
            },
    {
    }

    /// A pool of `num_workers` idle workers and an empty queue. The factory
    /// runs once for each worker, in order, before the pool exists.
    pub fn new<F: Fn() -> T>(num_workers: usize, f: F) -> (pool: Self)
        requires
            call_requires(f, ()),
        ensures
            pool.wf(),
            pool.queue() == Seq::<Message<J>>::empty(),
            pool.log() == Seq::<Record>::empty(),
            pool.workers() == Seq::new(num_workers as nat, |w: int| WorkerState::Idle),
            pool.resources().len() == num_workers,
            forall|w: int|
                0 <= w < num_workers ==> (#[trigger] pool.resources()[w] matches Some(r)
                    && call_ensures(f, (), r)),
    {
        let mut resources: Vec<Option<T>> = Vec::new();
        let mut states: Vec<WorkerState> = Vec::new();
        let mut id: usize = 0;
        while id < num_workers
            invariant
                id <= num_workers,
                call_requires(f, ()),
                resources@.len() == id,
                states@ == Seq::new(id as nat, |w: int| WorkerState::Idle),
                forall|w: int|
                    0 <= w < id ==> (#[trigger] resources@[w] matches Some(r) && call_ensures(
                        f,
                        (),
                        r,
                    )),
            decreases num_workers - id,
        {
            let resource = f();
            resources.push(Some(resource));
            states.push(WorkerState::Idle);
            id = id + 1;
            assert(states@ =~= Seq::new(id as nat, |w: int| WorkerState::Idle));
        }
        assert forall|k: int, w: nat| 0 <= k <= 0 implies 0 <= #[trigger] under_way(
            Seq::<Record>::empty().take(k),
            w,
        ) <= 1 by {
            assert(Seq::<Record>::empty().take(k) =~= Seq::<Record>::empty());
        }
        WorkerPool { queue: VecDeque::new(), resources, states, log: Ghost(Seq::empty()) }
    }

    pub fn num_workers(&self) -> (n: usize)
        ensures
            n == self.workers().len(),
    {
        self.states.len()
    }

    /// Messages waiting in the queue.
    pub fn queued(&self) -> (n: usize)
        ensures
            n == self.queue().len(),
    {
        self.queue.len()
    }

    pub fn state(&self, worker: usize) -> (state: Option<WorkerState>)
        ensures
            state == if worker < self.workers().len() {
                Some(self.workers()[worker as int])
            } else {
                None
            },
    {
        if worker < self.states.len() {
            Some(self.states[worker])
        } else {
            None
        }
    }

    /// Puts a task at the end of the queue. No worker is touched.
    pub fn execute(&mut self, job: J)
        requires
            old(self).wf(),
        ensures
            final(self).wf(),
            final(self).queue() == old(self).queue().push(Message::Task(job)),
            final(self).workers() == old(self).workers(),
            final(self).resources() == old(self).resources(),
            final(self).log() == old(self).log(),
    {
        self.queue.push_back(Message::Task(job));
    }

    /// Puts one order to stop at the end of the queue for each worker: every
    /// task queued before is taken first.
    pub fn terminate(&mut self)
        requires
            old(self).wf(),
        ensures
            final(self).wf(),
            final(self).queue() == old(self).queue() + Seq::new(
                old(self).workers().len(),
                |i: int| Message::<J>::Terminate,
            ),
            final(self).workers() == old(self).workers(),
            final(self).resources() == old(self).resources(),
            final(self).log() == old(self).log(),
    {
        let n: usize = self.states.len();
        let ghost before = self.queue@;
        let mut sent: usize = 0;
        while sent < n
            invariant
                sent <= n,
                n == self.states@.len(),
                self.states@ == old(self).states@,
                self.resources@ == old(self).resources@,
                self.log@ == old(self).log@,
                self.queue@ == before + Seq::new(sent as nat, |i: int| Message::<J>::Terminate),
            decreases n - sent,
        {
            self.queue.push_back(Message::Terminate);
            sent = sent + 1;
            assert(self.queue@ =~= before + Seq::new(
                sent as nat,
                |i: int| Message::<J>::Terminate,
            ));
        }
    }

    /// Gives an idle worker the oldest message. With a task goes the
    /// worker's resource, and the worker is busy until it hands the resource
    /// back; an order to stop stops the worker. A worker that is busy or
    /// stopped, a number that names no worker, and an empty queue give
    /// nothing and change nothing.
    pub fn take(&mut self, worker: usize) -> (assignment: Option<Assignment<T, J>>)
        requires
            old(self).wf(),
        ensures
            final(self).wf(),
            final(self).workers().len() == old(self).workers().len(),
            final(self).resources().len() == old(self).resources().len(),
            forall|w: int|
                0 <= w < old(self).workers().len() && w != worker ==> final(self).workers()[w]
                    == old(self).workers()[w] && final(self).resources()[w] == old(
                    self,
                ).resources()[w],
            match assignment {
                None => {
                    &&& worker >= old(self).workers().len() || !(old(self).workers()[worker as int]
                        is Idle) || old(self).queue().len() == 0
                    &&& final(self).queue() == old(self).queue()
                    &&& final(self).workers() == old(self).workers()
                    &&& final(self).resources() == old(self).resources()
                    &&& final(self).log() == old(self).log()
                },
                Some(given) => {
                    &&& worker < old(self).workers().len()
                    &&& old(self).workers()[worker as int] is Idle
                    &&& old(self).queue().len() > 0
                    &&& final(self).queue() == old(self).queue().drop_first()
                    &&& match given {
                        Assignment::Run(job, resource) => {
                            &&& old(self).queue()[0] == Message::Task(job)
                            &&& old(self).resources()[worker as int] == Some(resource)
                            &&& final(self).workers()[worker as int] is Busy
                            &&& final(self).resources()[worker as int] is None
                            &&& final(self).log() == old(self).log().push(
                                Record::Began(worker as nat),
                            )
                        },
                        Assignment::Terminate => {
                            &&& old(self).queue()[0] is Terminate
                            &&& final(self).workers()[worker as int] is Stopped
                            &&& final(self).resources()[worker as int] == old(
                                self,
                            ).resources()[worker as int]
                            &&& final(self).log() == old(self).log()
                        },
                    }
                },
            },
    {
        if worker >= self.states.len() {
            return None;
        }
        match self.states[worker] {
            WorkerState::Idle => {},
            _ => {
                return None;
            },
        }
        match self.queue.pop_front() {
            None => None,
            Some(Message::Task(job)) => {
                let slot: Option<T> = self.resources.remove(worker);
                self.resources.insert(worker, None);
                self.states.set(worker, WorkerState::Busy);
                proof {
                    lemma_record_keeps_exclusive(self.log@, Record::Began(worker as nat));
                }
                self.log = Ghost(self.log@.push(Record::Began(worker as nat)));
                match slot {
                    Some(resource) => Some(Assignment::Run(job, resource)),
                    None => {
                        assert(false);
                        None
                    },
                }
            },
            Some(Message::Terminate) => {
                self.states.set(worker, WorkerState::Stopped);
                Some(Assignment::Terminate)
            },
        }
    }

    /// Takes back the resource of a busy worker, which is idle again. From a
    /// worker that is not busy, or a number that names no worker, the
    /// resource is not accepted: it comes back and nothing changes.
    pub fn finish(&mut self, worker: usize, resource: T) -> (refused: Option<T>)
        requires
            old(self).wf(),
        ensures
            final(self).wf(),
            final(self).queue() == old(self).queue(),
            match refused {
                None => {
                    &&& worker < old(self).workers().len()
                    &&& old(self).workers()[worker as int] is Busy
                    &&& final(self).workers() == old(self).workers().update(
                        worker as int,
                        WorkerState::Idle,
                    )
                    &&& final(self).resources() == old(self).resources().update(
                        worker as int,
                        Some(resource),
                    )
                    &&& final(self).log() == old(self).log().push(Record::Ended(worker as nat))
                },
                Some(back) => {
                    &&& back == resource
                    &&& worker >= old(self).workers().len() || !(old(self).workers()[worker as int]
                        is Busy)
                    &&& final(self).workers() == old(self).workers()
                    &&& final(self).resources() == old(self).resources()
                    &&& final(self).log() == old(self).log()
                },
            },
    {
        if worker >= self.states.len() {
            return Some(resource);
        }
        match self.states[worker] {
            WorkerState::Busy => {},
            _ => {
                return Some(resource);
            },
        }
        let _ = self.resources.remove(worker);
        self.resources.insert(worker, Some(resource));
        self.states.set(worker, WorkerState::Idle);
        proof {
            lemma_record_keeps_exclusive(self.log@, Record::Ended(worker as nat));
        }
        self.log = Ghost(self.log@.push(Record::Ended(worker as nat)));
        assert(self.resources@ =~= old(self).resources@.update(worker as int, Some(resource)));
        None
    }
}

} // verus!
