//! The decisions of the pipeline orchestrator: which pipes to create, how
//! each stage's process is wired, which descriptors each party closes, and
//! which children to wait for. The caller performs the actions (create a
//! pipe, create a process, close, wait) and reports what happened.
use vstd::multiset::Multiset;
use vstd::prelude::*;

verus! {

/// The two ends of a freshly created pipe.
#[derive(Debug, Clone, Copy, PartialEq, Eq, Structural)]
pub struct PipeEnds {
    pub read: i32,
    pub write: i32,
}

/// How the process of one stage is wired before it launches its command.
#[derive(Debug)]
pub struct StagePlan {
    /// Index of the stage.
    pub stage: usize,
    /// Descriptor to make standard input (the previous stage's read end).
    pub stdin: Option<i32>,
    /// Descriptor to make standard output (this stage's write end).
    pub stdout: Option<i32>,
    /// Descriptors the child closes without using them.
    pub close: Vec<i32>,
}

/// The state of one pipeline run, as seen from the parent process.
pub struct Orchestrator {
    stages: usize,
    next: usize,
    prev_read: Option<i32>,
    children: Vec<i32>,
    aborted: bool,
    opened: Ghost<Multiset<i32>>,
    closed: Ghost<Multiset<i32>>,
}

/// The mathematical value of an [`Orchestrator`].
pub struct OrchestratorView {
    /// Number of stages in the pipeline.
    pub stages: nat,
    /// Number of stages whose process has been created.
    pub next: nat,
    /// The pipe read end the parent holds for the next stage, if any.
    pub held: Option<i32>,
    /// The created children, in creation order.
    pub children: Seq<i32>,
    /// Whether creating a pipe or a process failed, ending the launches.
    pub aborted: bool,
    /// Every descriptor the parent has received from pipe creation.
    pub opened: Multiset<i32>,
    /// Every descriptor the parent has been told to close.
    pub closed: Multiset<i32>,
}

impl View for Orchestrator {
    type V = OrchestratorView;

    closed spec fn view(&self) -> OrchestratorView {
        OrchestratorView {
            stages: self.stages as nat,
            next: self.next as nat,
            held: self.prev_read,
            children: self.children@,
            aborted: self.aborted,
            opened: self.opened@,
            closed: self.closed@,
        }
    }
}

/// The descriptors in an optional one, as a multiset.
pub open spec fn fds_of(o: Option<i32>) -> Multiset<i32> {
    match o {
        Some(fd) => Multiset::empty().insert(fd),
        None => Multiset::empty(),
    }
}

/// The descriptors in an optional one, as a sequence.
pub open spec fn seq_of(o: Option<i32>) -> Seq<i32> {
    match o {
        Some(fd) => seq![fd],
        None => seq![],
    }
}

impl OrchestratorView {
    /// The run's invariant: the parent holds a read end only while a later
    /// stage is still to be created, one child exists per created stage,
    /// and every descriptor the parent opened is either closed or held.
    pub open spec fn wf(self) -> bool {
        &&& self.stages >= 1
        &&& self.next <= self.stages
        &&& self.children.len() == self.next
        &&& self.held is Some ==> !self.aborted && 0 < self.next < self.stages
        &&& self.opened == self.closed.add(fds_of(self.held))
    }

    /// Whether a stage remains to be created.
    pub open spec fn has_next(self) -> bool {
        !self.aborted && self.next < self.stages
    }

    /// Whether the next stage writes into a pipe (it is not the last).
    pub open spec fn needs_pipe(self) -> bool {
        self.next + 1 < self.stages
    }

    /// Whether `pipe` is what the next stage needs: a pipe of two distinct
    /// ends exactly when it is not the last stage.
    pub open spec fn pipe_fits(self, pipe: Option<PipeEnds>) -> bool {
        match pipe {
            Some(p) => self.needs_pipe() && p.read != p.write,
            None => !self.needs_pipe(),
        }
    }
}

/// The descriptors of an optional pipe, as a multiset.
pub open spec fn pipe_fds(pipe: Option<PipeEnds>) -> Multiset<i32> {
    match pipe {
        Some(p) => Multiset::empty().insert(p.read).insert(p.write),
        None => Multiset::empty(),
    }
}

/// The write end of an optional pipe, as a multiset.
pub open spec fn write_fds(pipe: Option<PipeEnds>) -> Multiset<i32> {
    match pipe {
        Some(p) => Multiset::empty().insert(p.write),
        None => Multiset::empty(),
    }
}

impl Orchestrator {
    /// Starts a run of a pipeline of `stages` commands.
    pub fn new(stages: usize) -> (r: Orchestrator)
        requires
            stages >= 1,
        ensures
            r@.wf(),
            r@.stages == stages,
            r@.next == 0,
            r@.held is None,
            r@.children == Seq::<i32>::empty(),
            !r@.aborted,
            r@.opened == Multiset::<i32>::empty(),
            r@.closed == Multiset::<i32>::empty(),
    {
        let r = Orchestrator {
            stages,
            next: 0,
            prev_read: None,
            children: Vec::new(),
            aborted: false,
            opened: Ghost(Multiset::empty()),
            closed: Ghost(Multiset::empty()),
        };
        assert(r@.opened =~= r@.closed.add(fds_of(None)));
        r
    }

    /// Whether a stage remains to be created.
    pub fn has_next(&self) -> (r: bool)
        ensures
            r == self@.has_next(),
    {
        !self.aborted && self.next < self.stages
    }

    /// Whether the next stage needs a pipe for its output.
    pub fn needs_pipe(&self) -> (r: bool)
        requires
            self@.wf(),
        ensures
            r == self@.needs_pipe(),
    {
        self.next < self.stages - 1
    }

    /// The wiring of the next stage's process: standard input from the read
    /// end the parent holds, standard output into the new pipe's write end,
    /// and the new pipe's read end closed (only the following stage reads it).
    /// Every pipe descriptor the child inherits is thus either put on one of
    /// its standard streams or closed, once.
    pub fn plan_stage(&self, pipe: Option<PipeEnds>) -> (r: StagePlan)
        requires
            self@.wf(),
            self@.has_next(),
            self@.pipe_fits(pipe),
        ensures
            r.stage == self@.next,
            r.stdin == self@.held,
            r.stdout == (match pipe {
                Some(p) => Some(p.write),
                None => None::<i32>,
            }),
            r.close@ == (match pipe {
                Some(p) => seq![p.read],
                None => Seq::<i32>::empty(),
            }),
            fds_of(r.stdin).add(fds_of(r.stdout)).add(r.close@.to_multiset()) == fds_of(
                self@.held,
            ).add(pipe_fds(pipe)),
    {
        let mut close: Vec<i32> = Vec::new();
        let stdout = match pipe {
            Some(p) => {
                close.push(p.read);
                Some(p.write)
            },
            None => None,
        };
        let r = StagePlan { stage: self.next, stdin: self.prev_read, stdout, close };
        proof {
            broadcast use vstd::seq_lib::to_multiset_build;

            vstd::seq_lib::to_multiset_len(Seq::<i32>::empty());
            vstd::multiset::lemma_multiset_empty_len(Seq::<i32>::empty().to_multiset());
            assert(Seq::<i32>::empty().to_multiset() =~= Multiset::empty());
            if let Some(p) = pipe {
                assert(r.close@ =~= Seq::<i32>::empty().push(p.read));
            } else {
                assert(r.close@ =~= Seq::<i32>::empty());
            }
            assert(fds_of(r.stdin).add(fds_of(r.stdout)).add(r.close@.to_multiset()) =~= fds_of(
                self@.held,
            ).add(pipe_fds(pipe)));
        }
        r
    }

    /// Records that the next stage's process `child` was created with the
    /// wiring of [`Orchestrator::plan_stage`]. Returns what the parent closes
    /// now: the new pipe's write end and the read end it held for this stage.
    /// The new pipe's read end is kept for the following stage.
    pub fn spawned(&mut self, pipe: Option<PipeEnds>, child: i32) -> (to_close: Vec<i32>)
        requires
            old(self)@.wf(),
            old(self)@.has_next(),
            old(self)@.pipe_fits(pipe),
        ensures
            final(self)@.wf(),
            to_close@ == (match pipe {
                Some(p) => seq![p.write],
                None => Seq::<i32>::empty(),
            }) + seq_of(old(self)@.held),
            final(self)@.held == (match pipe {
                Some(p) => Some(p.read),
                None => None::<i32>,
            }),
            final(self)@.stages == old(self)@.stages,
            final(self)@.next == old(self)@.next + 1,
            final(self)@.children == old(self)@.children.push(child),
            final(self)@.aborted == old(self)@.aborted,
            final(self)@.opened == old(self)@.opened.add(pipe_fds(pipe)),
            final(self)@.closed == old(self)@.closed.add(write_fds(pipe)).add(
                fds_of(old(self)@.held),
            ),
    {
        let mut to_close: Vec<i32> = Vec::new();
        let held = self.prev_read;
        match pipe {
            Some(p) => {
                to_close.push(p.write);
                self.prev_read = Some(p.read);
            },
            None => {
                self.prev_read = None;
            },
        }
        if let Some(fd) = held {
            to_close.push(fd);
        }
        self.children.push(child);
        self.next = self.next + 1;
        proof {
            let old_closed = self.closed@;
            self.opened = Ghost(self.opened@.add(pipe_fds(pipe)));
            self.closed = Ghost(old_closed.add(write_fds(pipe)).add(fds_of(held)));
            assert(self.opened@ =~= self.closed@.add(fds_of(self.prev_read)));
        }
        to_close
    }

    /// Records that creating the next stage's process failed: no further
    /// stage is launched. Returns what the parent closes now: both ends of
    /// the new pipe, if one was made, and the read end it held.
    pub fn spawn_failed(&mut self, pipe: Option<PipeEnds>) -> (to_close: Vec<i32>)
        requires
            old(self)@.wf(),
            old(self)@.has_next(),
            old(self)@.pipe_fits(pipe),
        ensures
            final(self)@.wf(),
            to_close@ == (match pipe {
                Some(p) => seq![p.read, p.write],
                None => Seq::<i32>::empty(),
            }) + seq_of(old(self)@.held),
            final(self)@.held is None,
            final(self)@.aborted,
            final(self)@.stages == old(self)@.stages,
            final(self)@.next == old(self)@.next,
            final(self)@.children == old(self)@.children,
            final(self)@.opened == old(self)@.opened.add(pipe_fds(pipe)),
            final(self)@.closed == old(self)@.closed.add(pipe_fds(pipe)).add(
                fds_of(old(self)@.held),
            ),
    {
        let mut to_close: Vec<i32> = Vec::new();
        let held = self.prev_read;
        if let Some(p) = pipe {
            to_close.push(p.read);
            to_close.push(p.write);
        }
        if let Some(fd) = held {
            to_close.push(fd);
        }
        self.prev_read = None;
        self.aborted = true;
        proof {
            let old_closed = self.closed@;
            self.opened = Ghost(self.opened@.add(pipe_fds(pipe)));
            self.closed = Ghost(old_closed.add(pipe_fds(pipe)).add(fds_of(held)));
            assert(self.opened@ =~= self.closed@.add(fds_of(self.prev_read)));
        }
        to_close
    }

    /// Records that creating the next stage's pipe failed: no further stage
    /// is launched. Returns what the parent closes now: the read end it held.
    pub fn pipe_failed(&mut self) -> (to_close: Vec<i32>)
        requires
            old(self)@.wf(),
            old(self)@.has_next(),
        ensures
            final(self)@.wf(),
            to_close@ == seq_of(old(self)@.held),
            final(self)@.held is None,
            final(self)@.aborted,
            final(self)@.stages == old(self)@.stages,
            final(self)@.next == old(self)@.next,
            final(self)@.children == old(self)@.children,
            final(self)@.opened == old(self)@.opened,
            final(self)@.closed == old(self)@.closed.add(fds_of(old(self)@.held)),
    {
        let mut to_close: Vec<i32> = Vec::new();
        let held = self.prev_read;
        if let Some(fd) = held {
            to_close.push(fd);
        }
        self.prev_read = None;
        self.aborted = true;
        proof {
            self.closed = Ghost(self.closed@.add(fds_of(held)));
            assert(self.opened@ =~= self.closed@.add(fds_of(self.prev_read)));
        }
        to_close
    }

    /// The children to wait for, in creation order: one per created stage.
    pub fn children(&self) -> (r: &Vec<i32>)
        ensures
            r@ == self@.children,
    {
        &self.children
    }
}

/// Once no stage remains to be created, the parent holds no pipe descriptor:
/// every descriptor it received from pipe creation has been closed, exactly
/// as many times as it was received.
pub proof fn lemma_finished_run_holds_nothing(o: OrchestratorView)
    requires
        o.wf(),
        !o.has_next(),
    ensures
        o.held is None,
        o.opened == o.closed,
{
    assert(o.opened =~= o.closed);
}

/// A run that was never cut short created one child per stage, so that one
/// termination status is collected for each stage, whatever the others
/// report.
pub proof fn lemma_complete_run_has_every_child(o: OrchestratorView)
    requires
        o.wf(),
        !o.has_next(),
        !o.aborted,
    ensures
        o.children.len() == o.stages,
{
}

} // verus!
