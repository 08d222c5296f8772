//! Planning of the task framework: how the threads are laid out over the
//! permitted CPUs and how many background workers run.

use rand::seq::IndexedRandom;
use vstd::prelude::*;

verus! {

/// Configuration for the task framework.
pub struct Config {
    pub min_background_threads: Option<usize>,
    pub max_background_threads: Option<usize>,
    pub num_background_threads: Option<usize>,
}

impl Default for Config {
    fn default() -> (c: Self)
        ensures
            c.min_background_threads is None,
            c.max_background_threads is None,
            c.num_background_threads is None,
    {
        Config {
            min_background_threads: None,
            max_background_threads: None,
            num_background_threads: None,
        }
    }
}

/// Currently initialized threading mode.
#[derive(Clone, Copy, PartialEq, Eq, Debug, Structural)]
pub enum ThreadingMode {
    /// Two or more CPUs are permitted: the foreground thread and the
    /// background threads run on disjoint CPUs.
    Disjoint,
    /// A single CPU, or the permitted CPUs are unknown: every thread shares
    /// it, and only priorities tell them apart.
    Contended,
}

/// Task framework initialization status.
pub struct Status {
    threading_mode: ThreadingMode,
}

impl Status {
    pub closed spec fn mode(&self) -> ThreadingMode {
        self.threading_mode
    }

    pub fn threading_mode(&self) -> (m: ThreadingMode)
        ensures
            m == self.mode(),
    {
        self.threading_mode
    }
}

/// How threads are placed, decided from the permitted CPUs.
#[derive(Clone)]
pub enum ThreadInitializer {
    /// The permitted CPU ids, at least two: the first runs the foreground
    /// thread, the others the background threads.
    Disjoint { cores: Vec<usize> },
    Contended,
}

impl ThreadInitializer {
    /// Picks the placement from the permitted CPU ids.
    pub fn from_cores(cores: Vec<usize>) -> (r: Self)
        ensures
            cores@.len() >= 2 ==> (r matches ThreadInitializer::Disjoint { cores: c } && c@ == cores@),
            cores@.len() < 2 ==> r is Contended,
    {
        if cores.len() >= 2 {
            ThreadInitializer::Disjoint { cores }
        } else {
            ThreadInitializer::Contended
        }
    }

    pub open spec fn wf(&self) -> bool {
        self matches ThreadInitializer::Disjoint { cores } ==> cores@.len() >= 2
    }

    /// The recommended number of background threads: one per CPU besides
    /// the foreground one, or one when contended.
    pub fn recommend_num_backgrounds(&self) -> (n: usize)
        requires
            self.wf(),
        ensures
            n == match self {
                ThreadInitializer::Disjoint { cores } => cores@.len() - 1,
                ThreadInitializer::Contended => 1,
            },
    {
        match self {
            ThreadInitializer::Disjoint { cores } => cores.len() - 1,
            ThreadInitializer::Contended => 1,
        }
    }

    pub fn threading_mode(&self) -> (m: ThreadingMode)
        ensures
            m == match self {
                ThreadInitializer::Disjoint { .. } => ThreadingMode::Disjoint,
                ThreadInitializer::Contended => ThreadingMode::Contended,
            },
    {
        match self {
            ThreadInitializer::Disjoint { .. } => ThreadingMode::Disjoint,
            ThreadInitializer::Contended => ThreadingMode::Contended,
        }
    }

    /// The CPU the foreground thread is pinned to; `None` when contended,
    /// where only the priority is raised.
    pub fn foreground_core(&self) -> (r: Option<usize>)
        requires
            self.wf(),
        ensures
            match self {
                ThreadInitializer::Disjoint { cores } => r == Some(cores@[0]),
                ThreadInitializer::Contended => r is None,
            },
    {
        match self {
            ThreadInitializer::Disjoint { cores } => Some(cores[0]),
            ThreadInitializer::Contended => None,
        }
    }

    /// The CPU a starting background thread is pinned to, drawn at random
    /// among all but the foreground one; `None` when contended, where only
    /// the priority is lowered.
    pub fn background_core(&self) -> (r: Option<usize>)
        requires
            self.wf(),
        ensures
            match self {
                ThreadInitializer::Disjoint { cores } => exists|i: int|
                    1 <= i < cores@.len() && r == Some(#[trigger] cores@[i]),
                ThreadInitializer::Contended => r is None,
            },
    {
        match self {
            ThreadInitializer::Disjoint { cores } => {
                let others = vstd::slice::slice_subrange(cores.as_slice(), 1, cores.len());
                let c = choose_core(others);
                proof {
                    let i = choose|i: int| 0 <= i < others@.len() && others@[i] == c;
                    assert(cores@[i + 1] == c);
                }
                Some(c)
            },
            ThreadInitializer::Contended => None,
        }
    }
}

/// `IndexedRandom::choose` with the thread-local generator of `rand::rng`:
/// an element of the non-empty `cores`, which one left to chance.
#[verifier::external_body]
fn choose_core(cores: &[usize]) -> (r: usize)
    requires
        cores@.len() >= 1,
    ensures
        cores@.contains(r),
{
    *cores.choose(&mut rand::rng()).unwrap()
}

pub open spec fn max_nat(a: int, b: int) -> int {
    if a >= b {
        a
    } else {
        b
    }
}

pub open spec fn min_nat(a: int, b: int) -> int {
    if a <= b {
        a
    } else {
        b
    }
}

/// Number of background workers: the recommendation, at least one, raised
/// to the configured minimum, lowered to the configured maximum, and
/// replaced outright by a configured exact number.
pub open spec fn spec_num_workers(recommended: int, cfg: Config) -> int {
    let n = max_nat(1, recommended);
    let n = match cfg.min_background_threads {
        Some(m) => max_nat(m as int, n),
        None => n,
    };
    let n = match cfg.max_background_threads {
        Some(m) => min_nat(m as int, n),
        None => n,
    };
    match cfg.num_background_threads {
        Some(m) => m as int,
        None => n,
    }
}

/// The recommendation of `init`: one worker per CPU besides the
/// foreground one, or one when contended.
pub open spec fn recommended_of(init: &ThreadInitializer) -> int {
    match init {
        ThreadInitializer::Disjoint { cores } => cores@.len() - 1,
        ThreadInitializer::Contended => 1,
    }
}

/// The worker count `n` chosen under `cfg` from the recommendation `rec`:
/// an exact number configured is taken as is. Otherwise the count never
/// exceeds a configured maximum; it reaches a configured minimum that the
/// maximum leaves room for; it is at least one, and at least the
/// recommendation, wherever the maximum leaves room for that; and it is
/// raised no further than the minimum or the recommendation need.
pub open spec fn workers_within(rec: int, cfg: Config, n: int) -> bool {
    let floor = if rec >= 1 { rec } else { 1 };
    match cfg.num_background_threads {
        Some(m) => n == m,
        None => {
            &&& (cfg.max_background_threads matches Some(b) ==> n <= b)
            &&& (cfg.min_background_threads matches Some(a) ==> (cfg.max_background_threads matches Some(b)
                ==> a <= b) ==> n >= a)
            &&& ((cfg.max_background_threads matches Some(b) ==> floor <= b) ==> n >= floor)
            &&& (cfg.min_background_threads matches Some(a) ==> n <= a || n <= floor)
            &&& (cfg.min_background_threads is None ==> n <= floor)
            &&& (cfg.max_background_threads matches Some(b) ==> (b < floor || (cfg.min_background_threads
                matches Some(a) && b < a)) ==> n == b)
        },
    }
}

/// Without an exact number the count is the recommendation (at least one)
/// raised to the minimum and then lowered to the maximum; it lies within
/// the configured bounds as `workers_within` says, which pins it down.
pub proof fn lemma_num_workers_bounds(recommended: int, cfg: Config)
    ensures
        cfg.num_background_threads matches Some(m) ==> spec_num_workers(recommended, cfg) == m,
        cfg.num_background_threads is None ==> {
            &&& cfg.max_background_threads matches Some(m) ==> spec_num_workers(recommended, cfg) <= m
            &&& cfg.max_background_threads is None ==> spec_num_workers(recommended, cfg) >= 1
            &&& cfg.max_background_threads is None ==> (cfg.min_background_threads matches Some(m)
                ==> spec_num_workers(recommended, cfg) >= m)
            &&& spec_num_workers(recommended, cfg) >= recommended || cfg.max_background_threads is Some
        },
        workers_within(recommended, cfg, spec_num_workers(recommended, cfg)),
        forall|n: int, k: int|
            workers_within(recommended, cfg, n) && workers_within(recommended, cfg, k) ==> n == k,
{
}

/// Number of background workers for `init` under `cfg`.
pub fn num_workers(init: &ThreadInitializer, cfg: &Config) -> (n: usize)
    requires
        init.wf(),
    ensures
        n == spec_num_workers(
            match init {
                ThreadInitializer::Disjoint { cores } => cores@.len() - 1,
                ThreadInitializer::Contended => 1,
            },
            *cfg,
        ),
        workers_within(recommended_of(init), *cfg, n as int),
        cfg.num_background_threads is None ==> (cfg.min_background_threads matches Some(a) ==> (
        cfg.max_background_threads matches Some(b) ==> a <= b) ==> n >= a),
        cfg.num_background_threads is None ==> (cfg.max_background_threads matches Some(b) ==> n <= b),
{
    proof {
        lemma_num_workers_bounds(recommended_of(init), *cfg);
    }
    let mut n = init.recommend_num_backgrounds();
    if n < 1 {
        n = 1;
    }
    if let Some(m) = cfg.min_background_threads {
        if m > n {
            n = m;
        }
    }
    if let Some(m) = cfg.max_background_threads {
        if m < n {
            n = m;
        }
    }
    if let Some(m) = cfg.num_background_threads {
        n = m;
    }
    n
}

/// Initialized framework handle; dropping it disposes of the framework.
pub struct Framework {
    status: Status,
}

impl Framework {
    /// The handle of a framework started with the placement `init`.
    pub fn started(init: &ThreadInitializer) -> (f: Self)
        ensures
            f.spec_status().mode() == match init {
                ThreadInitializer::Disjoint { .. } => ThreadingMode::Disjoint,
                ThreadInitializer::Contended => ThreadingMode::Contended,
            },
    {
        Framework { status: Status { threading_mode: init.threading_mode() } }
    }

    pub closed spec fn spec_status(&self) -> Status {
        self.status
    }

    pub fn status(&self) -> (s: &Status)
        ensures
            *s == self.spec_status(),
    {
        &self.status
    }
}

} // verus!
