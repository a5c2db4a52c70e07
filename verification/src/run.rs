//! Running a plan of batches against the database, one step at a time: each
//! batch is prepared once, then executed once per parameter row, in order; the
//! run stops at the first step that fails, and nothing already done is undone.
//!
//! The runner decides the next step; its caller performs it and reports whether
//! it succeeded.
use vstd::prelude::*;
use crate::sql::Batch;

verus! {

/// The step a run is at.
#[derive(Debug, Clone, Copy, PartialEq, Eq, Structural)]
pub enum Step {
    /// Prepare the SQL text of batch `b`.
    Prepare(usize),
    /// Execute the prepared statement of batch `b` with its parameter row `r`.
    Execute(usize, usize),
    /// Every step succeeded.
    Finished,
    /// A step failed; no further step is taken.
    Failed,
}

/// The first step of batch `b`, or the end of the run when there is no such batch.
pub open spec fn batch_start(rows: Seq<usize>, b: int) -> Step {
    if 0 <= b < rows.len() {
        Step::Prepare(b as usize)
    } else {
        Step::Finished
    }
}

/// The step after `s` when `s` succeeded; `rows[b]` is the number of parameter
/// rows of batch `b`.
pub open spec fn next_step(rows: Seq<usize>, s: Step) -> Step {
    match s {
        Step::Prepare(b) => if rows[b as int] > 0 {
            Step::Execute(b, 0)
        } else {
            batch_start(rows, b + 1)
        },
        Step::Execute(b, r) => if r + 1 < rows[b as int] {
            Step::Execute(b, (r + 1) as usize)
        } else {
            batch_start(rows, b + 1)
        },
        Step::Finished => Step::Finished,
        Step::Failed => Step::Failed,
    }
}

/// The step reached from `s` after `k` steps that all succeeded.
pub open spec fn after_successes(rows: Seq<usize>, s: Step, k: nat) -> Step
    decreases k,
{
    if k == 0 {
        s
    } else {
        after_successes(rows, next_step(rows, s), (k - 1) as nat)
    }
}

/// The steps of batches `b` onwards, in order: each batch is prepared, then
/// executed with each of its parameter rows.
pub open spec fn steps_from(rows: Seq<usize>, b: int) -> Seq<Step>
    decreases rows.len() - b,
{
    if b < 0 || b >= rows.len() {
        Seq::empty()
    } else {
        seq![Step::Prepare(b as usize)] + Seq::new(
            rows[b] as nat,
            |r: int| Step::Execute(b as usize, r as usize),
        ) + steps_from(rows, b + 1)
    }
}

/// The number of parameter rows of each batch.
pub open spec fn row_counts(plan: Seq<Batch>) -> Seq<usize> {
    plan.map_values(|b: Batch| b.param_rows@.len() as usize)
}

/// A run of a plan: the number of parameter rows of each batch, and the step
/// the run is at.
pub struct PlanRunner {
    rows: Vec<usize>,
    step: Step,
}

/// Whether a step lies within the batches and rows it refers to.
pub open spec fn step_in_plan(rows: Seq<usize>, s: Step) -> bool {
    match s {
        Step::Prepare(b) => b < rows.len(),
        Step::Execute(b, r) => b < rows.len() && r < rows[b as int],
        _ => true,
    }
}

impl PlanRunner {
    #[verifier::type_invariant]
    spec fn well_formed(self) -> bool {
        step_in_plan(self.rows@, self.step)
    }

    /// The number of parameter rows of each batch of the plan being run.
    pub closed spec fn rows(self) -> Seq<usize> {
        self.rows@
    }

    /// The step the run is at.
    pub closed spec fn step(self) -> Step {
        self.step
    }

    /// A run of `plan` at its first step.
    pub fn new(plan: &Vec<Batch>) -> (r: PlanRunner)
        ensures
            r.rows() == row_counts(plan@),
            r.rows().len() == plan@.len(),
            forall|b: int| 0 <= b < plan@.len() ==> r.rows()[b] == plan@[b].param_rows@.len(),
            r.step() == batch_start(row_counts(plan@), 0),
    {
        let mut rows: Vec<usize> = Vec::new();
        let mut i: usize = 0;
        while i < plan.len()
            invariant
                i <= plan@.len(),
                rows@ =~= row_counts(plan@).take(i as int),
                forall|j: int| 0 <= j < i ==> rows@[j] == plan@[j].param_rows@.len(),
            decreases plan@.len() - i,
        {
            rows.push(plan[i].param_rows.len());
            i = i + 1;
        }
        assert(rows@ =~= row_counts(plan@));

        let step = if rows.len() > 0 {
            Step::Prepare(0)
        } else {
            Step::Finished
        };
        PlanRunner { rows, step }
    }

    /// The step to perform now: `Finished` or `Failed` once the run is over.
    pub fn current(&self) -> (r: Step)
        ensures
            r == self.step(),
            step_in_plan(self.rows(), r),
    {
        proof {
            use_type_invariant(self);
        }
        self.step
    }

    /// Records the outcome of the current step: on success the run moves to the
    /// next step; on failure of a step it stops as `Failed`. Once the run is
    /// over it stays where it is.
    pub fn report(&mut self, succeeded: bool)
        ensures
            final(self).rows() == old(self).rows(),
            final(self).step() == (match old(self).step() {
                Step::Prepare(_) | Step::Execute(_, _) => if succeeded {
                    next_step(old(self).rows(), old(self).step())
                } else {
                    Step::Failed
                },
                other => other,
            }),
    {
        proof {
            use_type_invariant(&*self);
        }
        let batches = self.rows.len();
        let next = match self.step {
            Step::Prepare(b) => if !succeeded {
                Step::Failed
            } else if self.rows[b] > 0 {
                Step::Execute(b, 0)
            } else if b + 1 < batches {
                Step::Prepare(b + 1)
            } else {
                Step::Finished
            },
            Step::Execute(b, r) => if !succeeded {
                Step::Failed
            } else if r + 1 < self.rows[b] {
                Step::Execute(b, r + 1)
            } else if b + 1 < batches {
                Step::Prepare(b + 1)
            } else {
                Step::Finished
            },
            Step::Finished => Step::Finished,
            Step::Failed => Step::Failed,
        };
        self.step = next;
    }
}

/// Within batch `b`, from its row `r` on, the successful steps run through the
/// remaining rows of the batch, then go on with the next batch.
pub proof fn lemma_rows_in_order(rows: Seq<usize>, b: int, r: int, j: nat)
    requires
        rows.len() <= usize::MAX,
        0 <= b < rows.len(),
        0 <= r < rows[b],
    ensures
        after_successes(rows, Step::Execute(b as usize, r as usize), j) == if j < rows[b] - r {
            Step::Execute(b as usize, (r + j) as usize)
        } else {
            after_successes(rows, batch_start(rows, b + 1), (j - (rows[b] - r)) as nat)
        },
    decreases j,
{
    if j > 0 {
        if r + 1 < rows[b] {
            lemma_rows_in_order(rows, b, r + 1, (j - 1) as nat);
        }
    }
}

/// A run that meets no failure takes exactly the steps of the plan, in order:
/// from the first step of batch `b`, after `k` successes it is at the `k`-th step
/// of the batches from `b` on, and once all of them succeeded it is `Finished`.
pub proof fn lemma_run_follows_plan(rows: Seq<usize>, b: int, k: nat)
    requires
        rows.len() <= usize::MAX,
        0 <= b <= rows.len(),
        k <= steps_from(rows, b).len(),
    ensures
        after_successes(rows, batch_start(rows, b), k) == if k < steps_from(rows, b).len() {
            steps_from(rows, b)[k as int]
        } else {
            Step::Finished
        },
    decreases rows.len() - b, k,
{
    if b < rows.len() && k > 0 {
        let n = rows[b] as int;
        let execs = Seq::new(rows[b] as nat, |r: int| Step::Execute(b as usize, r as usize));
        let whole = seq![Step::Prepare(b as usize)] + execs + steps_from(rows, b + 1);
        assert(steps_from(rows, b) == whole);
        if n > 0 {
            lemma_rows_in_order(rows, b, 0, (k - 1) as nat);
            if k - 1 < n {
                assert(whole[k as int] == execs[k - 1]);
            } else {
                lemma_run_follows_plan(rows, b + 1, (k - 1 - n) as nat);
                if k < whole.len() {
                    assert(whole[k as int] == steps_from(rows, b + 1)[k - 1 - n]);
                }
            }
        } else {
            lemma_run_follows_plan(rows, b + 1, (k - 1) as nat);
            if k < whole.len() {
                assert(whole[k as int] == steps_from(rows, b + 1)[k - 1]);
            }
        }
    }
}

/// A failed run stays failed whatever is reported after.
pub proof fn lemma_failure_is_final(rows: Seq<usize>, k: nat)
    ensures
        after_successes(rows, Step::Failed, k) == Step::Failed,
    decreases k,
{
    if k > 0 {
        lemma_failure_is_final(rows, (k - 1) as nat);
    }
}

/// The steps of batches `b0` onwards contain the preparation of every batch from
/// `b0` on and the execution of each of its parameter rows.
pub proof fn lemma_steps_cover_rows(rows: Seq<usize>, b0: int, b: int, r: int)
    requires
        rows.len() <= usize::MAX,
        0 <= b0 <= b < rows.len(),
        -1 <= r < rows[b],
    ensures
        steps_from(rows, b0).contains(
            if r < 0 {
                Step::Prepare(b as usize)
            } else {
                Step::Execute(b as usize, r as usize)
            },
        ),
    decreases b - b0,
{
    let execs = Seq::new(rows[b0] as nat, |i: int| Step::Execute(b0 as usize, i as usize));
    let head = seq![Step::Prepare(b0 as usize)] + execs;
    let whole = head + steps_from(rows, b0 + 1);
    assert(steps_from(rows, b0) == whole);
    let target = if r < 0 {
        Step::Prepare(b as usize)
    } else {
        Step::Execute(b as usize, r as usize)
    };
    if b0 == b {
        if r < 0 {
            assert(whole[0] == target);
        } else {
            assert(whole[1 + r] == target);
        }
    } else {
        lemma_steps_cover_rows(rows, b0 + 1, b, r);
        let rest = steps_from(rows, b0 + 1);
        let k = choose|k: int| 0 <= k < rest.len() && #[trigger] rest[k] == target;
        assert(whole[head.len() + k] == target);
    }
}

/// A run of a plan that meets no failure prepares every batch and executes every
/// parameter row of every batch: each of these steps is among the steps the run
/// takes before it finishes.
pub proof fn lemma_run_executes_every_row(plan: Seq<Batch>, b: int, r: int)
    requires
        plan.len() <= usize::MAX,
        0 <= b < plan.len(),
        0 <= r < plan[b].param_rows@.len(),
        plan[b].param_rows@.len() <= usize::MAX,
    ensures
        steps_from(row_counts(plan), 0).contains(Step::Prepare(b as usize)),
        steps_from(row_counts(plan), 0).contains(Step::Execute(b as usize, r as usize)),
{
    let rows = row_counts(plan);
    assert(rows[b] == plan[b].param_rows@.len());
    lemma_steps_cover_rows(rows, 0, b, -1);
    lemma_steps_cover_rows(rows, 0, b, r);
}

} // verus!
