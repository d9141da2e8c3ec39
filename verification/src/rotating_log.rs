//! When a log file is rotated, and how.

use crate::text::{cat3, decimal, decimal_text, digit_char, digits_value};
use vstd::prelude::*;

verus! {

/// A log file and how much was written to it.
#[derive(Debug, Clone, PartialEq, Eq)]
pub struct RotationState {
    pub path: String,
    pub max_bytes: u64,
    pub max_files: usize,
    pub bytes_written: u64,
}

/// One step of a rotation. A rename whose source is missing does nothing.
#[derive(Debug, Clone, PartialEq, Eq)]
pub enum RotationStep {
    Remove { path: String },
    Rename { from: String, to: String },
}

pub enum StepModel {
    Remove { path: Seq<char> },
    Rename { from: Seq<char>, to: Seq<char> },
}

impl View for RotationStep {
    type V = StepModel;

    open spec fn view(&self) -> StepModel {
        match self {
            RotationStep::Remove { path } => StepModel::Remove { path: path@ },
            RotationStep::Rename { from, to } => StepModel::Rename { from: from@, to: to@ },
        }
    }
}

pub open spec fn step_models(steps: Seq<RotationStep>) -> Seq<StepModel> {
    Seq::new(steps.len(), |i: int| steps[i]@)
}

/// What a rotation does, in order, and the file that is then written.
#[derive(Debug, Clone, PartialEq, Eq)]
pub struct RotationPlan {
    pub active_path: String,
    pub steps: Vec<RotationStep>,
}

/// The file of a generation; generation 0 is the one that is written.
pub open spec fn generation_path(path: Seq<char>, generation: nat) -> Seq<char> {
    if generation == 0 {
        path
    } else {
        path + "."@ + decimal(generation)
    }
}

/// The steps of a rotation that keeps `max_files` old generations: the oldest
/// one goes, then each moves up by one, from the oldest to the newest.
pub open spec fn plan_steps(path: Seq<char>, max_files: nat) -> Seq<StepModel> {
    Seq::new(
        max_files + 1,
        |k: int|
            if k == 0 && max_files > 0 {
                StepModel::Remove { path: generation_path(path, max_files) }
            } else {
                StepModel::Rename {
                    from: generation_path(path, (max_files - k) as nat),
                    to: generation_path(path, (max_files - k + 1) as nat),
                }
            },
    )
}

impl RotationState {
    /// Whether writing so many bytes more calls for a rotation.
    pub open spec fn must_rotate(&self, incoming: int) -> bool {
        self.max_files != 0 && self.bytes_written + incoming > self.max_bytes
    }

    pub fn new(path: String, max_bytes: u64, max_files: usize, bytes_written: u64) -> (r:
        RotationState)
        ensures
            r.path == path,
            r.max_bytes == limit_of(max_bytes),
            r.max_files == max_files,
            r.bytes_written == bytes_written,
    {
        let max_bytes: u64 = if max_bytes == 0 {
            1
        } else {
            max_bytes
        };
        RotationState { path, max_bytes, max_files, bytes_written }
    }

    /// The file of a generation.
    pub fn path_for_generation(&self, generation: usize) -> (r: String)
        ensures
            r@ == generation_path(self.path@, generation as nat),
    {
        if generation == 0 {
            self.path.clone()
        } else {
            cat3(self.path.as_str(), ".", decimal_text(generation as u64).as_str())
        }
    }

    /// What to do when the file is full.
    pub fn rotation_plan(&self) -> (r: RotationPlan)
        ensures
            r.active_path@ == self.path@,
            step_models(r.steps@) == plan_steps(self.path@, self.max_files as nat),
    {
        let mut steps: Vec<RotationStep> = Vec::new();
        let mut generation: usize = self.max_files;
        if generation > 0 {
            steps.push(RotationStep::Remove { path: self.path_for_generation(generation) });
            generation -= 1;
        }
        let ghost all = plan_steps(self.path@, self.max_files as nat);
        assert(step_models(steps@) =~= all.take(steps@.len() as int));
        loop
            invariant_except_break
                generation <= self.max_files,
                generation < self.max_files || self.max_files == 0,
                all == plan_steps(self.path@, self.max_files as nat),
                steps@.len() == self.max_files - generation,
                steps@.len() == 0 ==> self.max_files == 0,
                step_models(steps@) == all.take(steps@.len() as int),
            ensures
                step_models(steps@) == all,
            decreases generation,
        {
            let step = RotationStep::Rename {
                from: self.path_for_generation(generation),
                to: self.path_for_generation(generation + 1),
            };
            let ghost before = steps@;
            steps.push(step);
            proof {
                assert(step@ == all[before.len() as int]);
                assert(step_models(steps@) =~= all.take(steps@.len() as int));
            }
            if generation == 0 {
                assert(step_models(steps@) =~= all);
                break;
            }
            generation -= 1;
        }
        RotationPlan { active_path: self.path.clone(), steps }
    }

    /// Whether writing so many bytes more calls for a rotation.
    pub fn should_rotate(&self, incoming: usize) -> (r: bool)
        requires
            self.max_files != 0 ==> self.bytes_written + incoming <= u64::MAX,
        ensures
            r == self.must_rotate(incoming as int),
    {
        self.max_files != 0 && self.bytes_written + incoming as u64 > self.max_bytes
    }

    /// Takes note of bytes that were written.
    pub fn record_write(&mut self, written: usize)
        requires
            old(self).bytes_written + written <= u64::MAX,
        ensures
            *final(self) == (RotationState {
                bytes_written: (old(self).bytes_written + written) as u64,
                ..*old(self)
            }),
    {
        self.bytes_written = self.bytes_written + written as u64;
    }

    /// Starts a new file.
    pub fn reset_after_rotation(&mut self)
        ensures
            *final(self) == (RotationState { bytes_written: 0, ..*old(self) }),
    {
        self.bytes_written = 0;
    }
}

impl RotationPlan {
    pub fn active_path(&self) -> (r: &str)
        ensures
            r@ == self.active_path@,
    {
        self.active_path.as_str()
    }

    pub fn steps(&self) -> (r: &Vec<RotationStep>)
        ensures
            r == self.steps,
    {
        &self.steps
    }
}

// ---------------------------------------------------------------- what a rotation does

/// Files with their contents, by path.
pub type Files<C> = Map<Seq<char>, C>;

pub open spec fn content<C>(files: Files<C>, path: Seq<char>) -> Option<C> {
    if files.contains_key(path) {
        Some(files[path])
    } else {
        None
    }
}

pub open spec fn after_step<C>(files: Files<C>, step: StepModel) -> Files<C> {
    match step {
        StepModel::Remove { path } => files.remove(path),
        StepModel::Rename { from, to } => if files.contains_key(from) {
            files.remove(from).insert(to, files[from])
        } else {
            files
        },
    }
}

pub open spec fn after_steps<C>(files: Files<C>, steps: Seq<StepModel>) -> Files<C>
    decreases steps.len(),
{
    if steps.len() == 0 {
        files
    } else {
        after_step(after_steps(files, steps.drop_last()), steps.last())
    }
}

/// A number is the value of its digits.
pub proof fn decimal_has_its_value(n: nat)
    ensures
        digits_value(decimal(n)) == n,
    decreases n,
{
    if n >= 10 {
        decimal_has_its_value(n / 10);
        let s = decimal(n);
        assert(s.drop_last() =~= decimal(n / 10));
        assert(s.last() == digit_char((n % 10) as int));
        assert(digit_char((n % 10) as int) as int - '0' as int == n % 10);
    } else {
        let s = decimal(n);
        assert(s.drop_last() =~= Seq::<char>::empty());
        assert(digits_value(s.drop_last()) == 0);
        assert(s.last() == digit_char(n as int));
        assert(digit_char(n as int) as int - '0' as int == n);
    }
}

/// No two generations share a file.
pub proof fn generations_are_apart(path: Seq<char>, a: nat, b: nat)
    requires
        a != b,
    ensures
        generation_path(path, a) != generation_path(path, b),
{
    reveal_strlit(".");
    let (p, q) = (generation_path(path, a), generation_path(path, b));
    if p == q {
        if a == 0 || b == 0 {
            assert(p.len() == q.len());
        } else {
            assert(p.skip(path.len() as int + 1) =~= decimal(a));
            assert(q.skip(path.len() as int + 1) =~= decimal(b));
            decimal_has_its_value(a);
            decimal_has_its_value(b);
        }
    }
}

/// What stands after the first `k` steps of a rotation.
spec fn rotated<C>(files: Files<C>, now: Files<C>, path: Seq<char>, max_files: nat, k: int) -> bool {
    &&& forall|j: nat|
        max_files - k + 1 < j <= max_files ==> content(now, #[trigger] generation_path(path, j))
            == content(files, generation_path(path, (j - 1) as nat))
    &&& content(now, generation_path(path, (max_files - k + 1) as nat)) is None
    &&& forall|j: nat|
        j < max_files - k + 1 ==> content(now, #[trigger] generation_path(path, j)) == content(
            files,
            generation_path(path, j),
        )
    &&& forall|other: Seq<char>|
        is_foreign(path, max_files, other) ==> #[trigger] content(now, other) == content(
            files,
            other,
        )
}

/// Whether a file belongs to no generation.
pub open spec fn is_foreign(path: Seq<char>, max_files: nat, other: Seq<char>) -> bool {
    forall|j: nat| j <= max_files ==> other != #[trigger] generation_path(path, j)
}

proof fn moved_up<C>(files: Files<C>, before: Files<C>, path: Seq<char>, max_files: nat, k: int)
    requires
        1 <= k <= max_files,
        rotated(files, before, path, max_files, k),
    ensures
        rotated(
            files,
            after_step(before, plan_steps(path, max_files)[k]),
            path,
            max_files,
            k + 1,
        ),
{
    let now = after_step(before, plan_steps(path, max_files)[k]);
    let g = (max_files - k) as nat;
    let from = generation_path(path, g);
    let to = generation_path(path, g + 1);
    generations_are_apart(path, g, g + 1);
    assert(plan_steps(path, max_files)[k] == StepModel::Rename { from, to });
    assert(content(before, from) == content(files, from));
    assert(forall|p: Seq<char>|
        p != from && p != to ==> #[trigger] content(now, p) == content(before, p));
    assert forall|j: nat| g < j <= max_files implies content(
        now,
        #[trigger] generation_path(path, j),
    ) == content(files, generation_path(path, (j - 1) as nat)) by {
        if j != g + 1 {
            generations_are_apart(path, j, g);
            generations_are_apart(path, j, g + 1);
        }
    }
    assert forall|j: nat| j < g implies content(now, #[trigger] generation_path(path, j))
        == content(files, generation_path(path, j)) by {
        generations_are_apart(path, j, g);
        generations_are_apart(path, j, g + 1);
    }
    assert forall|other: Seq<char>| is_foreign(path, max_files, other) implies #[trigger] content(
        now,
        other,
    ) == content(files, other) by {
        assert(other != from && other != to);
    }
}

proof fn partly_rotated<C>(files: Files<C>, path: Seq<char>, max_files: nat, k: int)
    requires
        1 <= k <= max_files + 1,
        max_files > 0,
    ensures
        rotated(
            files,
            after_steps(files, plan_steps(path, max_files).take(k)),
            path,
            max_files,
            k,
        ),
    decreases k,
{
    let all = plan_steps(path, max_files);
    let now = after_steps(files, all.take(k));
    assert(all.take(k).last() == all[k - 1]);
    assert(all.take(k).drop_last() =~= all.take(k - 1));
    if k == 1 {
        assert(all.take(0) =~= Seq::<StepModel>::empty());
        assert(after_steps(files, all.take(0)) == files);
        assert(all[0] == StepModel::Remove { path: generation_path(path, max_files) });
        assert(now == after_step(files, all[0]));
        assert(now == files.remove(generation_path(path, max_files)));
        assert forall|j: nat| j < max_files implies content(
            now,
            #[trigger] generation_path(path, j),
        ) == content(files, generation_path(path, j)) by {
            generations_are_apart(path, j, max_files);
        }
        assert forall|other: Seq<char>| is_foreign(path, max_files, other) implies #[trigger] content(
            now,
            other,
        ) == content(files, other) by {
            assert(other != generation_path(path, max_files));
        }
    } else {
        partly_rotated(files, path, max_files, k - 1);
        moved_up(files, after_steps(files, all.take(k - 1)), path, max_files, k - 1);
    }
}

/// A rotation moves every generation up by one and leaves the active file free.
/// Only the oldest generation is lost, and no other file is touched.
pub proof fn rotation_moves_generations_up<C>(files: Files<C>, path: Seq<char>, max_files: nat)
    requires
        max_files > 0,
    ensures
        ({
            let now = after_steps(files, plan_steps(path, max_files));
            &&& content(now, path) is None
            &&& forall|j: nat|
                1 <= j <= max_files ==> content(now, #[trigger] generation_path(path, j))
                    == content(files, generation_path(path, (j - 1) as nat))
            &&& forall|other: Seq<char>|
                is_foreign(path, max_files, other) ==> #[trigger] content(now, other) == content(
                    files,
                    other,
                )
        }),
{
    let all = plan_steps(path, max_files);
    assert(all.take(max_files as int + 1) =~= all);
    partly_rotated(files, path, max_files, max_files as int + 1);
    assert(generation_path(path, 0) == path);
}

/// A file that is rotated whenever that is called for holds no more than its
/// limit, unless one write alone is larger.
pub proof fn rotated_files_stay_small(state: RotationState, incoming: int, written: int)
    requires
        state.max_files != 0,
        0 <= written <= incoming,
    ensures
        ({
            let start = if state.must_rotate(incoming) {
                0int
            } else {
                state.bytes_written as int
            };
            start + written <= state.max_bytes || start + written <= incoming
        }),
{
}

/// The limit of a file that is configured: there always is one.
pub open spec fn limit_of(max_bytes: u64) -> u64 {
    if max_bytes == 0 {
        1
    } else {
        max_bytes
    }
}

/// A file is rotated exactly when what comes does not fit any more, and never
/// where no old generation is kept. A limit of nothing is a limit of one byte.
pub proof fn files_are_rotated_when_full(state: RotationState, incoming: int, limit: u64)
    ensures
        state.max_files == 0 ==> !state.must_rotate(incoming),
        state.max_files > 0 && state.bytes_written + incoming <= state.max_bytes
            ==> !state.must_rotate(incoming),
        state.max_files > 0 && state.bytes_written + incoming > state.max_bytes
            ==> state.must_rotate(incoming),
        limit_of(limit) > 0,
        limit > 0 ==> limit_of(limit) == limit,
        limit == 0 ==> limit_of(limit) == 1,
{
}

/// The files of older generations stand beside the one that is written, under its
/// name and their number.
pub proof fn generations_are_numbered(path: Seq<char>, generation: nat)
    ensures
        generation_path(path, 0) == path,
        path.is_prefix_of(generation_path(path, generation)),
        generation > 0 ==> generation_path(path, generation)[path.len() as int] == '.'
            && digits_value(generation_path(path, generation).skip(path.len() as int + 1))
            == generation,
{
    reveal_strlit(".");
    let file = generation_path(path, generation);
    assert(file.subrange(0, path.len() as int) =~= path);
    if generation > 0 {
        assert(file.skip(path.len() as int + 1) =~= decimal(generation));
        decimal_has_its_value(generation);
    }
}

} // verus!
