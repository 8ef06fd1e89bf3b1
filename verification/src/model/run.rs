//! The run: for each split, the times recorded against it.
use super::time::{Time, TimeView};
use vstd::prelude::*;

verus! {

/// The times of one split, as values.
pub open spec fn times_view(times: Seq<Time>) -> Seq<TimeView> {
    times.map_values(|t: Time| t@)
}

/// What `push_to` makes of a run: the time is appended to the split at
/// `split`; where there is no such split, nothing changes.
pub open spec fn pushed_to(run: Seq<Seq<TimeView>>, split: int, time: TimeView) -> Seq<
    Seq<TimeView>,
> {
    if 0 <= split < run.len() {
        run.update(split, run[split].push(time))
    } else {
        run
    }
}

/// A run in progress.
pub struct Run {
    /// The times pushed to each split, oldest first.
    splits: Vec<Vec<Time>>,
}

impl View for Run {
    type V = Seq<Seq<TimeView>>;

    closed spec fn view(&self) -> Seq<Seq<TimeView>> {
        Seq::new(self.splits@.len(), |i: int| times_view(self.splits@[i]@))
    }
}

impl Run {
    /// A run of `num_splits` splits with no times yet.
    pub fn new(num_splits: usize) -> (run: Run)
        ensures
            run@.len() == num_splits,
            forall|i: int| 0 <= i < num_splits ==> (#[trigger] run@[i]).len() == 0,
    {
        let mut splits: Vec<Vec<Time>> = Vec::new();
        let mut i: usize = 0;
        while i < num_splits
            invariant
                i <= num_splits,
                splits@.len() == i,
                forall|j: int| 0 <= j < i ==> (#[trigger] splits@[j])@.len() == 0,
            decreases num_splits - i,
        {
            splits.push(Vec::new());
            i += 1;
        }
        Run { splits }
    }

    /// The number of splits.
    pub fn num_splits(&self) -> (n: usize)
        ensures
            n == self@.len(),
    {
        self.splits.len()
    }

    /// The number of times pushed to the split at `split`; zero where there
    /// is no such split.
    pub fn num_times(&self, split: usize) -> (n: usize)
        ensures
            n == if split < self@.len() {
                self@[split as int].len()
            } else {
                0
            },
    {
        if split < self.splits.len() {
            self.splits[split].len()
        } else {
            0
        }
    }

    /// The `index`th time pushed to the split at `split`, if there is one.
    pub fn time_at(&self, split: usize, index: usize) -> (r: Option<Time>)
        ensures
            match r {
                Some(t) => split < self@.len() && index < self@[split as int].len()
                    && self@[split as int][index as int] == t@,
                None => !(split < self@.len() && index < self@[split as int].len()),
            },
    {
        if split < self.splits.len() {
            if index < self.splits[split].len() {
                return Some(self.splits[split][index]);
            }
        }
        None
    }

    /// Pushes `time` onto the split at `split`. Where there is no such
    /// split, the run stays as it is.
    pub fn push_to(&mut self, split: usize, time: Time)
        ensures
            final(self)@ == pushed_to(old(self)@, split as int, time@),
    {
        if split < self.splits.len() {
            let ghost before = self.splits@[split as int]@;
            self.splits[split].push(time);
            assert(times_view(before.push(time)) =~= times_view(before).push(time@));
            assert(self@ =~= pushed_to(old(self)@, split as int, time@));
        }
    }
}

} // verus!
