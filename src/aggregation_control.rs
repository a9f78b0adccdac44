use std::path::PathBuf;
use vstd::prelude::*;

use crate::file_handling::{AggregationMessages, FileHandlingMessages};
use crate::merge_laws::{lemma_merge_associative, lemma_merge_identity};
use crate::record_handling::{merge_fits, merged, ELBRecordAggregation, KeyView};

verus! {

/// The outcome of a run: the lines attempted over all files, and the merged aggregate.
pub struct FileAggregation {
    pub num_raw_records: usize,
    pub aggregation: ELBRecordAggregation,
}

/// What the controller does after a report.
pub enum ControllerAction {
    /// Send this message to the worker with this id.
    Send(usize, FileHandlingMessages),
    /// A worker's aggregate has been merged and other workers are still at work.
    Merged,
    /// The last worker's aggregate has been merged.
    Finished,
}

/// The controller's state as specifications see it.
pub struct ControllerView {
    pub num_workers: nat,
    /// The files not handed out yet; the last one goes out first.
    pub filenames: Seq<PathBuf>,
    /// The workers that have not sent their final aggregate.
    pub remaining_workers: nat,
    pub num_raw_records: nat,
    pub aggregation: Map<KeyView, int>,
}

/// Whether the controller in state `s` can take report `m`: it still waits for a worker, a
/// worker that is ready is one it knows, and a final aggregate keeps every total in range.
pub open spec fn accepts(s: ControllerView, m: AggregationMessages) -> bool {
    &&& s.remaining_workers > 0
    &&& match m {
        AggregationMessages::Next(i) => i < s.num_workers,
        AggregationMessages::Aggregate(n, agg) => {
            &&& s.num_raw_records + n <= usize::MAX
            &&& merge_fits(s.aggregation, agg@)
        },
    }
}

/// The state after report `m`: a ready worker takes the last pending file, if any; a final
/// aggregate is merged and its worker is done.
pub open spec fn next_state(s: ControllerView, m: AggregationMessages) -> ControllerView {
    match m {
        AggregationMessages::Next(_) => ControllerView {
            num_workers: s.num_workers,
            filenames: if s.filenames.len() > 0 {
                s.filenames.drop_last()
            } else {
                s.filenames
            },
            remaining_workers: s.remaining_workers,
            num_raw_records: s.num_raw_records,
            aggregation: s.aggregation,
        },
        AggregationMessages::Aggregate(n, agg) => ControllerView {
            num_workers: s.num_workers,
            filenames: s.filenames,
            remaining_workers: (s.remaining_workers - 1) as nat,
            num_raw_records: (s.num_raw_records + n) as nat,
            aggregation: merged(s.aggregation, agg@),
        },
    }
}

/// The message that report `m` makes the controller in state `s` send, and to which worker:
/// the last pending file to a ready worker, or `Done` once none is left.
pub open spec fn dispatch(s: ControllerView, m: AggregationMessages) -> Option<
    (usize, FileHandlingMessages),
> {
    match m {
        AggregationMessages::Next(i) => Some(
            (
                i,
                if s.filenames.len() > 0 {
                    FileHandlingMessages::Filename(s.filenames.last())
                } else {
                    FileHandlingMessages::Done
                },
            ),
        ),
        AggregationMessages::Aggregate(_, _) => None,
    }
}

/// Whether the controller can take the reports `ms` in turn, up to the last worker's final one.
pub open spec fn run_accepts(s: ControllerView, ms: Seq<AggregationMessages>) -> bool
    decreases ms.len(),
{
    ms.len() == 0 || s.remaining_workers == 0 || (accepts(s, ms[0]) && run_accepts(
        next_state(s, ms[0]),
        ms.drop_first(),
    ))
}

/// The state after the reports `ms`; reports after the last worker's final one are not read.
pub open spec fn run_state(s: ControllerView, ms: Seq<AggregationMessages>) -> ControllerView
    decreases ms.len(),
{
    if ms.len() == 0 || s.remaining_workers == 0 {
        s
    } else {
        run_state(next_state(s, ms[0]), ms.drop_first())
    }
}

/// The messages the controller sends while it takes the reports `ms`, in order.
pub open spec fn run_dispatches(s: ControllerView, ms: Seq<AggregationMessages>) -> Seq<
    (usize, FileHandlingMessages),
>
    decreases ms.len(),
{
    if ms.len() == 0 || s.remaining_workers == 0 {
        Seq::empty()
    } else {
        let rest = run_dispatches(next_state(s, ms[0]), ms.drop_first());
        match dispatch(s, ms[0]) {
            Some(d) => seq![d] + rest,
            None => rest,
        }
    }
}

/// The number of final aggregates among the reports.
pub open spec fn finals_count(ms: Seq<AggregationMessages>) -> nat
    decreases ms.len(),
{
    if ms.len() == 0 {
        0
    } else {
        match ms[0] {
            AggregationMessages::Aggregate(_, _) => (1 + finals_count(ms.drop_first())) as nat,
            AggregationMessages::Next(_) => finals_count(ms.drop_first()),
        }
    }
}

/// The sum of the lines attempted that the final aggregates among the reports carry.
pub open spec fn finals_raw_records(ms: Seq<AggregationMessages>) -> nat
    decreases ms.len(),
{
    if ms.len() == 0 {
        0
    } else {
        match ms[0] {
            AggregationMessages::Aggregate(n, _) => (n + finals_raw_records(ms.drop_first())) as nat,
            AggregationMessages::Next(_) => finals_raw_records(ms.drop_first()),
        }
    }
}

/// The merge of the final aggregates among the reports.
pub open spec fn finals_aggregation(ms: Seq<AggregationMessages>) -> Map<KeyView, int>
    decreases ms.len(),
{
    if ms.len() == 0 {
        Map::empty()
    } else {
        match ms[0] {
            AggregationMessages::Aggregate(_, a) => merged(a@, finals_aggregation(ms.drop_first())),
            AggregationMessages::Next(_) => finals_aggregation(ms.drop_first()),
        }
    }
}

proof fn lemma_no_finals(ms: Seq<AggregationMessages>)
    requires
        finals_count(ms) == 0,
    ensures
        finals_raw_records(ms) == 0,
        finals_aggregation(ms) == Map::<KeyView, int>::empty(),
    decreases ms.len(),
{
    if ms.len() > 0 {
        lemma_no_finals(ms.drop_first());
    }
}

/// When the controller reads every final aggregate among the reports, its total of lines
/// attempted grows by the sum of theirs, and its aggregate becomes the merge of its own with
/// all of theirs: no count is lost or added on the way.
pub proof fn lemma_run_conserves_counts(s: ControllerView, ms: Seq<AggregationMessages>)
    requires
        run_accepts(s, ms),
        finals_count(ms) <= s.remaining_workers,
    ensures
        run_state(s, ms).num_raw_records == s.num_raw_records + finals_raw_records(ms),
        run_state(s, ms).aggregation == merged(s.aggregation, finals_aggregation(ms)),
    decreases ms.len(),
{
    if ms.len() == 0 || s.remaining_workers == 0 {
        lemma_no_finals(ms);
        lemma_merge_identity(s.aggregation);
    } else {
        let rest = ms.drop_first();
        lemma_run_conserves_counts(next_state(s, ms[0]), rest);
        match ms[0] {
            AggregationMessages::Aggregate(_, a) => {
                lemma_merge_associative(s.aggregation, a@, finals_aggregation(rest));
            },
            AggregationMessages::Next(_) => {},
        }
    }
}

/// The controller: it hands files to the workers that are ready and merges their final
/// aggregates.
pub struct AggregationController {
    num_workers: usize,
    remaining_workers: usize,
    filenames: Vec<PathBuf>,
    num_raw_records: usize,
    aggregation: ELBRecordAggregation,
}

impl View for AggregationController {
    type V = ControllerView;

    closed spec fn view(&self) -> ControllerView {
        ControllerView {
            num_workers: self.num_workers as nat,
            filenames: self.filenames@,
            remaining_workers: self.remaining_workers as nat,
            num_raw_records: self.num_raw_records as nat,
            aggregation: self.aggregation@,
        }
    }
}

impl AggregationController {
    /// A controller for `num_workers` workers and the files in `filenames`; the last one is
    /// handed out first.
    pub fn new(num_workers: usize, filenames: Vec<PathBuf>) -> (r: AggregationController)
        ensures
            r@ == (ControllerView {
                num_workers: num_workers as nat,
                filenames: filenames@,
                remaining_workers: num_workers as nat,
                num_raw_records: 0,
                aggregation: Map::empty(),
            }),
    {
        AggregationController {
            num_workers,
            remaining_workers: num_workers,
            filenames,
            num_raw_records: 0,
            aggregation: ELBRecordAggregation::new(),
        }
    }

    /// Whether every worker has sent its final aggregate.
    pub fn is_finished(&self) -> (r: bool)
        ensures
            r == (self@.remaining_workers == 0),
    {
        self.remaining_workers == 0
    }

    /// Whether the controller can take `msg` now.
    pub fn can_accept(&self, msg: &AggregationMessages) -> (r: bool)
        ensures
            r == accepts(self@, *msg),
    {
        if self.remaining_workers == 0 {
            return false;
        }
        match msg {
            AggregationMessages::Next(i) => *i < self.num_workers,
            AggregationMessages::Aggregate(n, agg) => {
                *n <= usize::MAX - self.num_raw_records && self.aggregation.can_merge(agg)
            },
        }
    }

    /// Takes one report from a worker and says what to do next.
    pub fn handle_report(&mut self, msg: AggregationMessages) -> (r: ControllerAction)
        requires
            accepts(old(self)@, msg),
        ensures
            final(self)@ == next_state(old(self)@, msg),
            match dispatch(old(self)@, msg) {
                Some((i, m)) => r == ControllerAction::Send(i, m),
                None => if final(self)@.remaining_workers == 0 {
                    r is Finished
                } else {
                    r is Merged
                },
            },
    {
        match msg {
            AggregationMessages::Next(sender_id) => {
                match self.filenames.pop() {
                    Some(filename) => ControllerAction::Send(
                        sender_id,
                        FileHandlingMessages::Filename(filename),
                    ),
                    None => ControllerAction::Send(sender_id, FileHandlingMessages::Done),
                }
            },
            AggregationMessages::Aggregate(num_parsed_records, new_agg) => {
                self.num_raw_records = self.num_raw_records + num_parsed_records;
                self.aggregation.merge_from(&new_agg);
                self.remaining_workers = self.remaining_workers - 1;
                if self.remaining_workers == 0 {
                    ControllerAction::Finished
                } else {
                    ControllerAction::Merged
                }
            },
        }
    }

    /// Takes the reports in turn until every worker has sent its final aggregate, and returns
    /// the messages sent to the workers, each with the id of the worker it went to.
    pub fn run_aggregation(&mut self, reports: Vec<AggregationMessages>) -> (r: Vec<
        (usize, FileHandlingMessages),
    >)
        requires
            run_accepts(old(self)@, reports@),
        ensures
            final(self)@ == run_state(old(self)@, reports@),
            r@ == run_dispatches(old(self)@, reports@),
    {
        let ghost s0 = self@;
        let ghost all = reports@;
        let mut rest = reports;
        let mut dispatched: Vec<(usize, FileHandlingMessages)> = Vec::new();
        while rest.len() > 0 && self.remaining_workers > 0
            invariant
                run_accepts(self@, rest@),
                run_state(self@, rest@) == run_state(s0, all),
                dispatched@ + run_dispatches(self@, rest@) == run_dispatches(s0, all),
            decreases rest@.len(),
        {
            let ghost before = self@;
            let ghost ms = rest@;
            let msg = rest.remove(0);
            proof {
                assert(ms.drop_first() =~= rest@);
            }
            let action = self.handle_report(msg);
            match action {
                ControllerAction::Send(i, m) => {
                    let ghost d = dispatched@;
                    dispatched.push((i, m));
                    proof {
                        assert(d + run_dispatches(before, ms) =~= dispatched@ + run_dispatches(
                            self@,
                            rest@,
                        ));
                    }
                },
                _ => {},
            }
        }
        dispatched
    }

    /// The lines attempted and the merged aggregate.
    pub fn into_result(self) -> (r: FileAggregation)
        ensures
            r.num_raw_records == self@.num_raw_records,
            r.aggregation@ == self@.aggregation,
    {
        FileAggregation { num_raw_records: self.num_raw_records, aggregation: self.aggregation }
    }
}

} // verus!
