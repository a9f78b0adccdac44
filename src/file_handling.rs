use std::path::PathBuf;
use vstd::prelude::*;

use crate::merge_laws::{lemma_count_one_more, lemma_merge_associative, lemma_merge_identity, lemma_tally_push, tally};
use crate::record_handling::{merged, ELBRecordAggregation, KeyView};
use crate::record_parsing::{aggregate_line, line_key, SystemNameMatcher};

verus! {

#[verifier::external_type_specification]
#[verifier::external_body]
pub struct ExPathBuf(PathBuf);

/// Whether a file's extension, if it has one, is exactly `log`.
pub fn is_log_extension(extension: Option<&str>) -> (r: bool)
    ensures
        r == (extension matches Some(e) && e@ == "log"@),
{
    proof {
        reveal_strlit("log");
    }
    match extension {
        Some(e) => {
            if e.unicode_len() != 3 {
                return false;
            }
            let matches = e.get_char(0) == 'l' && e.get_char(1) == 'o' && e.get_char(2) == 'g';
            proof {
                if matches {
                    assert(e@ =~= "log"@);
                }
            }
            matches
        },
        None => false,
    }
}

/// Whether a directory entry is a log file: a regular file whose extension is exactly `log`.
/// Directories and symbolic links are not.
pub fn is_log_file(is_regular_file: bool, extension: Option<&str>) -> (r: bool)
    ensures
        r == (is_regular_file && (extension matches Some(e) && e@ == "log"@)),
{
    is_regular_file && is_log_extension(extension)
}

/// A message from a worker to the controller.
#[derive(Debug)]
pub enum AggregationMessages {
    /// The worker's final message: the lines it attempted and its aggregate.
    Aggregate(usize, ELBRecordAggregation),
    /// The worker with this id is ready for a file.
    Next(usize),
}

/// A message from the controller to a worker.
#[derive(Debug, PartialEq)]
pub enum FileHandlingMessages {
    Filename(PathBuf),
    Done,
}

/// Where a worker stands in its exchange with the controller.
#[derive(Clone, Copy, Debug, PartialEq, Eq, Structural)]
pub enum WorkerPhase {
    /// Nothing sent yet.
    Starting,
    /// Waiting for work.
    Idle,
    /// Reading a file.
    Busy,
    /// The final aggregate has been handed over.
    Finished,
}

/// What happens to a worker.
pub enum WorkerEvent {
    /// The worker has started.
    Started,
    /// A message from the controller has arrived.
    Received(FileHandlingMessages),
    /// The file handed out last has been read.
    FileFinished,
}

/// What a worker does next.
pub enum WorkerAction {
    /// Send this message to the controller.
    Report(AggregationMessages),
    /// Read this file.
    Process(PathBuf),
    /// Keep waiting.
    Wait,
}

/// Where the lines of a file went wrong.
pub struct LinesReport {
    /// The positions, counted from zero, of the lines that could not be read.
    pub bad_line_nums: Vec<usize>,
    /// The positions of the lines that were read but are not records.
    pub malformed_line_nums: Vec<usize>,
}

/// The keys of the lines that are records, in order.
pub open spec fn line_keys(lines: Seq<Option<String>>) -> Seq<KeyView>
    decreases lines.len(),
{
    if lines.len() == 0 {
        Seq::empty()
    } else {
        let rest = line_keys(lines.drop_last());
        match lines.last() {
            Some(l) => match line_key(l@) {
                Some(k) => rest.push(k),
                None => rest,
            },
            None => rest,
        }
    }
}

/// The positions of the lines that could not be read, in order.
pub open spec fn unreadable_lines(lines: Seq<Option<String>>) -> Seq<usize>
    decreases lines.len(),
{
    if lines.len() == 0 {
        Seq::empty()
    } else {
        let rest = unreadable_lines(lines.drop_last());
        if lines.last() is None {
            rest.push((lines.len() - 1) as usize)
        } else {
            rest
        }
    }
}

/// The positions of the lines that were read but are not records, in order.
pub open spec fn malformed_lines(lines: Seq<Option<String>>) -> Seq<usize>
    decreases lines.len(),
{
    if lines.len() == 0 {
        Seq::empty()
    } else {
        let rest = malformed_lines(lines.drop_last());
        match lines.last() {
            Some(l) => if line_key(l@) is None {
                rest.push((lines.len() - 1) as usize)
            } else {
                rest
            },
            None => rest,
        }
    }
}

/// A worker's phase, with the files it has read and the messages it has sent.
struct Progress {
    phase: WorkerPhase,
    files_processed: Ghost<nat>,
    reports_sent: Ghost<nat>,
}

/// A worker: it reads the files that the controller hands it and counts their records.
pub struct FileAggregator {
    id: usize,
    num_raw_records: usize,
    final_agg: ELBRecordAggregation,
    matcher: SystemNameMatcher,
    progress: Progress,
}

impl FileAggregator {
    #[verifier::type_invariant]
    closed spec fn wf(self) -> bool {
        &&& self.num_raw_records <= i64::MAX
        &&& forall|k: KeyView| #[trigger]
            self.final_agg@.contains_key(k) ==> self.final_agg@[k] <= self.num_raw_records
        &&& self.progress.phase == WorkerPhase::Starting ==> self.progress.reports_sent@ == 0
            && self.progress.files_processed@ == 0
        &&& (self.progress.phase == WorkerPhase::Idle || self.progress.phase == WorkerPhase::Busy)
            ==> self.progress.reports_sent@ == self.progress.files_processed@ + 1
        &&& self.progress.phase == WorkerPhase::Finished ==> self.progress.reports_sent@ == self.progress.files_processed@ + 2
    }

    pub closed spec fn spec_id(&self) -> usize {
        self.id
    }

    /// The lines attempted so far.
    pub closed spec fn spec_num_raw_records(&self) -> nat {
        self.num_raw_records as nat
    }

    /// The counts of the records read so far.
    pub closed spec fn spec_aggregation(&self) -> Map<KeyView, int> {
        self.final_agg@
    }

    pub closed spec fn spec_phase(&self) -> WorkerPhase {
        self.progress.phase
    }

    /// The files this worker has finished reading.
    pub closed spec fn files_processed(&self) -> nat {
        self.progress.files_processed@
    }

    /// The messages this worker has sent to the controller.
    pub closed spec fn reports_sent(&self) -> nat {
        self.progress.reports_sent@
    }

    pub fn new(id: usize) -> (r: FileAggregator)
        ensures
            r.spec_id() == id,
            r.spec_num_raw_records() == 0,
            r.spec_aggregation() == Map::<KeyView, int>::empty(),
            r.spec_phase() == WorkerPhase::Starting,
            r.files_processed() == 0,
            r.reports_sent() == 0,
    {
        FileAggregator {
            id,
            num_raw_records: 0,
            final_agg: ELBRecordAggregation::new(),
            matcher: SystemNameMatcher::new(),
            progress: Progress {
                phase: WorkerPhase::Starting,
                files_processed: Ghost(0),
                reports_sent: Ghost(0),
            },
        }
    }

    pub fn id(&self) -> (r: usize)
        ensures
            r == self.spec_id(),
    {
        self.id
    }

    pub fn num_raw_records(&self) -> (r: usize)
        ensures
            r == self.spec_num_raw_records(),
    {
        self.num_raw_records
    }

    pub fn aggregation(&self) -> (r: &ELBRecordAggregation)
        ensures
            r@ == self.spec_aggregation(),
    {
        &self.final_agg
    }

    pub fn phase(&self) -> (r: WorkerPhase)
        ensures
            r == self.spec_phase(),
    {
        self.progress.phase
    }

    /// A finished worker has sent one message more than it read files, besides the first:
    /// one `Next` on starting, one after each file, and the final aggregate.
    pub fn finished_reports(&self) -> (r: bool)
        ensures
            r == (self.spec_phase() == WorkerPhase::Finished),
            r ==> self.reports_sent() == self.files_processed() + 2,
    {
        proof {
            use_type_invariant(self);
        }
        self.progress.phase == WorkerPhase::Finished
    }

    /// Attempts every line of a file: each line counts as attempted, and each line that is a
    /// record adds one to the count of its key.
    pub fn read_records(&mut self, lines: &Vec<Option<String>>) -> (r: LinesReport)
        requires
            old(self).spec_num_raw_records() + lines@.len() <= i64::MAX,
            old(self).spec_num_raw_records() + lines@.len() <= usize::MAX,
        ensures
            final(self).spec_num_raw_records() == old(self).spec_num_raw_records() + lines@.len(),
            final(self).spec_aggregation() == merged(
                old(self).spec_aggregation(),
                tally(line_keys(lines@)),
            ),
            line_keys(lines@).len() == 0 ==> final(self).spec_aggregation() == old(
                self,
            ).spec_aggregation(),
            r.bad_line_nums@ == unreadable_lines(lines@),
            r.malformed_line_nums@ == malformed_lines(lines@),
            final(self).spec_id() == old(self).spec_id(),
            final(self).spec_phase() == old(self).spec_phase(),
            final(self).files_processed() == old(self).files_processed(),
            final(self).reports_sent() == old(self).reports_sent(),
    {
        proof {
            use_type_invariant(&*self);
        }
        let mut agg = ELBRecordAggregation::new();
        std::mem::swap(&mut self.final_agg, &mut agg);
        let ghost a0 = agg@;
        let mut n: usize = self.num_raw_records;
        let mut bad_line_nums: Vec<usize> = Vec::new();
        let mut malformed_line_nums: Vec<usize> = Vec::new();
        let len = lines.len();
        let mut i: usize = 0;
        while i < len
            invariant
                len == lines@.len(),
                0 <= i <= len,
                n == old(self).spec_num_raw_records() + i,
                old(self).spec_num_raw_records() + len <= i64::MAX,
                old(self).spec_num_raw_records() + len <= usize::MAX,
                forall|k: KeyView| #[trigger] agg@.contains_key(k) ==> agg@[k] <= n,
                agg@ == merged(a0, tally(line_keys(lines@.take(i as int)))),
                bad_line_nums@ == unreadable_lines(lines@.take(i as int)),
                malformed_line_nums@ == malformed_lines(lines@.take(i as int)),
            decreases len - i,
        {
            let ghost pre = lines@.take(i as int);
            let ghost post = lines@.take(i + 1);
            proof {
                assert(post.drop_last() =~= pre);
                assert(post.last() == lines@[i as int]);
            }
            match &lines[i] {
                Some(line) => {
                    let ghost before = agg@;
                    let is_record = aggregate_line(&self.matcher, line.as_str(), &mut agg);
                    if !is_record {
                        malformed_line_nums.push(i);
                    }
                    proof {
                        if let Some(k) = line_key(line@) {
                            lemma_count_one_more(before, k);
                            lemma_tally_push(line_keys(pre), k);
                            lemma_merge_associative(a0, tally(line_keys(pre)), tally(seq![k]));
                        }
                    }
                },
                None => {
                    bad_line_nums.push(i);
                },
            }
            n = n + 1;
            i = i + 1;
        }
        proof {
            assert(lines@.take(len as int) =~= lines@);
            if line_keys(lines@).len() == 0 {
                assert(tally(line_keys(lines@)) =~= Map::<KeyView, int>::empty());
                lemma_merge_identity(a0);
            }
        }
        self.num_raw_records = n;
        std::mem::swap(&mut self.final_agg, &mut agg);
        LinesReport { bad_line_nums, malformed_line_nums }
    }

    /// Decides what the worker does on an event. A worker starts by announcing that it is
    /// ready, takes files one at a time and announces itself ready after each, and on `Done`
    /// hands over the lines it attempted and its aggregate. Other events are ignored.
    pub fn step(&mut self, event: WorkerEvent) -> (r: WorkerAction)
        ensures
            final(self).spec_id() == old(self).spec_id(),
            ({
                let id = old(self).spec_id();
                let phase = old(self).spec_phase();
                match event {
                    WorkerEvent::Started if phase == WorkerPhase::Starting => {
                        &&& r == WorkerAction::Report(AggregationMessages::Next(id))
                        &&& final(self).spec_phase() == WorkerPhase::Idle
                        &&& final(self).reports_sent() == old(self).reports_sent() + 1
                        &&& final(self).files_processed() == old(self).files_processed()
                        &&& final(self).spec_num_raw_records() == old(self).spec_num_raw_records()
                        &&& final(self).spec_aggregation() == old(self).spec_aggregation()
                    },
                    WorkerEvent::Received(
                        FileHandlingMessages::Filename(p),
                    ) if phase == WorkerPhase::Idle => {
                        &&& r == WorkerAction::Process(p)
                        &&& final(self).spec_phase() == WorkerPhase::Busy
                        &&& final(self).reports_sent() == old(self).reports_sent()
                        &&& final(self).files_processed() == old(self).files_processed()
                        &&& final(self).spec_num_raw_records() == old(self).spec_num_raw_records()
                        &&& final(self).spec_aggregation() == old(self).spec_aggregation()
                    },
                    WorkerEvent::Received(FileHandlingMessages::Done) if phase == WorkerPhase::Idle => {
                        &&& r matches WorkerAction::Report(AggregationMessages::Aggregate(n, agg))
                        &&& n == old(self).spec_num_raw_records()
                        &&& agg@ == old(self).spec_aggregation()
                        &&& final(self).spec_phase() == WorkerPhase::Finished
                        &&& final(self).reports_sent() == old(self).reports_sent() + 1
                        &&& final(self).files_processed() == old(self).files_processed()
                    },
                    WorkerEvent::FileFinished if phase == WorkerPhase::Busy => {
                        &&& r == WorkerAction::Report(AggregationMessages::Next(id))
                        &&& final(self).spec_phase() == WorkerPhase::Idle
                        &&& final(self).reports_sent() == old(self).reports_sent() + 1
                        &&& final(self).files_processed() == old(self).files_processed() + 1
                        &&& final(self).spec_num_raw_records() == old(self).spec_num_raw_records()
                        &&& final(self).spec_aggregation() == old(self).spec_aggregation()
                    },
                    _ => {
                        &&& r is Wait
                        &&& final(self).spec_phase() == old(self).spec_phase()
                        &&& final(self).reports_sent() == old(self).reports_sent()
                        &&& final(self).files_processed() == old(self).files_processed()
                        &&& final(self).spec_num_raw_records() == old(self).spec_num_raw_records()
                        &&& final(self).spec_aggregation() == old(self).spec_aggregation()
                    },
                }
            }),
    {
        proof {
            use_type_invariant(&*self);
        }
        match event {
            WorkerEvent::Started => {
                if self.progress.phase == WorkerPhase::Starting {
                    self.progress = Progress {
                        phase: WorkerPhase::Idle,
                        files_processed: self.progress.files_processed,
                        reports_sent: Ghost(self.progress.reports_sent@ + 1),
                    };
                    WorkerAction::Report(AggregationMessages::Next(self.id))
                } else {
                    WorkerAction::Wait
                }
            },
            WorkerEvent::Received(FileHandlingMessages::Filename(p)) => {
                if self.progress.phase == WorkerPhase::Idle {
                    self.progress = Progress {
                        phase: WorkerPhase::Busy,
                        files_processed: self.progress.files_processed,
                        reports_sent: self.progress.reports_sent,
                    };
                    WorkerAction::Process(p)
                } else {
                    WorkerAction::Wait
                }
            },
            WorkerEvent::Received(FileHandlingMessages::Done) => {
                if self.progress.phase == WorkerPhase::Idle {
                    let mut agg = ELBRecordAggregation::new();
                    std::mem::swap(&mut self.final_agg, &mut agg);
                    self.progress = Progress {
                        phase: WorkerPhase::Finished,
                        files_processed: self.progress.files_processed,
                        reports_sent: Ghost(self.progress.reports_sent@ + 1),
                    };
                    WorkerAction::Report(AggregationMessages::Aggregate(self.num_raw_records, agg))
                } else {
                    WorkerAction::Wait
                }
            },
            WorkerEvent::FileFinished => {
                if self.progress.phase == WorkerPhase::Busy {
                    self.progress = Progress {
                        phase: WorkerPhase::Idle,
                        files_processed: Ghost(self.progress.files_processed@ + 1),
                        reports_sent: Ghost(self.progress.reports_sent@ + 1),
                    };
                    WorkerAction::Report(AggregationMessages::Next(self.id))
                } else {
                    WorkerAction::Wait
                }
            },
        }
    }
}

} // verus!
