//! Extraction: where each matched record's bytes come from and go to, and
//! the summary of what happened to each record.

use vstd::prelude::*;
use crate::file::File;

verus! {

/// `part` appended to the directory path `base`, with one `/` between them.
pub open spec fn join_path(base: Seq<char>, part: Seq<char>) -> Seq<char> {
    if base.len() == 0 {
        part
    } else if base.last() == '/' {
        base + part
    } else {
        base + seq!['/'] + part
    }
}

/// Where the blob of content identifier `id` is stored under `root`: in the
/// directory named by the first two characters of `id`.
pub open spec fn blob_location(root: Seq<char>, id: Seq<char>) -> Seq<char> {
    join_path(join_path(root, id.take(2)), id)
}

/// Where a record with logical path `path` is written under `root`.
pub open spec fn destination_of(root: Seq<char>, path: Seq<char>) -> Seq<char> {
    join_path(root, path)
}

/// `part` appended to the directory path `base`, as [`join_path`] says.
fn join(base: &str, part: &str) -> (r: String)
    ensures
        r@ == join_path(base@, part@),
{
    let n = base.unicode_len();
    if n == 0 {
        return part.to_string();
    }
    let mut out = base.to_string();
    if base.get_char(n - 1) != '/' {
        out.append("/");
        proof {
            reveal_strlit("/");
        }
    }
    out.append(part);
    proof {
        reveal_strlit("/");
    }
    out
}

/// The copy of one matched record.
#[derive(Debug, Clone, PartialEq, Eq)]
pub struct ExtractStep {
    /// Content identifier of the record.
    pub file_id: String,
    /// Logical path of the record.
    pub relative_path: String,
    /// Where its blob is stored.
    pub source: String,
    /// Where its bytes are to be written.
    pub destination: String,
}

/// What happened when one record was extracted.
#[derive(Debug, Clone, PartialEq, Eq)]
pub enum FileOutcome {
    /// The blob was copied to its destination.
    Copied,
    /// The blob is not in the store: the record is skipped.
    SourceMissing,
    /// Creating a directory or copying failed, with this message.
    Failed(String),
}

/// One record that could not be extracted.
#[derive(Debug, Clone, PartialEq, Eq)]
pub struct ExtractError {
    /// Content identifier of the record.
    pub file_id: String,
    /// Logical path of the record.
    pub relative_path: String,
    /// What went wrong.
    pub error: String,
}

/// The summary of one extraction run.
#[derive(Debug, Clone, PartialEq, Eq)]
pub struct ExtractResult {
    /// Records whose bytes were copied.
    pub extracted_count: usize,
    /// Records whose blob is missing from the store.
    pub skipped_count: usize,
    /// Records that failed, in the order they were processed.
    pub errors: Vec<ExtractError>,
}

/// The error entry as text: identifier, logical path, message.
pub open spec fn error_view(e: ExtractError) -> (Seq<char>, Seq<char>, Seq<char>) {
    (e.file_id@, e.relative_path@, e.error@)
}

/// How many of `o` are copies.
pub open spec fn copied_count(o: Seq<FileOutcome>) -> nat
    decreases o.len(),
{
    if o.len() == 0 {
        0
    } else {
        copied_count(o.drop_last()) + if o.last() is Copied {
            1nat
        } else {
            0nat
        }
    }
}

/// How many of `o` found no blob.
pub open spec fn missing_count(o: Seq<FileOutcome>) -> nat
    decreases o.len(),
{
    if o.len() == 0 {
        0
    } else {
        missing_count(o.drop_last()) + if o.last() is SourceMissing {
            1nat
        } else {
            0nat
        }
    }
}

/// The error entries of the failed steps, in order: the step's identifier and
/// logical path with the failure's message.
pub open spec fn error_entries(steps: Seq<ExtractStep>, o: Seq<FileOutcome>) -> Seq<
    (Seq<char>, Seq<char>, Seq<char>),
>
    decreases o.len(),
{
    if o.len() == 0 {
        Seq::empty()
    } else {
        let prev = error_entries(steps, o.drop_last());
        let k = o.len() - 1;
        match o.last() {
            FileOutcome::Failed(m) => prev.push(
                (steps[k].file_id@, steps[k].relative_path@, m@),
            ),
            _ => prev,
        }
    }
}

impl ExtractResult {
    /// The summary of a run that processed nothing.
    pub fn empty() -> (r: ExtractResult)
        ensures
            r.extracted_count == 0,
            r.skipped_count == 0,
            r.errors@.len() == 0,
    {
        ExtractResult { extracted_count: 0, skipped_count: 0, errors: Vec::new() }
    }

    /// Adds the outcome of one step: a copy or a missing blob counts, a
    /// failure is recorded with the step's identifier and path.
    pub fn record(&mut self, step: &ExtractStep, outcome: &FileOutcome)
        ensures
            final(self).extracted_count == if outcome is Copied {
                old(self).extracted_count.saturating_add(1)
            } else {
                old(self).extracted_count
            },
            final(self).skipped_count == if outcome is SourceMissing {
                old(self).skipped_count.saturating_add(1)
            } else {
                old(self).skipped_count
            },
            final(self).errors@ == match *outcome {
                FileOutcome::Failed(m) => old(self).errors@.push(
                    ExtractError {
                        file_id: step.file_id,
                        relative_path: step.relative_path,
                        error: m,
                    },
                ),
                _ => old(self).errors@,
            },
    {
        match outcome {
            FileOutcome::Copied => {
                self.extracted_count = self.extracted_count.saturating_add(1);
            },
            FileOutcome::SourceMissing => {
                self.skipped_count = self.skipped_count.saturating_add(1);
            },
            FileOutcome::Failed(m) => {
                self.errors.push(
                    ExtractError {
                        file_id: step.file_id.clone(),
                        relative_path: step.relative_path.clone(),
                        error: m.clone(),
                    },
                );
            },
        }
    }
}

/// Every processed record is counted once: as copied, as skipped or as an
/// error.
pub proof fn lemma_outcomes_partition(steps: Seq<ExtractStep>, o: Seq<FileOutcome>)
    ensures
        copied_count(o) + missing_count(o) + error_entries(steps, o).len() == o.len(),
    decreases o.len(),
{
    if o.len() > 0 {
        lemma_outcomes_partition(steps, o.drop_last());
    }
}

/// Without copy failures, every record is extracted or skipped, and no error
/// is recorded.
pub proof fn lemma_no_failure_no_errors(steps: Seq<ExtractStep>, o: Seq<FileOutcome>)
    requires
        forall|i: int| 0 <= i < o.len() ==> !(#[trigger] o[i] is Failed),
    ensures
        copied_count(o) + missing_count(o) == o.len(),
        error_entries(steps, o).len() == 0,
    decreases o.len(),
{
    if o.len() > 0 {
        assert(forall|i: int| 0 <= i < o.drop_last().len() ==> o.drop_last()[i] == o[i]);
        lemma_no_failure_no_errors(steps, o.drop_last());
        assert(!(o[o.len() - 1] is Failed));
    }
}

/// One failing record among others yields exactly one error entry, naming
/// that record; every other record is still extracted or skipped.
pub proof fn lemma_single_failure(steps: Seq<ExtractStep>, o: Seq<FileOutcome>, k: int)
    requires
        0 <= k < o.len(),
        o[k] is Failed,
        forall|i: int| 0 <= i < o.len() && i != k ==> !(#[trigger] o[i] is Failed),
    ensures
        error_entries(steps, o) == seq![
            (steps[k].file_id@, steps[k].relative_path@, o[k]->Failed_0@),
        ],
        copied_count(o) + missing_count(o) == o.len() - 1,
    decreases o.len(),
{
    let p = o.drop_last();
    assert(forall|i: int| 0 <= i < p.len() ==> p[i] == o[i]);
    if k == o.len() - 1 {
        lemma_no_failure_no_errors(steps, p);
        assert(error_entries(steps, p) =~= Seq::empty());
    } else {
        lemma_single_failure(steps, p, k);
        assert(!(o[o.len() - 1] is Failed));
    }
}

/// Resolves source and destination of each matched record, and sums up what
/// happened to each.
#[derive(Debug)]
pub struct ExtractService;

impl ExtractService {
    pub fn new() -> (r: ExtractService) {
        ExtractService
    }

    /// One step per record, in order: its blob under `backup_dir`, its
    /// destination under `output_dir` at its logical path.
    pub fn plan(&self, files: &Vec<File>, backup_dir: &str, output_dir: &str) -> (r: Vec<
        ExtractStep,
    >)
        ensures
            r@.len() == files@.len(),
            forall|i: int|
                0 <= i < r@.len() ==> {
                    let f = #[trigger] files@[i]@;
                    &&& r@[i].file_id@ == f.id
                    &&& r@[i].relative_path@ == f.path
                    &&& r@[i].source@ == blob_location(backup_dir@, f.id)
                    &&& r@[i].destination@ == destination_of(output_dir@, f.path)
                },
    {
        let mut steps: Vec<ExtractStep> = Vec::new();
        let mut i: usize = 0;
        while i < files.len()
            invariant
                i <= files@.len(),
                steps@.len() == i,
                forall|j: int|
                    0 <= j < i ==> {
                        let f = #[trigger] files@[j]@;
                        &&& steps@[j].file_id@ == f.id
                        &&& steps@[j].relative_path@ == f.path
                        &&& steps@[j].source@ == blob_location(backup_dir@, f.id)
                        &&& steps@[j].destination@ == destination_of(output_dir@, f.path)
                    },
            decreases files@.len() - i,
        {
            let file = &files[i];
            let id = file.id().to_string();
            let path = file.relative_path().to_string();
            let dir = join(backup_dir, file.id().prefix().as_str());
            let source = join(dir.as_str(), id.as_str());
            let destination = join(output_dir, path.as_str());
            steps.push(ExtractStep { file_id: id, relative_path: path, source, destination });
            i = i + 1;
        }
        steps
    }

    /// The summary of a run in which step `i` of `steps` had outcome `i` of
    /// `outcomes`; a run stopped early has outcomes for a prefix of the steps.
    pub fn summarize(&self, steps: &Vec<ExtractStep>, outcomes: Vec<FileOutcome>) -> (r:
        ExtractResult)
        requires
            outcomes@.len() <= steps@.len(),
        ensures
            r.extracted_count == copied_count(outcomes@),
            r.skipped_count == missing_count(outcomes@),
            r.errors@.map_values(|e: ExtractError| error_view(e)) == error_entries(
                steps@,
                outcomes@,
            ),
    {
        let mut result = ExtractResult::empty();
        let mut i: usize = 0;
        while i < outcomes.len()
            invariant
                outcomes@.len() <= steps@.len(),
                i <= outcomes@.len(),
                result.extracted_count == copied_count(outcomes@.take(i as int)),
                result.skipped_count == missing_count(outcomes@.take(i as int)),
                result.errors@.map_values(|e: ExtractError| error_view(e)) == error_entries(
                    steps@,
                    outcomes@.take(i as int),
                ),
            decreases outcomes@.len() - i,
        {
            let ghost o = outcomes@.take(i + 1);
            assert(o.drop_last() =~= outcomes@.take(i as int));
            proof {
                lemma_outcomes_partition(steps@, outcomes@.take(i as int));
            }
            assert(o.last() == outcomes@[i as int]);
            assert(result.extracted_count < usize::MAX && result.skipped_count < usize::MAX);
            result.record(&steps[i], &outcomes[i]);
            assert(result.errors@.map_values(|e: ExtractError| error_view(e)) =~= error_entries(
                steps@,
                o,
            ));
            i = i + 1;
        }
        assert(outcomes@.take(outcomes@.len() as int) =~= outcomes@);
        result
    }
}

impl Default for ExtractService {
    fn default() -> (r: ExtractService) {
        ExtractService::new()
    }
}

} // verus!
