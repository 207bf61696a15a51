//! The batch layer: one summary record per input file, in input order,
//! with per-file failure isolated. A result-collecting fold accumulates
//! successes and failures side by side; no single bad file aborts the
//! batch, and the caller decides what partial failure means.

use vstd::prelude::*;
use crate::errors::ParseError;
use crate::video::{video_info_of, VideoInfo, VideoInfoView};

verus! {

/// One input to the batch: a file's name and its bytes, read by the
/// caller.
pub struct FileInput {
    pub filename: String,
    pub data: Vec<u8>,
}

/// One failure of the batch, recorded against the file that caused it.
#[derive(Debug, Clone)]
pub struct BatchFailure {
    pub filename: String,
    pub error: ParseError,
}

/// The mathematical image of a recorded failure.
pub ghost struct BatchFailureView {
    pub filename: Seq<char>,
    pub error: ParseError,
}

impl View for BatchFailure {
    type V = BatchFailureView;

    open spec fn view(&self) -> BatchFailureView {
        BatchFailureView { filename: self.filename@, error: self.error }
    }
}

/// Everything a batch run returns: the records of the files that parsed,
/// in input order; the failures of those that did not, in input order; and
/// the count of files successfully processed.
pub struct BatchOutcome {
    pub records: Vec<VideoInfo>,
    pub failures: Vec<BatchFailure>,
    pub files_processed: u32,
}

/// What extracting one batch input owes.
pub open spec fn file_result(fi: FileInput) -> Result<VideoInfoView, ParseError> {
    video_info_of(fi.filename@, fi.data@)
}

/// The records owed for a batch: those of the inputs whose extraction
/// succeeds, in input order.
pub open spec fn batch_records(inputs: Seq<FileInput>) -> Seq<VideoInfoView>
    decreases inputs.len(),
{
    if inputs.len() == 0 {
        Seq::empty()
    } else {
        let rest = batch_records(inputs.drop_last());
        match file_result(inputs.last()) {
            Ok(v) => rest.push(v),
            Err(_) => rest,
        }
    }
}

/// The failures owed for a batch: one per input whose extraction fails,
/// in input order, each against its own file's name.
pub open spec fn batch_failures(inputs: Seq<FileInput>) -> Seq<BatchFailureView>
    decreases inputs.len(),
{
    if inputs.len() == 0 {
        Seq::empty()
    } else {
        let rest = batch_failures(inputs.drop_last());
        match file_result(inputs.last()) {
            Ok(_) => rest,
            Err(e) => rest.push(
                BatchFailureView { filename: inputs.last().filename@, error: e },
            ),
        }
    }
}

/// Processes the resolved input files strictly in order, isolating each
/// file's failure: every input contributes either its record or its
/// failure, and the records keep the input order.
pub fn process_files(inputs: &Vec<FileInput>) -> (r: BatchOutcome)
    requires
        inputs@.len() <= u32::MAX,
    ensures
        r.records@.map_values(|v: VideoInfo| v@) == batch_records(inputs@),
        r.failures@.map_values(|f: BatchFailure| f@) == batch_failures(inputs@),
        r.files_processed == batch_records(inputs@).len(),
{
    let n = inputs.len();
    let mut records: Vec<VideoInfo> = Vec::new();
    let mut failures: Vec<BatchFailure> = Vec::new();
    let mut files_processed: u32 = 0;
    let mut i: usize = 0;
    while i < n
        invariant
            n == inputs@.len() <= u32::MAX,
            0 <= i <= n,
            records@.map_values(|v: VideoInfo| v@) == batch_records(inputs@.take(i as int)),
            failures@.map_values(|f: BatchFailure| f@) == batch_failures(inputs@.take(i as int)),
            files_processed == batch_records(inputs@.take(i as int)).len(),
            records@.len() == files_processed,
            files_processed <= i,
        decreases n - i,
    {
        proof {
            assert(inputs@.take(i + 1).drop_last() =~= inputs@.take(i as int));
            assert(inputs@.take(i + 1).last() == inputs@[i as int]);
        }
        let fi = &inputs[i];
        match VideoInfo::from(fi.filename.as_str(), &fi.data) {
            Ok(v) => {
                records.push(v);
                files_processed = files_processed + 1;
                proof {
                    assert(records@.map_values(|v: VideoInfo| v@) =~= batch_records(
                        inputs@.take(i + 1),
                    ));
                }
            },
            Err(e) => {
                let name = fi.filename.clone();
                proof {
                    assert(name@ == fi.filename@);
                }
                failures.push(BatchFailure { filename: name, error: e });
                proof {
                    assert(failures@.map_values(|f: BatchFailure| f@) =~= batch_failures(
                        inputs@.take(i + 1),
                    ));
                }
            },
        }
        i = i + 1;
    }
    proof {
        assert(inputs@.take(n as int) =~= inputs@);
    }
    BatchOutcome { records, failures, files_processed }
}

/// Batch processing distributes over concatenation: the records and the
/// failures of two batches run as one are those of the two batches, one
/// after the other. What one stretch of inputs contributes is therefore
/// untouched by whatever stands before or after it.
pub proof fn lemma_batch_split(a: Seq<FileInput>, b: Seq<FileInput>)
    ensures
        batch_records(a + b) == batch_records(a) + batch_records(b),
        batch_failures(a + b) == batch_failures(a) + batch_failures(b),
    decreases b.len(),
{
    if b.len() == 0 {
        assert(a + b =~= a);
        assert(batch_records(a) + batch_records(b) =~= batch_records(a));
        assert(batch_failures(a) + batch_failures(b) =~= batch_failures(a));
    } else {
        lemma_batch_split(a, b.drop_last());
        assert((a + b).drop_last() =~= a + b.drop_last());
        assert((a + b).last() == b.last());
        match file_result(b.last()) {
            Ok(v) => {
                assert(batch_records(a + b) =~= batch_records(a) + batch_records(b));
                assert(batch_failures(a + b) =~= batch_failures(a) + batch_failures(b));
            },
            Err(e) => {
                assert(batch_records(a + b) =~= batch_records(a) + batch_records(b));
                assert(batch_failures(a + b) =~= batch_failures(a) + batch_failures(b));
            },
        }
    }
}

/// One invalid file in the middle of a batch yields exactly its own
/// failure and nothing else: the records are those of the files around it,
/// in their original order, and the failure is recorded against the bad
/// file's name.
pub proof fn lemma_bad_file_isolated(a: Seq<FileInput>, bad: FileInput, b: Seq<FileInput>)
    requires
        file_result(bad) is Err,
    ensures
        batch_records(a + seq![bad] + b) == batch_records(a) + batch_records(b),
        batch_failures(a + seq![bad] + b) == batch_failures(a) + seq![
            BatchFailureView {
                filename: bad.filename@,
                error: file_result(bad)->Err_0,
            },
        ] + batch_failures(b),
{
    lemma_batch_split(a + seq![bad], b);
    lemma_batch_split(a, seq![bad]);
    assert(batch_records(Seq::<FileInput>::empty()) =~= Seq::<VideoInfoView>::empty());
    assert(batch_failures(Seq::<FileInput>::empty()) =~= Seq::<BatchFailureView>::empty());
    assert(seq![bad].drop_last() =~= Seq::<FileInput>::empty());
    assert(seq![bad].last() == bad);
    assert(batch_records(seq![bad]) =~= Seq::<VideoInfoView>::empty());
    assert(batch_failures(seq![bad]) =~= seq![
        BatchFailureView { filename: bad.filename@, error: file_result(bad)->Err_0 },
    ]);
    assert(batch_records(a + seq![bad] + b) =~= batch_records(a) + batch_records(b));
    assert(batch_failures(a + seq![bad] + b) =~= batch_failures(a) + seq![
        BatchFailureView { filename: bad.filename@, error: file_result(bad)->Err_0 },
    ] + batch_failures(b));
}

} // verus!
