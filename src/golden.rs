//! The golden-master lifecycle of one screenshot assertion, as a state
//! machine. The machine decides; its caller touches the file system. Each
//! call of `advance` takes the answer to the previous request and returns the
//! next request, until a `Report` carries the verdict.
use vstd::prelude::*;

use crate::codec::{
    compare_snapshots, comparison, lemma_equal_fingerprints_same, lemma_snapshot_matches_itself, snapshot_fingerprint,
    Comparison,
};

verus! {

/// Why an assertion failed.
#[derive(PartialEq, Eq, Structural, Clone, Copy, Debug)]
pub enum Failure {
    /// There is no baseline file, and baselines are not being replaced.
    MissingBaseline,
    /// The baseline file is no image.
    BaselineUndecodable,
    /// The capture is no image.
    CaptureUndecodable,
    /// The fingerprints of baseline and capture differ in this many bits.
    Mismatch(u32),
    /// A file could not be written, read or removed.
    Io,
}

/// Where an assertion stands: the request it waits to hear back from.
#[derive(PartialEq, Eq, Structural, Clone, Copy, Debug)]
pub enum Stage {
    WritingCapture,
    WritingBaseline,
    ReadingBaseline,
    RemovingCapture,
    Finished,
}

/// What the caller is asked to do next.
#[derive(PartialEq, Eq, Clone, Copy, Debug)]
pub enum Request {
    /// Write the capture to its file under the directory of captures,
    /// creating parent directories as needed.
    WriteCapture,
    /// Write the capture to the baseline file, creating parent directories
    /// as needed.
    WriteBaseline,
    /// Read the baseline file, telling whether it exists.
    ReadBaseline,
    /// Remove the capture's file.
    RemoveCapture,
    /// The assertion is over, with this verdict.
    Report(Result<(), Failure>),
}

/// The caller's answer to a request.
pub enum Reply {
    /// The write or removal succeeded.
    Done,
    /// The file operation failed.
    Failed,
    /// The baseline file's contents, or `None` where it does not exist.
    Loaded(Option<Vec<u8>>),
}

/// A reply as a mathematical value.
pub enum ReplyView {
    Done,
    Failed,
    Loaded(Option<Seq<u8>>),
}

impl View for Reply {
    type V = ReplyView;

    open spec fn view(&self) -> ReplyView {
        match self {
            Reply::Done => ReplyView::Done,
            Reply::Failed => ReplyView::Failed,
            Reply::Loaded(None) => ReplyView::Loaded(None),
            Reply::Loaded(Some(b)) => ReplyView::Loaded(Some(b@)),
        }
    }
}

/// The failure that a comparison other than `Same` stands for.
pub open spec fn failure_of(c: Comparison) -> Failure {
    match c {
        Comparison::Differ(d) => Failure::Mismatch(d),
        Comparison::BaselineUndecodable => Failure::BaselineUndecodable,
        Comparison::CaptureUndecodable => Failure::CaptureUndecodable,
        Comparison::Same => Failure::Io,
    }
}

/// The transition on `reply` from `stage`, for an assertion of `capture`
/// that replaces baselines when `replace` holds. An answer that does not fit
/// the request, or a failed file operation, ends the assertion with `Io`.
pub open spec fn next(stage: Stage, replace: bool, capture: Seq<u8>, reply: ReplyView) -> (Stage, Request) {
    let io = (Stage::Finished, Request::Report(Err(Failure::Io)));
    match stage {
        Stage::WritingCapture => match reply {
            ReplyView::Done => if replace {
                (Stage::WritingBaseline, Request::WriteBaseline)
            } else {
                (Stage::ReadingBaseline, Request::ReadBaseline)
            },
            _ => io,
        },
        Stage::WritingBaseline => match reply {
            ReplyView::Done => (Stage::RemovingCapture, Request::RemoveCapture),
            _ => io,
        },
        Stage::ReadingBaseline => match reply {
            ReplyView::Loaded(None) => (Stage::Finished, Request::Report(Err(Failure::MissingBaseline))),
            ReplyView::Loaded(Some(b)) => if comparison(b, capture) == Comparison::Same {
                (Stage::RemovingCapture, Request::RemoveCapture)
            } else {
                (Stage::Finished, Request::Report(Err(failure_of(comparison(b, capture)))))
            },
            _ => io,
        },
        Stage::RemovingCapture => match reply {
            ReplyView::Done => (Stage::Finished, Request::Report(Ok(()))),
            _ => io,
        },
        Stage::Finished => io,
    }
}

/// One screenshot assertion in progress.
pub struct Assertion {
    /// Whether the baseline is replaced by the capture instead of compared.
    pub replace: bool,
    /// The capture, encoded as an image.
    pub capture: Vec<u8>,
    pub stage: Stage,
}

impl Assertion {
    /// Starts an assertion of `capture`: the first request is always to write
    /// the capture out, so that it can be inspected if the assertion fails.
    pub fn begin(replace: bool, capture: Vec<u8>) -> (r: (Assertion, Request))
        ensures
            r.0.replace == replace,
            r.0.capture@ == capture@,
            r.0.stage == Stage::WritingCapture,
            r.1 == Request::WriteCapture,
    {
        (Assertion { replace, capture, stage: Stage::WritingCapture }, Request::WriteCapture)
    }

    /// Takes the answer to the last request and returns the next request.
    pub fn advance(&mut self, reply: Reply) -> (r: Request)
        requires
            old(self).stage != Stage::Finished,
        ensures
            (final(self).stage, r) == next(old(self).stage, old(self).replace, old(self).capture@, reply@),
            final(self).replace == old(self).replace,
            final(self).capture@ == old(self).capture@,
    {
        let (stage, request) = match (self.stage, reply) {
            (Stage::WritingCapture, Reply::Done) => if self.replace {
                (Stage::WritingBaseline, Request::WriteBaseline)
            } else {
                (Stage::ReadingBaseline, Request::ReadBaseline)
            },
            (Stage::WritingBaseline, Reply::Done) => (Stage::RemovingCapture, Request::RemoveCapture),
            (Stage::ReadingBaseline, Reply::Loaded(None)) => (
                Stage::Finished,
                Request::Report(Err(Failure::MissingBaseline)),
            ),
            (Stage::ReadingBaseline, Reply::Loaded(Some(b))) => {
                match compare_snapshots(b.as_slice(), self.capture.as_slice()) {
                    Comparison::Same => (Stage::RemovingCapture, Request::RemoveCapture),
                    Comparison::Differ(d) => (Stage::Finished, Request::Report(Err(Failure::Mismatch(d)))),
                    Comparison::BaselineUndecodable => (
                        Stage::Finished,
                        Request::Report(Err(Failure::BaselineUndecodable)),
                    ),
                    Comparison::CaptureUndecodable => (
                        Stage::Finished,
                        Request::Report(Err(Failure::CaptureUndecodable)),
                    ),
                }
            },
            (Stage::RemovingCapture, Reply::Done) => (Stage::Finished, Request::Report(Ok(()))),
            _ => (Stage::Finished, Request::Report(Err(Failure::Io))),
        };
        self.stage = stage;
        request
    }

    /// Whether the assertion has reported its verdict.
    pub fn is_finished(&self) -> (r: bool)
        ensures
            r == (self.stage == Stage::Finished),
    {
        self.stage == Stage::Finished
    }
}

/// Files by path, as the assertion's caller sees them.
pub type Files = Map<Seq<char>, Seq<u8>>;

/// What a file system on which every operation succeeds answers to
/// `request`, and how it changes; `capture_path` and `baseline_path` are the
/// files of the capture and of the baseline.
pub open spec fn respond(
    files: Files,
    capture_path: Seq<char>,
    baseline_path: Seq<char>,
    capture: Seq<u8>,
    request: Request,
) -> (Files, ReplyView) {
    match request {
        Request::WriteCapture => (files.insert(capture_path, capture), ReplyView::Done),
        Request::WriteBaseline => (files.insert(baseline_path, capture), ReplyView::Done),
        Request::ReadBaseline => (
            files,
            ReplyView::Loaded(
                if files.contains_key(baseline_path) {
                    Some(files[baseline_path])
                } else {
                    None
                },
            ),
        ),
        Request::RemoveCapture => (files.remove(capture_path), ReplyView::Done),
        Request::Report(_) => (files, ReplyView::Done),
    }
}

/// Runs the machine from `stage` and `request` against such a file system for
/// at most `fuel` requests: the files afterwards and the verdict.
pub open spec fn settle(
    files: Files,
    capture_path: Seq<char>,
    baseline_path: Seq<char>,
    replace: bool,
    capture: Seq<u8>,
    stage: Stage,
    request: Request,
    fuel: nat,
) -> (Files, Result<(), Failure>)
    decreases fuel,
{
    match request {
        Request::Report(verdict) => (files, verdict),
        _ => if fuel == 0 {
            (files, Err(Failure::Io))
        } else {
            let (files2, reply) = respond(files, capture_path, baseline_path, capture, request);
            let (stage2, request2) = next(stage, replace, capture, reply);
            settle(files2, capture_path, baseline_path, replace, capture, stage2, request2, (fuel - 1) as nat)
        },
    }
}

/// A whole assertion of `capture` on `files`: the files afterwards and the
/// verdict. No assertion makes more than four requests.
pub open spec fn outcome(
    files: Files,
    capture_path: Seq<char>,
    baseline_path: Seq<char>,
    replace: bool,
    capture: Seq<u8>,
) -> (Files, Result<(), Failure>) {
    settle(files, capture_path, baseline_path, replace, capture, Stage::WritingCapture, Request::WriteCapture, 4)
}

/// Without a baseline and outside replace mode, an assertion fails with
/// `MissingBaseline`, and the capture is written and kept.
pub proof fn lemma_missing_baseline(files: Files, capture_path: Seq<char>, baseline_path: Seq<char>, capture: Seq<u8>)
    requires
        capture_path != baseline_path,
        !files.contains_key(baseline_path),
    ensures
        outcome(files, capture_path, baseline_path, false, capture) == (
            files.insert(capture_path, capture),
            Err::<(), Failure>(Failure::MissingBaseline),
        ),
{
    reveal_with_fuel(settle, 5);
}

/// In replace mode an assertion passes, leaves the capture as the baseline,
/// and leaves no capture file behind.
pub proof fn lemma_replace_writes_baseline(files: Files, capture_path: Seq<char>, baseline_path: Seq<char>, capture: Seq<u8>)
    requires
        capture_path != baseline_path,
    ensures
        ({
            let (after, verdict) = outcome(files, capture_path, baseline_path, true, capture);
            &&& verdict == Ok::<(), Failure>(())
            &&& after.contains_key(baseline_path)
            &&& after[baseline_path] == capture
            &&& !after.contains_key(capture_path)
            &&& after == files.insert(baseline_path, capture).remove(capture_path)
        }),
{
    reveal_with_fuel(settle, 5);
    let after = outcome(files, capture_path, baseline_path, true, capture).0;
    assert(after =~= files.insert(baseline_path, capture).remove(capture_path));
}

/// Outside replace mode, with a baseline on disk, an assertion passes exactly
/// when baseline and capture compare as the same. On a pass the files are as
/// before, without the capture; on a failure the capture is kept.
pub proof fn lemma_compare_verdict(files: Files, capture_path: Seq<char>, baseline_path: Seq<char>, capture: Seq<u8>)
    requires
        capture_path != baseline_path,
        files.contains_key(baseline_path),
    ensures
        ({
            let (after, verdict) = outcome(files, capture_path, baseline_path, false, capture);
            let c = comparison(files[baseline_path], capture);
            &&& (verdict is Ok <==> c == Comparison::Same)
            &&& c == Comparison::Same ==> verdict == Ok::<(), Failure>(()) && after == files.remove(capture_path)
            &&& c != Comparison::Same ==> verdict == Err::<(), Failure>(failure_of(c))
                && after == files.insert(capture_path, capture)
        }),
{
    reveal_with_fuel(settle, 5);
    let after = outcome(files, capture_path, baseline_path, false, capture).0;
    if comparison(files[baseline_path], capture) == Comparison::Same {
        assert(after =~= files.remove(capture_path));
    }
}

/// Outside replace mode, a capture whose fingerprint agrees with that of the
/// baseline passes even where the bytes differ, and its file is removed; the
/// baseline stays as it was.
pub proof fn lemma_perceptual_pass(files: Files, capture_path: Seq<char>, baseline_path: Seq<char>, capture: Seq<u8>)
    requires
        capture_path != baseline_path,
        files.contains_key(baseline_path),
        snapshot_fingerprint(files[baseline_path]) is Some,
        snapshot_fingerprint(files[baseline_path]) == snapshot_fingerprint(capture),
    ensures
        outcome(files, capture_path, baseline_path, false, capture) == (
            files.remove(capture_path),
            Ok::<(), Failure>(()),
        ),
{
    lemma_equal_fingerprints_same(files[baseline_path], capture);
    lemma_compare_verdict(files, capture_path, baseline_path, capture);
}

/// Running an assertion again after it passed passes again, leaves the files
/// unchanged, and leaves no capture file behind either time.
pub proof fn lemma_pass_is_idempotent(
    files: Files,
    capture_path: Seq<char>,
    baseline_path: Seq<char>,
    replace: bool,
    capture: Seq<u8>,
)
    requires
        capture_path != baseline_path,
        outcome(files, capture_path, baseline_path, replace, capture).1 is Ok,
    ensures
        ({
            let (after, _) = outcome(files, capture_path, baseline_path, replace, capture);
            &&& !after.contains_key(capture_path)
            &&& outcome(after, capture_path, baseline_path, replace, capture) == (after, Ok::<(), Failure>(()))
        }),
{
    let after = outcome(files, capture_path, baseline_path, replace, capture).0;
    if replace {
        lemma_replace_writes_baseline(files, capture_path, baseline_path, capture);
        lemma_replace_writes_baseline(after, capture_path, baseline_path, capture);
        assert(after.insert(baseline_path, capture).remove(capture_path) =~= after);
    } else {
        if !files.contains_key(baseline_path) {
            lemma_missing_baseline(files, capture_path, baseline_path, capture);
        }
        lemma_compare_verdict(files, capture_path, baseline_path, capture);
        assert(after == files.remove(capture_path));
        assert(after.contains_key(baseline_path) && after[baseline_path] == files[baseline_path]);
        lemma_compare_verdict(after, capture_path, baseline_path, capture);
        assert(after.remove(capture_path) =~= after);
    }
}

/// A baseline written in replace mode is matched by the same capture in
/// compare mode right afterwards, which then leaves the files as they were.
pub proof fn lemma_replace_then_compare(files: Files, capture_path: Seq<char>, baseline_path: Seq<char>, capture: Seq<u8>)
    requires
        capture_path != baseline_path,
        snapshot_fingerprint(capture) is Some,
    ensures
        ({
            let (after, verdict) = outcome(files, capture_path, baseline_path, true, capture);
            &&& verdict is Ok
            &&& outcome(after, capture_path, baseline_path, false, capture) == (after, Ok::<(), Failure>(()))
        }),
{
    lemma_replace_writes_baseline(files, capture_path, baseline_path, capture);
    let after = outcome(files, capture_path, baseline_path, true, capture).0;
    lemma_snapshot_matches_itself(capture);
    assert(after.contains_key(baseline_path) && after[baseline_path] == capture);
    lemma_compare_verdict(after, capture_path, baseline_path, capture);
    assert(after.remove(capture_path) =~= after);
}

} // verus!
