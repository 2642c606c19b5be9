//! Bootstrap of the bundled runtime: download (if not cached), verify and extract
//! the archive.
//!
//! The work alternates with decisions. A [`Bootstrap`] says by its [`Stage`] what
//! has to be done next; the host does it and hands back a [`Report`].

use crate::checksum::{
    checksum_matches, is_expected, law_expected_up_to_case, same_checksum,
};
use crate::config::RuntimeConfig;
use crate::error::RizonetError;
use crate::runtime::{ResolvedRuntime, RuntimeKind};
use crate::text::{concat2, copy_opt};
use std::path::PathBuf;
use vstd::prelude::*;

verus! {

/// The archive, below the cache directory.
pub const ARCHIVE_FILE: &'static str = "runtime.zip";

/// The directory into which the archive is extracted, below the cache directory.
pub const EXTRACT_DIR: &'static str = "extracted";

/// The file that says that the extracted runtime is complete, below the cache
/// directory.
pub const STAMP_FILE: &'static str = ".ok";

/// What has to be done next.
#[derive(Debug)]
pub enum Stage {
    /// Find the cache directory of the app. Takes whether the platform has one.
    LocateCache,
    /// Create the cache directory.
    CreateCache,
    /// Look for the stamp. Takes whether it is there.
    CheckStamp,
    /// Download the archive.
    Download,
    /// Compute the checksum of the archive. Takes the checksum.
    HashArchive,
    /// Remove the archive, whose checksum is wrong.
    RemoveArchive(String),
    /// Look for an earlier extracted runtime. Takes whether it is there.
    CheckExtracted,
    /// Remove the earlier extracted runtime.
    ClearExtracted,
    /// Create the directory for the extracted runtime.
    CreateExtracted,
    /// Extract the archive.
    Extract,
    /// Write the stamp.
    WriteStamp,
    /// Nothing: the extracted runtime is complete.
    Complete,
}

/// What came of the work of a stage.
#[derive(Debug)]
pub enum Report {
    Done,
    Failed(RizonetError),
    /// The task that did the work crashed.
    Crashed(String),
    Answer(bool),
    Digest(String),
}

/// A bootstrap on its way.
#[derive(Debug)]
pub struct Bootstrap {
    url: String,
    expected: Option<String>,
    stage: Stage,
}

impl Stage {
    /// Whether the work of this stage can come to that report.
    pub open spec fn takes(self, report: Report) -> bool {
        match self {
            Stage::LocateCache | Stage::CheckStamp | Stage::CheckExtracted => report is Answer,
            Stage::CreateCache
            | Stage::Download
            | Stage::RemoveArchive(_)
            | Stage::ClearExtracted
            | Stage::CreateExtracted
            | Stage::WriteStamp => report is Done || report is Failed,
            Stage::HashArchive => report is Digest || report is Failed,
            Stage::Extract => report is Done || report is Failed || report is Crashed,
            Stage::Complete => false,
        }
    }
}

impl Bootstrap {
    /// What has to be done next.
    pub closed spec fn next(self) -> Stage {
        self.stage
    }

    /// From where the archive is downloaded.
    pub closed spec fn source(self) -> Seq<char> {
        self.url@
    }

    /// The checksum that the archive has to have, if one is configured.
    pub closed spec fn wanted(self) -> Option<String> {
        self.expected
    }

    /// Whether `r` is this bootstrap at another stage.
    pub open spec fn moves_to(self, stage: Stage, r: Result<Bootstrap, RizonetError>) -> bool {
        &&& r matches Ok(b)
        &&& b.next() == stage
        &&& b.source() == self.source()
        &&& b.wanted() == self.wanted()
    }

    /// Whether `r` is where a report leads: to the next stage, or to the failure
    /// of the bootstrap.
    pub open spec fn leads(self, report: Report, r: Result<Bootstrap, RizonetError>) -> bool {
        match (self.next(), report) {
            (Stage::LocateCache, Report::Answer(true)) => self.moves_to(Stage::CreateCache, r),
            (Stage::LocateCache, Report::Answer(false)) => {
                r matches Err(RizonetError::Runtime(m)) && m@
                    == "cannot resolve platform cache directory"@
            },
            (Stage::CreateCache, Report::Done) => self.moves_to(Stage::CheckStamp, r),
            (Stage::CheckStamp, Report::Answer(true)) => self.moves_to(Stage::Complete, r),
            (Stage::CheckStamp, Report::Answer(false)) => self.moves_to(Stage::Download, r),
            (Stage::Download, Report::Done) => if self.wanted() is Some {
                self.moves_to(Stage::HashArchive, r)
            } else {
                self.moves_to(Stage::CheckExtracted, r)
            },
            (Stage::HashArchive, Report::Digest(actual)) => if is_expected(
                actual@,
                self.wanted()->0@,
            ) {
                self.moves_to(Stage::CheckExtracted, r)
            } else {
                self.moves_to(Stage::RemoveArchive(actual), r)
            },
            (Stage::RemoveArchive(wrong), _) => {
                r matches Err(RizonetError::Checksum { expected, actual }) && expected@
                    == self.wanted()->0@ && actual@ == wrong@
            },
            (Stage::CheckExtracted, Report::Answer(true)) => self.moves_to(
                Stage::ClearExtracted,
                r,
            ),
            (Stage::CheckExtracted, Report::Answer(false)) => self.moves_to(
                Stage::CreateExtracted,
                r,
            ),
            (Stage::ClearExtracted, _) => self.moves_to(Stage::CreateExtracted, r),
            (Stage::CreateExtracted, Report::Done) => self.moves_to(Stage::Extract, r),
            (Stage::Extract, Report::Done) => self.moves_to(Stage::WriteStamp, r),
            (Stage::Extract, Report::Crashed(how)) => {
                r matches Err(RizonetError::Runtime(m)) && m@ == "extraction task join error: "@
                    + how@
            },
            (Stage::WriteStamp, Report::Done) => self.moves_to(Stage::Complete, r),
            (_, Report::Failed(e)) => r == Err::<Bootstrap, RizonetError>(e),
            _ => false,
        }
    }

    #[verifier::type_invariant]
    spec fn well_formed(self) -> bool {
        self.stage is HashArchive || self.stage is RemoveArchive ==> self.expected is Some
    }

    /// A bootstrap that has everything before it. Fails where the configuration
    /// does not say from where to download the runtime.
    pub fn start(cfg: &RuntimeConfig) -> (r: Result<Bootstrap, RizonetError>)
        ensures
            match cfg.bootstrap_url {
                Some(url) => {
                    &&& r matches Ok(b)
                    &&& b.next() == Stage::LocateCache
                    &&& b.source() == url@
                    &&& b.wanted() == cfg.bootstrap_sha256
                },
                None => r matches Err(RizonetError::Runtime(m)) && m@
                    == "runtime.mode=strict (or auto-fallback) requires runtime.bootstrap_url"@,
            },
    {
        match &cfg.bootstrap_url {
            Some(url) => {
                let expected: Option<String> = copy_opt(&cfg.bootstrap_sha256);
                Ok(Bootstrap { url: url.clone(), expected, stage: Stage::LocateCache })
            },
            None => Err(
                RizonetError::Runtime(
                    "runtime.mode=strict (or auto-fallback) requires runtime.bootstrap_url".to_owned(),
                ),
            ),
        }
    }

    /// What has to be done next.
    pub fn stage(&self) -> (r: &Stage)
        ensures
            *r == self.next(),
    {
        &self.stage
    }

    /// From where the archive is downloaded.
    pub fn url(&self) -> (r: &str)
        ensures
            r@ == self.source(),
    {
        self.url.as_str()
    }

    fn at(self, stage: Stage) -> (r: Result<Bootstrap, RizonetError>)
        requires
            stage is HashArchive || stage is RemoveArchive ==> self.wanted() is Some,
        ensures
            self.moves_to(stage, r),
    {
        Ok(Bootstrap { url: self.url, expected: self.expected, stage })
    }

    /// Go on after the work of the stage.
    pub fn advance(self, report: Report) -> (r: Result<Bootstrap, RizonetError>)
        requires
            self.next().takes(report),
        ensures
            self.leads(report, r),
    {
        proof {
            use_type_invariant(&self);
        }
        match report {
            Report::Done => match &self.stage {
                Stage::CreateCache => self.at(Stage::CheckStamp),
                Stage::Download => if self.expected.is_some() {
                    self.at(Stage::HashArchive)
                } else {
                    self.at(Stage::CheckExtracted)
                },
                Stage::RemoveArchive(actual) => Err(self.mismatch(actual.as_str())),
                Stage::ClearExtracted => self.at(Stage::CreateExtracted),
                Stage::CreateExtracted => self.at(Stage::Extract),
                Stage::Extract => self.at(Stage::WriteStamp),
                _ => self.at(Stage::Complete),
            },
            Report::Failed(e) => match &self.stage {
                // Nothing depends on whether what is in the way could be removed.
                Stage::RemoveArchive(actual) => Err(self.mismatch(actual.as_str())),
                Stage::ClearExtracted => self.at(Stage::CreateExtracted),
                _ => Err(e),
            },
            Report::Crashed(how) => Err(
                RizonetError::Runtime(concat2("extraction task join error: ", how.as_str())),
            ),
            Report::Answer(yes) => match &self.stage {
                Stage::LocateCache => if yes {
                    self.at(Stage::CreateCache)
                } else {
                    Err(
                        RizonetError::Runtime("cannot resolve platform cache directory".to_owned()),
                    )
                },
                Stage::CheckStamp => if yes {
                    self.at(Stage::Complete)
                } else {
                    self.at(Stage::Download)
                },
                _ => if yes {
                    self.at(Stage::ClearExtracted)
                } else {
                    self.at(Stage::CreateExtracted)
                },
            },
            Report::Digest(actual) => {
                let expected: bool = match &self.expected {
                    Some(expected) => checksum_matches(actual.as_str(), expected.as_str()),
                    None => true,
                };
                if expected {
                    self.at(Stage::CheckExtracted)
                } else {
                    self.at(Stage::RemoveArchive(actual))
                }
            },
        }
    }

    /// The failure of an archive with the wrong checksum.
    fn mismatch(&self, actual: &str) -> (e: RizonetError)
        requires
            self.wanted() is Some,
        ensures
            e matches RizonetError::Checksum { expected, actual: a } && expected@
                == self.wanted()->0@ && a@ == actual@,
    {
        let expected: String = match &self.expected {
            Some(expected) => expected.clone(),
            None => String::new(),
        };
        RizonetError::Checksum { expected, actual: actual.to_owned() }
    }
}

// ----------------------------------------------------------------------- laws

/// Whether a bootstrap went through these states, with these reports between them.
pub open spec fn is_run(states: Seq<Bootstrap>, reports: Seq<Report>) -> bool {
    &&& states.len() == reports.len() + 1
    &&& states[0].next() == Stage::LocateCache
    &&& forall|i: int|
        0 <= i < reports.len() ==> #[trigger] states[i].next().takes(reports[i])
            && states[i].leads(reports[i], Ok(states[i + 1]))
}

/// How much of a bootstrap is left at a stage, at most.
pub open spec fn left(stage: Stage) -> nat {
    match stage {
        Stage::LocateCache => 11,
        Stage::CreateCache => 10,
        Stage::CheckStamp => 9,
        Stage::Download => 8,
        Stage::HashArchive => 7,
        Stage::RemoveArchive(_) => 6,
        Stage::CheckExtracted => 5,
        Stage::ClearExtracted => 4,
        Stage::CreateExtracted => 3,
        Stage::Extract => 2,
        Stage::WriteStamp => 1,
        Stage::Complete => 0,
    }
}

/// Every report brings a bootstrap closer to its end, so that it ends.
pub proof fn law_bootstrap_ends(b: Bootstrap, report: Report, r: Result<Bootstrap, RizonetError>)
    requires
        b.next().takes(report),
        b.leads(report, r),
    ensures
        r matches Ok(after) ==> left(after.next()) < left(b.next()),
{
}

/// Where a checksum is configured, an archive is extracted only after its checksum
/// was found to be the configured one.
pub proof fn law_verified_before_extraction(
    states: Seq<Bootstrap>,
    reports: Seq<Report>,
    k: int,
) -> (i: int)
    requires
        is_run(states, reports),
        0 <= k < states.len(),
        states[k].next() == Stage::Extract,
        states[k].wanted() is Some,
    ensures
        0 <= i < k,
        states[i].next() == Stage::HashArchive,
        reports[i] matches Report::Digest(actual) && is_expected(
            actual@,
            states[k].wanted()->0@,
        ),
{
    assert(states[k - 1].next().takes(reports[k - 1]));
    assert(states[k - 1].next() == Stage::CreateExtracted);
    assert(states[k - 2].next().takes(reports[k - 2]));
    let check = if states[k - 2].next() == Stage::CheckExtracted {
        k - 2
    } else {
        assert(states[k - 3].next().takes(reports[k - 3]));
        k - 3
    };
    assert(states[check].next() == Stage::CheckExtracted);
    assert(states[check].wanted() == states[k].wanted());
    assert(states[check - 1].next().takes(reports[check - 1]));
    check - 1
}

/// The stamp is written only after the archive was extracted.
pub proof fn law_stamp_after_extraction(states: Seq<Bootstrap>, reports: Seq<Report>, k: int)
    requires
        is_run(states, reports),
        0 <= k < states.len(),
        states[k].next() == Stage::WriteStamp,
    ensures
        k > 0,
        states[k - 1].next() == Stage::Extract,
        reports[k - 1] == Report::Done,
{
    assert(states[k - 1].next().takes(reports[k - 1]));
}

/// A bootstrap is complete only with a stamp in the cache: it found one, or it wrote
/// one.
pub proof fn law_complete_means_stamped(states: Seq<Bootstrap>, reports: Seq<Report>, k: int)
    requires
        is_run(states, reports),
        0 <= k < states.len(),
        states[k].next() == Stage::Complete,
    ensures
        k > 0,
        ({
            ||| states[k - 1].next() == Stage::CheckStamp && reports[k - 1] == Report::Answer(true)
            ||| states[k - 1].next() == Stage::WriteStamp && reports[k - 1] == Report::Done
        }),
{
    assert(states[k - 1].next().takes(reports[k - 1]));
}

/// With a stamp in the cache the bootstrap is complete at once: nothing is
/// downloaded or extracted.
pub proof fn law_cached_runtime_is_used(states: Seq<Bootstrap>, reports: Seq<Report>, k: int)
    requires
        is_run(states, reports),
        0 <= k < reports.len(),
        states[k].next() == Stage::CheckStamp,
        reports[k] == Report::Answer(true),
    ensures
        states[k + 1].next() == Stage::Complete,
        states.len() == k + 2,
        forall|j: int|
            0 <= j < states.len() ==> (#[trigger] states[j]).next() != Stage::Download
                && states[j].next() != Stage::Extract,
{
    assert(states[k].next().takes(reports[k]));
    if k + 1 < reports.len() {
        assert(states[k + 1].next().takes(reports[k + 1]));
    }
    assert(states[k - 1].next().takes(reports[k - 1]));
    assert(states[k - 1].next() == Stage::CreateCache);
    assert(states[k - 2].next().takes(reports[k - 2]));
    assert(states[k - 2].next() == Stage::LocateCache);
    if k > 2 {
        assert(states[k - 3].next().takes(reports[k - 3]));
    }
    assert(k == 2);
}

/// Once a bootstrap has completed, one that finds the cache as it was left completes
/// without a download or an extraction, and both give the bundled runtime at the same
/// root.
pub proof fn law_second_bootstrap_reuses_the_first(
    states: Seq<Bootstrap>,
    reports: Seq<Report>,
    k: int,
    root: PathBuf,
    first: ResolvedRuntime,
    second: ResolvedRuntime,
    browser: Option<PathBuf>,
    other_browser: Option<PathBuf>,
)
    requires
        is_run(states, reports),
        0 <= k < reports.len(),
        states[k].next() == Stage::CheckStamp,
        reports[k] == Report::Answer(true),
        first.is_bundled(root, browser),
        second.is_bundled(root, other_browser),
    ensures
        states.last().next() == Stage::Complete,
        forall|j: int|
            0 <= j < states.len() ==> (#[trigger] states[j]).next() != Stage::Download
                && states[j].next() != Stage::Extract,
        second.kind == RuntimeKind::Bundled,
        second.runtime_root == first.runtime_root,
        second.runtime_root == Some(root),
{
    law_cached_runtime_is_used(states, reports, k);
}

/// An archive with the wrong checksum is removed, and the bootstrap fails with
/// both checksums.
pub proof fn law_wrong_archive_is_rejected(
    b: Bootstrap,
    actual: String,
    after: Bootstrap,
    report: Report,
    r: Result<Bootstrap, RizonetError>,
)
    requires
        b.next() == Stage::HashArchive,
        b.wanted() is Some,
        !is_expected(actual@, b.wanted()->0@),
        b.leads(Report::Digest(actual), Ok(after)),
        after.leads(report, r),
    ensures
        after.next() == Stage::RemoveArchive(actual),
        r matches Err(RizonetError::Checksum { expected, actual: a }) && expected@
            == b.wanted()->0@ && a@ == actual@,
{
}

/// Whether the work of a stage went well: what was to be done was done, there is a
/// cache directory, and the archive has the wanted checksum. Whether a stamp or an
/// earlier runtime was found is no matter.
pub open spec fn went_well(stage: Stage, wanted: Option<String>, report: Report) -> bool {
    match stage {
        Stage::LocateCache => report == Report::Answer(true),
        Stage::CheckStamp | Stage::CheckExtracted => report is Answer,
        Stage::HashArchive => report matches Report::Digest(actual) && wanted is Some
            && is_expected(actual@, wanted->0@),
        Stage::RemoveArchive(_) | Stage::Complete => false,
        _ => report is Done,
    }
}

/// A bootstrap whose work goes well goes on, whether or not a checksum is configured,
/// a stamp is there or an earlier runtime is there.
pub proof fn law_good_work_goes_on(
    b: Bootstrap,
    report: Report,
    r: Result<Bootstrap, RizonetError>,
)
    requires
        went_well(b.next(), b.wanted(), report),
        call_ensures(Bootstrap::advance, (b, report), r),
    ensures
        r matches Ok(after) && left(after.next()) < left(b.next()) && !(after.next()
            is RemoveArchive) && after.source() == b.source() && after.wanted() == b.wanted(),
{
}

/// A bootstrap fails only on bad news: work that failed or crashed, no cache
/// directory, or an archive that is being removed for its checksum. That an earlier
/// runtime could not be removed is no such news.
pub proof fn law_only_bad_news_stops(
    b: Bootstrap,
    report: Report,
    r: Result<Bootstrap, RizonetError>,
)
    requires
        b.next().takes(report),
        call_ensures(Bootstrap::advance, (b, report), r),
    ensures
        r is Err <==> (report is Crashed || (report is Failed && b.next()
            != Stage::ClearExtracted) || (b.next() == Stage::LocateCache && report
            == Report::Answer(false)) || b.next() is RemoveArchive),
        r is Err && !(b.next() is RemoveArchive) ==> (report matches Report::Failed(e) ==> r == Err::<
            Bootstrap,
            RizonetError,
        >(e)),
        report matches Report::Crashed(how) ==> (r matches Err(RizonetError::Runtime(m)) && m@
            == "extraction task join error: "@ + how@),
        b.next() == Stage::LocateCache && report == Report::Answer(false) ==> (r matches Err(
            RizonetError::Runtime(m),
        ) && m@ == "cannot resolve platform cache directory"@),
{
}

/// A run in which all work went well has at most eleven reports, and as long as it is
/// not complete the next report of good work takes it on: so it reaches the end.
pub proof fn law_good_runs_complete(
    states: Seq<Bootstrap>,
    reports: Seq<Report>,
    report: Report,
    r: Result<Bootstrap, RizonetError>,
)
    requires
        is_run(states, reports),
        forall|i: int|
            0 <= i < reports.len() ==> went_well(
                (#[trigger] states[i]).next(),
                states[i].wanted(),
                reports[i],
            ),
        call_ensures(Bootstrap::advance, (states.last(), report), r),
        went_well(states.last().next(), states.last().wanted(), report),
    ensures
        reports.len() + left(states.last().next()) <= 11,
        reports.len() < 11,
        r matches Ok(after) && left(after.next()) < left(states.last().next()),
{
    lemma_run_shortens(states, reports, reports.len() as int);
    assert(left(states.last().next()) > 0);
}

/// Each report of a run leaves less to do.
proof fn lemma_run_shortens(states: Seq<Bootstrap>, reports: Seq<Report>, k: int)
    requires
        is_run(states, reports),
        0 <= k <= reports.len(),
    ensures
        k + left(states[k].next()) <= 11,
    decreases k,
{
    if k > 0 {
        lemma_run_shortens(states, reports, k - 1);
        assert(states[k - 1].next().takes(reports[k - 1]));
    }
}

/// A run that is complete went through its stages in order: after the cache directory
/// the stamp, and where there was none the download, the checksum where one is
/// configured, the removal of an earlier runtime where there was one, the extraction,
/// and the stamp.
pub proof fn law_stages_of_a_complete_run(states: Seq<Bootstrap>, reports: Seq<Report>)
    requires
        is_run(states, reports),
        states.last().next() == Stage::Complete,
    ensures
        states.len() >= 4,
        states[0].next() == Stage::LocateCache && reports[0] == Report::Answer(true),
        states[1].next() == Stage::CreateCache && reports[1] == Report::Done,
        states[2].next() == Stage::CheckStamp,
        reports[2] == Report::Answer(true) ==> states.len() == 4,
        reports[2] != Report::Answer(true) ==> {
            let n: int = if states[0].wanted() is Some {
                1
            } else {
                0
            };
            let c: int = if reports[4 + n] == Report::Answer(true) {
                1
            } else {
                0
            };
            &&& states.len() == 9 + n + c
            &&& states[3].next() == Stage::Download && reports[3] == Report::Done
            &&& n == 1 ==> states[4].next() == Stage::HashArchive
            &&& states[4 + n].next() == Stage::CheckExtracted
            &&& c == 1 ==> states[5 + n].next() == Stage::ClearExtracted
            &&& states[5 + n + c].next() == Stage::CreateExtracted && reports[5 + n + c]
                == Report::Done
            &&& states[6 + n + c].next() == Stage::Extract && reports[6 + n + c] == Report::Done
            &&& states[7 + n + c].next() == Stage::WriteStamp && reports[7 + n + c] == Report::Done
        },
{
    lemma_step(states, reports, 0);
    lemma_step(states, reports, 1);
    lemma_step(states, reports, 2);
    assert(states[3].wanted() == states[0].wanted());
    if reports[2] == Report::Answer(true) {
        if states.len() > 4 {
            lemma_step(states, reports, 3);
        }
    } else {
        lemma_step(states, reports, 3);
        let n: int = if states[0].wanted() is Some {
            1
        } else {
            0
        };
        lemma_step(states, reports, 4);
        if n == 1 && states[5].next() is RemoveArchive {
            lemma_step(states, reports, 5);
        }
        lemma_step(states, reports, 4 + n);
        let c: int = if reports[4 + n] == Report::Answer(true) {
            1
        } else {
            0
        };
        lemma_step(states, reports, 5 + n);
        lemma_step(states, reports, 5 + n + c);
        lemma_step(states, reports, 6 + n + c);
        lemma_step(states, reports, 7 + n + c);
        if states.len() > 9 + n + c {
            lemma_step(states, reports, 8 + n + c);
        }
    }
}

/// A run goes on from every stage but the last.
proof fn lemma_step(states: Seq<Bootstrap>, reports: Seq<Report>, i: int)
    requires
        is_run(states, reports),
        0 <= i < states.len(),
        states.last().next() == Stage::Complete,
        i < reports.len() || states[i].next() != Stage::Complete,
    ensures
        i < reports.len(),
        states[i].next() != Stage::Complete,
        states[i].next().takes(reports[i]),
        states[i].leads(reports[i], Ok(states[i + 1])),
        states[i + 1].wanted() == states[i].wanted(),
        states[i + 1].source() == states[i].source(),
{
    if i == reports.len() {
        assert(states[i] == states.last());
    }
    assert(states[i].next().takes(reports[i]));
}

/// An archive is removed exactly when a checksum is configured that it does not have,
/// up to case; the bootstrap then fails with both checksums, whether or not the
/// archive could be removed.
pub proof fn law_archive_is_judged_by_its_checksum(
    b: Bootstrap,
    actual: String,
    judged: Result<Bootstrap, RizonetError>,
    report: Report,
    end: Result<Bootstrap, RizonetError>,
)
    requires
        b.next() == Stage::HashArchive,
        b.wanted() is Some,
        call_ensures(Bootstrap::advance, (b, Report::Digest(actual)), judged),
        report is Done || report is Failed,
        judged is Ok,
        call_ensures(Bootstrap::advance, (judged->Ok_0, report), end),
    ensures
        judged->Ok_0.wanted() == b.wanted(),
        same_checksum(actual@, b.wanted()->0@) ==> judged->Ok_0.next() == Stage::CheckExtracted,
        !same_checksum(actual@, b.wanted()->0@) ==> judged->Ok_0.next() == Stage::RemoveArchive(
            actual,
        ),
        !same_checksum(actual@, b.wanted()->0@) ==> (end matches Err(
            RizonetError::Checksum { expected, actual: a },
        ) && expected@ == b.wanted()->0@ && a@ == actual@),
{
    law_expected_up_to_case(actual@, b.wanted()->0@);
}

/// A bootstrap starts with the configured address and checksum, and not without an
/// address.
pub proof fn law_bootstrap_starts_as_configured(
    cfg: &RuntimeConfig,
    r: Result<Bootstrap, RizonetError>,
)
    requires
        call_ensures(Bootstrap::start, (cfg,), r),
    ensures
        r is Ok <==> cfg.bootstrap_url is Some,
        r matches Ok(b) ==> b.next() == Stage::LocateCache && b.source() == cfg.bootstrap_url->0@
            && b.wanted() == cfg.bootstrap_sha256,
{
}

} // verus!
