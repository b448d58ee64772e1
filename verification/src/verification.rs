//! The manifest verifier: what becomes of each line of a manifest, and the
//! report of a whole run over files held in memory.

use vstd::prelude::*;
use crate::digest::{checksum_line, compute_md5, digest_text};
use crate::files::{content_of, open_target, TargetFile};
use crate::manifest::{
    entry_of, is_token, lemma_text_line_reads_back, parse_manifest_line, tokens, EntryText,
    ManifestEntry,
};

verus! {

/// What verification found for one line of a manifest.
#[derive(Clone, Copy, Debug, PartialEq, Eq, Structural)]
pub enum VerificationOutcome {
    /// The target's digest is the expected one.
    Match,
    /// The target's digest differs from the expected one.
    Mismatch,
    /// The target could not be opened or read.
    TargetUnreadable,
    /// The line is not an entry.
    MalformedEntry,
}

/// Where a line of the report is written.
#[derive(Clone, Copy, Debug, PartialEq, Eq, Structural)]
pub enum Channel {
    /// The primary output, for results.
    Output,
    /// The error channel, for diagnostics.
    Diagnostic,
}

/// One line of a report.
#[derive(Debug)]
pub struct ReportLine {
    pub channel: Channel,
    pub text: String,
}

/// One line of a report, as plain text.
pub struct ReportText {
    pub channel: Channel,
    pub text: Seq<char>,
}

impl View for ReportLine {
    type V = ReportText;

    open spec fn view(&self) -> ReportText {
        ReportText { channel: self.channel, text: self.text@ }
    }
}

/// A line of the report that holds a result: it goes to the primary output.
pub open spec fn result_line(text: Seq<char>) -> ReportText {
    ReportText { channel: Channel::Output, text }
}

/// A line of the report that holds a diagnostic: it goes to the error channel.
pub open spec fn diagnostic_line(text: Seq<char>) -> ReportText {
    ReportText { channel: Channel::Diagnostic, text }
}

/// The outcome for an entry, given the digest computed for its target, or
/// `None` where the target could not be read. Digests are compared as they
/// are written, character by character.
pub open spec fn outcome_of(entry: EntryText, computed: Option<Seq<char>>) -> VerificationOutcome {
    match computed {
        None => VerificationOutcome::TargetUnreadable,
        Some(digest) => if digest == entry.expected_digest {
            VerificationOutcome::Match
        } else {
            VerificationOutcome::Mismatch
        },
    }
}

/// The text of an optional digest.
pub open spec fn digest_view(computed: Option<String>) -> Option<Seq<char>> {
    match computed {
        Some(digest) => Some(digest@),
        None => None,
    }
}

/// Judges one entry against the digest computed for its target; `None` says
/// that the target could not be read.
pub fn check_entry(
    entry: &ManifestEntry,
    computed: &Option<String>,
) -> (outcome: VerificationOutcome)
    ensures
        outcome == outcome_of(entry@, digest_view(*computed)),
{
    match computed {
        None => VerificationOutcome::TargetUnreadable,
        Some(digest) => {
            if *digest == entry.expected_digest {
                VerificationOutcome::Match
            } else {
                VerificationOutcome::Mismatch
            }
        },
    }
}

/// The report line for an outcome. Results name the target and go to the
/// primary output; diagnostics go to the error channel, and the one for a
/// malformed line names the manifest.
pub open spec fn report_text(
    outcome: VerificationOutcome,
    manifest_path: Seq<char>,
    target_path: Seq<char>,
) -> ReportText {
    match outcome {
        VerificationOutcome::Match => result_line(target_path + ": OK"@),
        VerificationOutcome::Mismatch => result_line(target_path + ": FAILED"@),
        VerificationOutcome::TargetUnreadable => diagnostic_line(
            target_path + ": No such file or directory"@,
        ),
        VerificationOutcome::MalformedEntry => diagnostic_line(
            manifest_path + ": improperly formatted checksum line"@,
        ),
    }
}

/// Renders the report line for an outcome. `target_path` is not read where
/// the outcome is `MalformedEntry`.
pub fn report_line(
    outcome: VerificationOutcome,
    manifest_path: &str,
    target_path: &str,
) -> (line: ReportLine)
    ensures
        line@ == report_text(outcome, manifest_path@, target_path@),
{
    match outcome {
        VerificationOutcome::Match => {
            let mut text: String = String::from_str(target_path);
            text.append(": OK");
            ReportLine { channel: Channel::Output, text }
        },
        VerificationOutcome::Mismatch => {
            let mut text: String = String::from_str(target_path);
            text.append(": FAILED");
            ReportLine { channel: Channel::Output, text }
        },
        VerificationOutcome::TargetUnreadable => {
            let mut text: String = String::from_str(target_path);
            text.append(": No such file or directory");
            ReportLine { channel: Channel::Diagnostic, text }
        },
        VerificationOutcome::MalformedEntry => {
            let mut text: String = String::from_str(manifest_path);
            text.append(": improperly formatted checksum line");
            ReportLine { channel: Channel::Diagnostic, text }
        },
    }
}

/// What a line was read as, as plain text.
pub open spec fn entry_view(entry: Option<ManifestEntry>) -> Option<EntryText> {
    match entry {
        Some(e) => Some(e@),
        None => None,
    }
}

/// The outcome for a line that was read as `entry`, given the digest computed
/// for its target. A line that is no entry is malformed, whatever was
/// computed.
pub open spec fn line_outcome(entry: Option<EntryText>, computed: Option<Seq<char>>)
    -> VerificationOutcome {
    match entry {
        None => VerificationOutcome::MalformedEntry,
        Some(e) => outcome_of(e, computed),
    }
}

/// The path that the report line for a line read as `entry` names.
pub open spec fn reported_path(entry: Option<EntryText>) -> Seq<char> {
    match entry {
        Some(e) => e.target_path,
        None => Seq::empty(),
    }
}

/// The report line for a line of the manifest at `manifest_path` that was read
/// as `entry`, given the digest computed for its target.
pub open spec fn conclusion(
    manifest_path: Seq<char>,
    entry: Option<EntryText>,
    computed: Option<Seq<char>>,
) -> ReportText {
    report_text(line_outcome(entry, computed), manifest_path, reported_path(entry))
}

/// Concludes one line of the manifest at `manifest_path`: `entry` is what the
/// line was read as, and `computed` the digest computed for its target, `None`
/// where the target could not be read or the line names none.
pub fn conclude_line(
    manifest_path: &str,
    entry: &Option<ManifestEntry>,
    computed: &Option<String>,
) -> (line: ReportLine)
    ensures
        line@ == conclusion(manifest_path@, entry_view(*entry), digest_view(*computed)),
{
    match entry {
        None => report_line(VerificationOutcome::MalformedEntry, manifest_path, ""),
        Some(e) => report_line(check_entry(e, computed), manifest_path, e.target_path.as_str()),
    }
}

/// The digest computed for `path` among `files`, or `None` where it cannot be
/// opened.
pub open spec fn computed_digest(files: Seq<TargetFile>, path: Seq<char>) -> Option<Seq<char>> {
    match content_of(files, path) {
        Some(bytes) => Some(digest_text(bytes)),
        None => None,
    }
}

/// The digest computed for the target of a line read as `entry`, among
/// `files`.
pub open spec fn target_digest(files: Seq<TargetFile>, entry: Option<EntryText>) -> Option<
    Seq<char>,
> {
    match entry {
        Some(e) => computed_digest(files, e.target_path),
        None => None,
    }
}

/// The report line for one line of the manifest at `manifest_path`, verified
/// against `files`.
pub open spec fn line_report(manifest_path: Seq<char>, line: Seq<char>, files: Seq<TargetFile>)
    -> ReportText {
    conclusion(manifest_path, entry_of(line), target_digest(files, entry_of(line)))
}

/// The report of a run: one line for each line of the manifest, in the
/// manifest's order, each decided by its own line alone.
pub open spec fn manifest_report(
    manifest_path: Seq<char>,
    lines: Seq<Seq<char>>,
    files: Seq<TargetFile>,
) -> Seq<ReportText> {
    Seq::new(lines.len(), |i: int| line_report(manifest_path, lines[i], files))
}

/// The texts of the lines of a manifest.
pub open spec fn line_texts(lines: Seq<String>) -> Seq<Seq<char>> {
    Seq::new(lines.len(), |i: int| lines[i]@)
}

/// The texts of the lines of a report.
pub open spec fn report_texts(report: Seq<ReportLine>) -> Seq<ReportText> {
    Seq::new(report.len(), |i: int| report[i]@)
}

/// The report of a manifest is made line by line: that of two manifests
/// written one after the other is the report of the first, then the report of
/// the second.
pub proof fn lemma_report_is_per_line(
    manifest_path: Seq<char>,
    first: Seq<Seq<char>>,
    second: Seq<Seq<char>>,
    files: Seq<TargetFile>,
)
    ensures
        manifest_report(manifest_path, first + second, files) == manifest_report(
            manifest_path,
            first,
            files,
        ) + manifest_report(manifest_path, second, files),
{
}

/// Round trip. Take the checksum line that text mode writes for a file, and
/// verify it as a manifest line. Where the file now has the digest it had
/// then, the report says `OK`; where it has another, `FAILED`.
pub proof fn lemma_round_trip(
    manifest_path: Seq<char>,
    path: Seq<char>,
    recorded: Seq<u8>,
    files: Seq<TargetFile>,
)
    requires
        is_token(path),
        content_of(files, path) is Some,
    ensures
        ({
            let line = checksum_line(digest_text(recorded), path, false);
            let current = content_of(files, path)->0;
            line_report(manifest_path, line, files) == if digest_text(current) == digest_text(
                recorded,
            ) {
                result_line(path + ": OK"@)
            } else {
                result_line(path + ": FAILED"@)
            }
        }),
{
    lemma_text_line_reads_back(recorded, path);
}

/// A malformed line is isolated. Wherever a line without exactly two tokens
/// stands in a manifest, the report holds the diagnostic for it at that place,
/// and the lines before and after it are reported as they are without it.
pub proof fn lemma_malformed_line_is_isolated(
    manifest_path: Seq<char>,
    before: Seq<Seq<char>>,
    line: Seq<char>,
    after: Seq<Seq<char>>,
    files: Seq<TargetFile>,
)
    requires
        tokens(line).len() != 2,
    ensures
        manifest_report(manifest_path, before + seq![line] + after, files) == manifest_report(
            manifest_path,
            before,
            files,
        ) + seq![diagnostic_line(manifest_path + ": improperly formatted checksum line"@)]
            + manifest_report(manifest_path, after, files),
{
    lemma_report_is_per_line(manifest_path, before + seq![line], after, files);
    lemma_report_is_per_line(manifest_path, before, seq![line], files);
}

/// A manifest of an entry whose target can be opened, then a line of three
/// tokens, has a report of two lines in that order: the result for the entry,
/// `OK` or `FAILED`, on the primary output, and the diagnostic for the
/// malformed line on the error channel.
pub proof fn lemma_entry_then_malformed_line(
    manifest_path: Seq<char>,
    entry_line: Seq<char>,
    malformed_line: Seq<char>,
    files: Seq<TargetFile>,
)
    requires
        entry_of(entry_line) is Some,
        content_of(files, entry_of(entry_line)->0.target_path) is Some,
        tokens(malformed_line).len() == 3,
    ensures
        ({
            let entry = entry_of(entry_line)->0;
            let current = content_of(files, entry.target_path)->0;
            manifest_report(manifest_path, seq![entry_line, malformed_line], files) == seq![
                if digest_text(current) == entry.expected_digest {
                    result_line(entry.target_path + ": OK"@)
                } else {
                    result_line(entry.target_path + ": FAILED"@)
                },
                diagnostic_line(manifest_path + ": improperly formatted checksum line"@),
            ]
        }),
{
    let none = Seq::<Seq<char>>::empty();
    lemma_malformed_line_is_isolated(manifest_path, seq![entry_line], malformed_line, none, files);
}

/// A missing target is isolated. Wherever an entry whose target cannot be
/// opened stands in a manifest, the report holds the diagnostic for it at that
/// place, and the lines before and after it are reported as they are without
/// it.
pub proof fn lemma_missing_target_is_isolated(
    manifest_path: Seq<char>,
    before: Seq<Seq<char>>,
    line: Seq<char>,
    after: Seq<Seq<char>>,
    files: Seq<TargetFile>,
)
    requires
        entry_of(line) is Some,
        content_of(files, entry_of(line)->0.target_path) is None,
    ensures
        manifest_report(manifest_path, before + seq![line] + after, files) == manifest_report(
            manifest_path,
            before,
            files,
        ) + seq![
            diagnostic_line(entry_of(line)->0.target_path + ": No such file or directory"@),
        ] + manifest_report(manifest_path, after, files),
{
    lemma_report_is_per_line(manifest_path, before + seq![line], after, files);
    lemma_report_is_per_line(manifest_path, before, seq![line], files);
}

/// Verifies one line of the manifest at `manifest_path` against `files`.
pub fn verify_line(manifest_path: &str, line: &str, files: &Vec<TargetFile>) -> (report: ReportLine)
    ensures
        report@ == line_report(manifest_path@, line@, files@),
{
    let entry: Option<ManifestEntry> = parse_manifest_line(line);
    let computed: Option<String> = match &entry {
        Some(e) => match open_target(files, e.target_path.as_str()) {
            Some(content) => Some(compute_md5(content.as_slice())),
            None => None,
        },
        None => None,
    };
    conclude_line(manifest_path, &entry, &computed)
}

/// Verifies the manifest at `manifest_path`, whose lines are `lines`, against
/// `files`. No line ends the run: a malformed line and an unreadable target
/// each give a diagnostic, and the next line is taken up.
pub fn verify_checksums(
    manifest_path: &str,
    lines: &Vec<String>,
    files: &Vec<TargetFile>,
) -> (report: Vec<ReportLine>)
    ensures
        report_texts(report@) == manifest_report(manifest_path@, line_texts(lines@), files@),
{
    let mut report: Vec<ReportLine> = Vec::new();
    let mut i: usize = 0;
    while i < lines.len()
        invariant
            i <= lines@.len(),
            report@.len() == i,
            forall|k: int|
                0 <= k < i ==> (#[trigger] report@[k])@ == line_report(
                    manifest_path@,
                    lines@[k]@,
                    files@,
                ),
        decreases lines@.len() - i,
    {
        let next: ReportLine = verify_line(manifest_path, lines[i].as_str(), files);
        report.push(next);
        i = i + 1;
    }
    report
}

} // verus!
