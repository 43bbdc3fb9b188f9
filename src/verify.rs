use vstd::prelude::*;

use crate::archive::{Archive, Entry, EntryView, FileType};
use crate::digest::{Algorithm, DigestState, digest_of};
use crate::lines::{
    Outcome, digest_line, digest_line_of, outcome_line, outcome_line_of, missing_summary,
    missing_summary_of, failed_summary, failed_summary_of,
};
use crate::print::{hash_member, member_hex, texts};
use crate::source::{SourceTree, resolve_of, resolve_source, lookup_of};
use crate::text::hex_of;

verus! {

/// The view of an optional byte slice.
pub open spec fn bytes_view(source: Option<&[u8]>) -> Option<Seq<u8>> {
    match source {
        Some(b) => Some(b@),
        None => None,
    }
}

/// The view of an optional string.
pub open spec fn root_view(root: Option<String>) -> Option<Seq<char>> {
    match root {
        Some(r) => Some(r@),
        None => None,
    }
}

/// The outcome for a member whose archive digest is `hash` and whose
/// on-disk copy holds `source` (`None`: there is none).
pub open spec fn check_of(alg: Algorithm, hash: Seq<char>, source: Option<Seq<u8>>) -> Outcome {
    match source {
        None => Outcome::Missing,
        Some(d) => if hex_of(digest_of(alg, d)) == hash { Outcome::Passed } else { Outcome::Failed },
    }
}

/// How many times `o` occurs in `s`.
pub open spec fn count_of(s: Seq<Outcome>, o: Outcome) -> nat
    decreases s.len(),
{
    if s.len() == 0 {
        0
    } else {
        count_of(s.drop_last(), o) + if s.last() == o { 1nat } else { 0nat }
    }
}

/// The summary lines of a run with `missing` missing files and `failed`
/// failed checksums.
pub open spec fn summary_of(missing: nat, failed: nat) -> Seq<Seq<char>> {
    (if missing > 0 { seq![missing_summary_of(missing)] } else { Seq::empty() })
        + (if failed > 0 { seq![failed_summary_of(failed)] } else { Seq::empty() })
}

/// A regular-file member that was hashed and awaits its on-disk copy.
pub struct PendingMember {
    /// The member's digest, as lowercase hex.
    pub hash: String,
    /// Where its on-disk copy is looked for.
    pub source_path: String,
    /// Its digest-log line.
    pub digest_line: String,
}

/// The result of checking one member.
pub struct MemberReport {
    pub outcome: Outcome,
    /// Its report line.
    pub line: String,
}

/// The verification engine, one member at a time: `begin_member` hashes a
/// member and says where its on-disk copy is; the caller reads that copy
/// and hands it to `complete_member`, which classifies the member and
/// keeps the tally.
pub struct Verifier {
    acc: DigestState,
    root: Option<String>,
    passed: u64,
    failed: u64,
    missing: u64,
    outcomes: Ghost<Seq<Outcome>>,
}

impl Verifier {
    pub closed spec fn alg(&self) -> Algorithm {
        self.acc.alg()
    }

    /// The directory on-disk copies are looked for under, if any.
    pub closed spec fn root(&self) -> Option<Seq<char>> {
        root_view(self.root)
    }

    /// The outcomes so far, in archive order.
    pub closed spec fn outcomes(&self) -> Seq<Outcome> {
        self.outcomes@
    }

    pub closed spec fn wf(&self) -> bool {
        &&& self.acc.fed() == Seq::<u8>::empty()
        &&& self.passed as nat == count_of(self.outcomes@, Outcome::Passed)
        &&& self.failed as nat == count_of(self.outcomes@, Outcome::Failed)
        &&& self.missing as nat == count_of(self.outcomes@, Outcome::Missing)
        &&& self.outcomes@.len() == self.passed + self.failed + self.missing
    }

    /// An engine that hashes with `acc`'s algorithm and looks for on-disk
    /// copies under `root` (the working directory when `None`).
    pub fn new(acc: DigestState, root: Option<String>) -> (r: Verifier)
        ensures
            r.wf(),
            r.alg() == acc.alg(),
            r.root() == root_view(root),
            r.outcomes() == Seq::<Outcome>::empty(),
    {
        let mut acc = acc;
        acc.reset();
        Verifier { acc, root, passed: 0, failed: 0, missing: 0, outcomes: Ghost(Seq::empty()) }
    }

    /// Hashes `entry` when it is a regular file; `None` for any other member.
    pub fn begin_member(&mut self, entry: &Entry) -> (r: Option<PendingMember>)
        requires
            old(self).wf(),
        ensures
            final(self).wf(),
            final(self).alg() == old(self).alg(),
            final(self).root() == old(self).root(),
            final(self).outcomes() == old(self).outcomes(),
            r is None <==> entry@.file_type != FileType::RegularFile,
            r matches Some(p) ==> {
                &&& p.hash@ == member_hex(old(self).alg(), entry@)
                &&& p.digest_line@ == digest_line_of(p.hash@, entry@.path)
                &&& p.source_path@ == resolve_of(old(self).root(), entry@.path)
            },
    {
        if !entry.is_file() {
            return None;
        }
        let hash = hash_member(&mut self.acc, entry);
        proof {
            assert(Seq::<u8>::empty() + entry@.data =~= entry@.data);
        }
        let source_path = match &self.root {
            Some(r) => resolve_source(Some(r.as_str()), entry.path()),
            None => resolve_source(None, entry.path()),
        };
        let line = digest_line(hash.as_str(), entry.path());
        Some(PendingMember { hash, source_path, digest_line: line })
    }

    /// Classifies a pending member against `source`, the content of its
    /// on-disk copy (`None` when there is none), and counts the outcome.
    pub fn complete_member(&mut self, pending: &PendingMember, source: Option<&[u8]>) -> (r: MemberReport)
        requires
            old(self).wf(),
            old(self).outcomes().len() < u64::MAX,
        ensures
            final(self).wf(),
            final(self).alg() == old(self).alg(),
            final(self).root() == old(self).root(),
            r.outcome == check_of(old(self).alg(), pending.hash@, bytes_view(source)),
            final(self).outcomes() == old(self).outcomes().push(r.outcome),
            r.line@ == outcome_line_of(pending.source_path@, r.outcome),
    {
        let outcome = match source {
            None => Outcome::Missing,
            Some(bytes) => {
                self.acc.update(bytes);
                let hash_source = self.acc.finalize_to_hex();
                self.acc.reset();
                proof {
                    assert(Seq::<u8>::empty() + bytes@ =~= bytes@);
                }
                if hash_source == pending.hash {
                    Outcome::Passed
                } else {
                    Outcome::Failed
                }
            },
        };
        proof {
            let s = self.outcomes@.push(outcome);
            assert(s.drop_last() =~= self.outcomes@);
        }
        match outcome {
            Outcome::Passed => self.passed = self.passed + 1,
            Outcome::Failed => self.failed = self.failed + 1,
            Outcome::Missing => self.missing = self.missing + 1,
        }
        self.outcomes = Ghost(self.outcomes@.push(outcome));
        let line = outcome_line(pending.source_path.as_str(), outcome);
        MemberReport { outcome, line }
    }

    /// How many members verified so far.
    pub fn passed(&self) -> (r: u64)
        requires
            self.wf(),
        ensures
            r == count_of(self.outcomes(), Outcome::Passed),
    {
        self.passed
    }

    /// How many members failed so far.
    pub fn failed(&self) -> (r: u64)
        requires
            self.wf(),
        ensures
            r == count_of(self.outcomes(), Outcome::Failed),
    {
        self.failed
    }

    /// How many members were missing so far.
    pub fn missing(&self) -> (r: u64)
        requires
            self.wf(),
        ensures
            r == count_of(self.outcomes(), Outcome::Missing),
    {
        self.missing
    }

    /// The summary lines: one for missing files and one for failed
    /// checksums, each only when its count is not zero.
    pub fn summary(&self) -> (r: Vec<String>)
        requires
            self.wf(),
        ensures
            texts(r@) == summary_of(
                count_of(self.outcomes(), Outcome::Missing),
                count_of(self.outcomes(), Outcome::Failed),
            ),
    {
        let mut r: Vec<String> = Vec::new();
        if self.missing > 0 {
            r.push(missing_summary(self.missing));
        }
        if self.failed > 0 {
            r.push(failed_summary(self.failed));
        }
        proof {
            assert(texts(r@) =~= summary_of(
                count_of(self.outcomes(), Outcome::Missing),
                count_of(self.outcomes(), Outcome::Failed),
            ));
        }
        r
    }

    /// Whether every member so far verified.
    pub fn success(&self) -> (r: bool)
        requires
            self.wf(),
        ensures
            r == (count_of(self.outcomes(), Outcome::Missing) == 0 && count_of(self.outcomes(), Outcome::Failed) == 0),
    {
        self.missing == 0 && self.failed == 0
    }
}

/// The outcome of a regular-file member `e` checked against `files`.
pub open spec fn member_outcome(
    alg: Algorithm,
    root: Option<Seq<char>>,
    files: Seq<(Seq<char>, Seq<u8>)>,
    e: EntryView,
) -> Outcome {
    check_of(alg, member_hex(alg, e), lookup_of(files, resolve_of(root, e.path)))
}

/// The outcomes of the regular-file members of `members`, in order.
pub open spec fn outcomes_of(
    alg: Algorithm,
    root: Option<Seq<char>>,
    files: Seq<(Seq<char>, Seq<u8>)>,
    members: Seq<EntryView>,
) -> Seq<Outcome>
    decreases members.len(),
{
    if members.len() == 0 {
        Seq::empty()
    } else {
        let prev = outcomes_of(alg, root, files, members.drop_last());
        let e = members.last();
        if e.file_type == FileType::RegularFile {
            prev.push(member_outcome(alg, root, files, e))
        } else {
            prev
        }
    }
}

/// The digest-log lines of a verify run: one per regular-file member,
/// whatever its outcome.
pub open spec fn append_lines_of(alg: Algorithm, members: Seq<EntryView>) -> Seq<Seq<char>>
    decreases members.len(),
{
    if members.len() == 0 {
        Seq::empty()
    } else {
        let prev = append_lines_of(alg, members.drop_last());
        let e = members.last();
        if e.file_type == FileType::RegularFile {
            prev.push(digest_line_of(member_hex(alg, e), e.path))
        } else {
            prev
        }
    }
}

/// The report lines of the members whose outcome is `Passed` (when
/// `passed`) or is not (when `!passed`), in order.
pub open spec fn report_lines_of(
    alg: Algorithm,
    root: Option<Seq<char>>,
    files: Seq<(Seq<char>, Seq<u8>)>,
    members: Seq<EntryView>,
    passed: bool,
) -> Seq<Seq<char>>
    decreases members.len(),
{
    if members.len() == 0 {
        Seq::empty()
    } else {
        let prev = report_lines_of(alg, root, files, members.drop_last(), passed);
        let e = members.last();
        let o = member_outcome(alg, root, files, e);
        if e.file_type == FileType::RegularFile && (o == Outcome::Passed) == passed {
            prev.push(outcome_line_of(resolve_of(root, e.path), o))
        } else {
            prev
        }
    }
}

/// Everything a verify run writes, channel by channel, and its result.
pub struct VerifyReport {
    /// Digest-log lines, for the append channel.
    pub append: Vec<String>,
    /// `OK` lines, for the primary channel.
    pub primary: Vec<String>,
    /// `FAILED` and `MISSING` lines and then the summary lines, for the
    /// diagnostic channel.
    pub diagnostic: Vec<String>,
    /// The outcome of each regular-file member, in order.
    pub outcomes: Vec<Outcome>,
    /// Whether no member failed or was missing.
    pub success: bool,
}

/// Verify mode over an archive held in memory: every regular-file member
/// is hashed and checked against its copy in `tree`, looked up under
/// `root` (as is, when `root` is `None`). The scan never stops early.
pub fn run(archive: Archive, root: Option<String>, tree: &SourceTree, acc: DigestState) -> (r: VerifyReport)
    requires
        archive.members().len() < u64::MAX,
    ensures
        ({
            let alg = acc.alg();
            let rt = root_view(root);
            let files = tree.files();
            let members = archive.members();
            let outs = outcomes_of(alg, rt, files, members);
            &&& r.outcomes@ == outs
            &&& texts(r.append@) == append_lines_of(alg, members)
            &&& texts(r.primary@) == report_lines_of(alg, rt, files, members, true)
            &&& texts(r.diagnostic@) == report_lines_of(alg, rt, files, members, false)
                + summary_of(count_of(outs, Outcome::Missing), count_of(outs, Outcome::Failed))
            &&& r.success == (count_of(outs, Outcome::Missing) == 0 && count_of(outs, Outcome::Failed) == 0)
        }),
{
    let ghost alg = acc.alg();
    let ghost rt = root_view(root);
    let ghost files = tree.files();
    let ghost members = archive.members();
    let mut engine = Verifier::new(acc, root);
    let mut entries = archive.entries();
    let mut append: Vec<String> = Vec::new();
    let mut primary: Vec<String> = Vec::new();
    let mut diagnostic: Vec<String> = Vec::new();
    let mut outcomes: Vec<Outcome> = Vec::new();
    let ghost mut k: int = 0;
    loop
        invariant
            0 <= k <= members.len(),
            members.len() < u64::MAX,
            files == tree.files(),
            entries.remaining() == members.subrange(k, members.len() as int),
            engine.wf(),
            engine.alg() == alg,
            engine.root() == rt,
            engine.outcomes() == outcomes@,
            outcomes@.len() <= k,
            outcomes@ == outcomes_of(alg, rt, files, members.subrange(0, k)),
            texts(append@) == append_lines_of(alg, members.subrange(0, k)),
            texts(primary@) == report_lines_of(alg, rt, files, members.subrange(0, k), true),
            texts(diagnostic@) == report_lines_of(alg, rt, files, members.subrange(0, k), false),
        ensures
            k == members.len(),
            engine.wf(),
            engine.outcomes() == outcomes@,
            outcomes@ == outcomes_of(alg, rt, files, members.subrange(0, k)),
            texts(append@) == append_lines_of(alg, members.subrange(0, k)),
            texts(primary@) == report_lines_of(alg, rt, files, members.subrange(0, k), true),
            texts(diagnostic@) == report_lines_of(alg, rt, files, members.subrange(0, k), false),
        decreases members.len() - k,
    {
        match entries.next_entry() {
            None => break,
            Some(entry) => {
                let ghost prefix = members.subrange(0, k + 1);
                proof {
                    assert(prefix.drop_last() =~= members.subrange(0, k));
                    assert(prefix.last() == entry@);
                }
                match engine.begin_member(&entry) {
                    None => {}
                    Some(pending) => {
                        let found = tree.lookup(&pending.source_path);
                        let report = engine.complete_member(&pending, found);
                        append.push(pending.digest_line);
                        proof {
                            assert(report.outcome == member_outcome(alg, rt, files, entry@));
                        }
                        match report.outcome {
                            Outcome::Passed => primary.push(report.line),
                            _ => diagnostic.push(report.line),
                        }
                        outcomes.push(report.outcome);
                    }
                }
                proof {
                    assert(texts(append@) =~= append_lines_of(alg, prefix));
                    assert(texts(primary@) =~= report_lines_of(alg, rt, files, prefix, true));
                    assert(texts(diagnostic@) =~= report_lines_of(alg, rt, files, prefix, false));
                    assert(outcomes@ =~= outcomes_of(alg, rt, files, prefix));
                    k = k + 1;
                    assert(entries.remaining() =~= members.subrange(k, members.len() as int));
                }
            }
        }
    }
    proof {
        assert(members.subrange(0, members.len() as int) =~= members);
    }
    let mut summary = engine.summary();
    let success = engine.success();
    proof {
        assert(texts(diagnostic@ + summary@) =~= texts(diagnostic@) + texts(summary@));
    }
    diagnostic.append(&mut summary);
    VerifyReport { append, primary, diagnostic, outcomes, success }
}

} // verus!
