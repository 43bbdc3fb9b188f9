use vstd::prelude::*;

use crate::archive::{EntryView, FileType};
use crate::digest::{Algorithm, DigestState, digest_of};
use crate::lines::Outcome;
use crate::print::{member_hex, print_lines_of};
use crate::routing::{Destination, primary_of, diagnostic_of};
use crate::source::{lookup_of, resolve_of};
use crate::text::{digit_char, hex_of, lemma_hex_len};
use crate::verify::{append_lines_of, count_of, member_outcome, outcomes_of};

verus! {

/// How many members of `members` are regular files.
pub open spec fn regular_count(members: Seq<EntryView>) -> nat
    decreases members.len(),
{
    if members.len() == 0 {
        0
    } else {
        regular_count(members.drop_last()) + if members.last().file_type == FileType::RegularFile {
            1nat
        } else {
            0nat
        }
    }
}

proof fn lemma_digit_injective(a: u8, b: u8)
    requires
        a < 16,
        b < 16,
        digit_char(a) == digit_char(b),
    ensures
        a == b,
{
}

/// Distinct byte strings have distinct hex encodings.
pub proof fn lemma_hex_injective(a: Seq<u8>, b: Seq<u8>)
    requires
        hex_of(a) == hex_of(b),
    ensures
        a == b,
    decreases a.len(),
{
    lemma_hex_len(a);
    lemma_hex_len(b);
    if a.len() > 0 {
        let (ha, hb) = (hex_of(a.drop_last()), hex_of(b.drop_last()));
        lemma_hex_len(a.drop_last());
        lemma_hex_len(b.drop_last());
        let n = ha.len();
        assert(hex_of(a).subrange(0, n as int) =~= ha);
        assert(hex_of(b).subrange(0, n as int) =~= hb);
        lemma_hex_injective(a.drop_last(), b.drop_last());
        let (x, y) = (a.last(), b.last());
        assert(hex_of(a)[n as int] == digit_char(x / 16));
        assert(hex_of(b)[n as int] == digit_char(y / 16));
        assert(hex_of(a)[n as int + 1] == digit_char(x % 16));
        assert(hex_of(b)[n as int + 1] == digit_char(y % 16));
        lemma_digit_injective(x / 16, y / 16);
        lemma_digit_injective(x % 16, y % 16);
        assert(x == y);
        assert(a =~= a.drop_last().push(x));
        assert(b =~= b.drop_last().push(y));
    }
}

/// Hashing content twice, with a reset in between, gives the same hex
/// digest: a fresh or reset accumulator of one algorithm finalizes the same
/// content to the same value.
pub proof fn lemma_rehash_after_reset(first: DigestState, second: DigestState, data: Seq<u8>)
    requires
        first.alg() == second.alg(),
        first.fed() == Seq::<u8>::empty(),
        second.fed() == Seq::<u8>::empty(),
    ensures
        hex_of(digest_of(first.alg(), first.fed() + data)) == hex_of(digest_of(second.alg(), second.fed() + data)),
{
}

/// Print mode and verify mode emit the same digest-log lines, hence the
/// same archive-side digest, for every member of every archive.
pub proof fn lemma_print_matches_verify(alg: Algorithm, members: Seq<EntryView>)
    ensures
        print_lines_of(alg, members) == append_lines_of(alg, members),
    decreases members.len(),
{
    if members.len() > 0 {
        lemma_print_matches_verify(alg, members.drop_last());
    }
}

/// A member whose on-disk copy holds exactly its bytes verifies.
pub proof fn lemma_identical_copy_passes(
    alg: Algorithm,
    root: Option<Seq<char>>,
    files: Seq<(Seq<char>, Seq<u8>)>,
    e: EntryView,
)
    requires
        lookup_of(files, resolve_of(root, e.path)) == Some(e.data),
    ensures
        member_outcome(alg, root, files, e) == Outcome::Passed,
{
}

/// A member whose on-disk copy differs from it fails, for every copy whose
/// digest differs from the member's (a copy that collides with the member
/// under the algorithm is left out).
pub proof fn lemma_differing_copy_fails(
    alg: Algorithm,
    root: Option<Seq<char>>,
    files: Seq<(Seq<char>, Seq<u8>)>,
    e: EntryView,
    copy: Seq<u8>,
)
    requires
        lookup_of(files, resolve_of(root, e.path)) == Some(copy),
        copy != e.data,
        digest_of(alg, copy) != digest_of(alg, e.data),
    ensures
        member_outcome(alg, root, files, e) == Outcome::Failed,
{
    if hex_of(digest_of(alg, copy)) == member_hex(alg, e) {
        lemma_hex_injective(digest_of(alg, copy), digest_of(alg, e.data));
    }
}

/// A member without an on-disk copy is missing, and counts as missing
/// without touching the count of failures.
pub proof fn lemma_missing_copy(
    alg: Algorithm,
    root: Option<Seq<char>>,
    files: Seq<(Seq<char>, Seq<u8>)>,
    e: EntryView,
    before: Seq<Outcome>,
)
    requires
        lookup_of(files, resolve_of(root, e.path)) is None,
    ensures
        member_outcome(alg, root, files, e) == Outcome::Missing,
        count_of(before.push(member_outcome(alg, root, files, e)), Outcome::Failed) == count_of(before, Outcome::Failed),
        count_of(before.push(member_outcome(alg, root, files, e)), Outcome::Missing) == count_of(before, Outcome::Missing) + 1,
{
    assert(before.push(Outcome::Missing).drop_last() =~= before);
}

/// Every outcome is one of the three, so the three counts add up to the
/// number of outcomes.
pub proof fn lemma_counts_sum(outs: Seq<Outcome>)
    ensures
        count_of(outs, Outcome::Passed) + count_of(outs, Outcome::Failed) + count_of(outs, Outcome::Missing)
            == outs.len(),
    decreases outs.len(),
{
    if outs.len() > 0 {
        lemma_counts_sum(outs.drop_last());
    }
}

/// The scan never stops early: an archive with N regular-file members
/// yields N outcomes, OK, FAILED and MISSING together, whatever came before.
pub proof fn lemma_one_outcome_per_member(
    alg: Algorithm,
    root: Option<Seq<char>>,
    files: Seq<(Seq<char>, Seq<u8>)>,
    members: Seq<EntryView>,
)
    ensures
        outcomes_of(alg, root, files, members).len() == regular_count(members),
        ({
            let outs = outcomes_of(alg, root, files, members);
            count_of(outs, Outcome::Passed) + count_of(outs, Outcome::Failed) + count_of(outs, Outcome::Missing)
                == regular_count(members)
        }),
    decreases members.len(),
{
    if members.len() > 0 {
        lemma_one_outcome_per_member(alg, root, files, members.drop_last());
    }
    lemma_counts_sum(outcomes_of(alg, root, files, members));
}

/// The routing matrix of verify mode, for any argument positions `q` of
/// the last `--quiet` and `s` of the last `--status`.
pub proof fn lemma_routing_matrix(q: usize, s: usize)
    ensures
        primary_of(None, None) == Destination::Stdout,
        diagnostic_of(None, None) == Destination::Stderr,
        primary_of(None, Some(s)) == Destination::Discard,
        diagnostic_of(None, Some(s)) == Destination::Discard,
        primary_of(Some(q), None) == Destination::Discard,
        diagnostic_of(Some(q), None) == Destination::Stderr,
        q > s ==> primary_of(Some(q), Some(s)) == Destination::Discard,
        q > s ==> diagnostic_of(Some(q), Some(s)) == Destination::Stderr,
        s > q ==> primary_of(Some(q), Some(s)) == Destination::Discard,
        s > q ==> diagnostic_of(Some(q), Some(s)) == Destination::Discard,
{
}

} // verus!
