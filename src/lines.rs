use vstd::prelude::*;
use vstd::string::*;

use crate::text::{decimal_of, to_decimal};

verus! {

/// The outcome of checking one regular-file member against its on-disk copy.
#[derive(Clone, Copy, Debug, PartialEq, Eq, Structural)]
pub enum Outcome {
    Passed,
    Failed,
    Missing,
}

/// `"<hex>  <path>\n"`, the digest-log line of a member.
pub open spec fn digest_line_of(hex: Seq<char>, path: Seq<char>) -> Seq<char> {
    hex + seq![' ', ' '] + path + seq!['\n']
}

/// The word that names an outcome in a report line.
pub open spec fn outcome_word(o: Outcome) -> Seq<char> {
    match o {
        Outcome::Passed => seq!['O', 'K'],
        Outcome::Failed => seq!['F', 'A', 'I', 'L', 'E', 'D'],
        Outcome::Missing => seq!['M', 'I', 'S', 'S', 'I', 'N', 'G'],
    }
}

/// `"<path>: <OUTCOME>\n"`, the report line of a checked member.
pub open spec fn outcome_line_of(path: Seq<char>, o: Outcome) -> Seq<char> {
    path + seq![':', ' '] + outcome_word(o) + seq!['\n']
}

/// The program's prefix of summary and error lines.
pub open spec fn prefix() -> Seq<char> {
    seq!['a', 'r', 'c', 'h', 'i', 'v', 'e', '-', 's', 'u', 'm', ':', ' ']
}

/// `"archive-sum: WARNING: <n> MISSING file(s)\n"`.
pub open spec fn missing_summary_of(n: nat) -> Seq<char> {
    prefix() + seq!['W', 'A', 'R', 'N', 'I', 'N', 'G', ':', ' '] + decimal_of(n)
        + seq![' ', 'M', 'I', 'S', 'S', 'I', 'N', 'G', ' ', 'f', 'i', 'l', 'e', '(', 's', ')', '\n']
}

/// `"archive-sum: FATAL: <n> FAILED checksum(s)\n"`.
pub open spec fn failed_summary_of(n: nat) -> Seq<char> {
    prefix() + seq!['F', 'A', 'T', 'A', 'L', ':', ' '] + decimal_of(n) + seq![
        ' ', 'F', 'A', 'I', 'L', 'E', 'D', ' ', 'c', 'h', 'e', 'c', 'k', 's', 'u', 'm', '(', 's', ')', '\n',
    ]
}

/// `"archive-sum: error: <message>\n"`.
pub open spec fn error_line_of(message: Seq<char>) -> Seq<char> {
    prefix() + seq!['e', 'r', 'r', 'o', 'r', ':', ' '] + message + seq!['\n']
}

/// Builds the digest-log line of a member.
pub fn digest_line(hex: &str, path: &str) -> (r: String)
    ensures
        r@ == digest_line_of(hex@, path@),
{
    let mut s = String::from_str(hex);
    s.append("  ");
    s.append(path);
    s.append("\n");
    proof {
        reveal_strlit("  ");
        reveal_strlit("\n");
        assert(s@ =~= digest_line_of(hex@, path@));
    }
    s
}

fn outcome_str(o: Outcome) -> (r: &'static str)
    ensures
        r@ == outcome_word(o),
{
    match o {
        Outcome::Passed => {
            proof { reveal_strlit("OK"); }
            "OK"
        }
        Outcome::Failed => {
            proof { reveal_strlit("FAILED"); }
            "FAILED"
        }
        Outcome::Missing => {
            proof { reveal_strlit("MISSING"); }
            "MISSING"
        }
    }
}

/// Builds the report line of a checked member.
pub fn outcome_line(path: &str, o: Outcome) -> (r: String)
    ensures
        r@ == outcome_line_of(path@, o),
{
    let mut s = String::from_str(path);
    s.append(": ");
    s.append(outcome_str(o));
    s.append("\n");
    proof {
        reveal_strlit(": ");
        reveal_strlit("\n");
        assert(s@ =~= outcome_line_of(path@, o));
    }
    s
}

/// Builds the summary line for `n` missing files.
pub fn missing_summary(n: u64) -> (r: String)
    ensures
        r@ == missing_summary_of(n as nat),
{
    let mut s = String::from_str("archive-sum: WARNING: ");
    let d = to_decimal(n);
    s.append(d.as_str());
    s.append(" MISSING file(s)\n");
    proof {
        reveal_strlit("archive-sum: WARNING: ");
        reveal_strlit(" MISSING file(s)\n");
        assert(s@ =~= missing_summary_of(n as nat));
    }
    s
}

/// Builds the summary line for `n` failed checksums.
pub fn failed_summary(n: u64) -> (r: String)
    ensures
        r@ == failed_summary_of(n as nat),
{
    let mut s = String::from_str("archive-sum: FATAL: ");
    let d = to_decimal(n);
    s.append(d.as_str());
    s.append(" FAILED checksum(s)\n");
    proof {
        reveal_strlit("archive-sum: FATAL: ");
        reveal_strlit(" FAILED checksum(s)\n");
        assert(s@ =~= failed_summary_of(n as nat));
    }
    s
}

/// Builds the line that reports an aborted run.
pub fn error_line(message: &str) -> (r: String)
    ensures
        r@ == error_line_of(message@),
{
    let mut s = String::from_str("archive-sum: error: ");
    s.append(message);
    s.append("\n");
    proof {
        reveal_strlit("archive-sum: error: ");
        reveal_strlit("\n");
        assert(s@ =~= error_line_of(message@));
    }
    s
}

} // verus!
