use vstd::prelude::*;

use crate::archive::{Archive, Entry, EntryView, FileType};
use crate::digest::{Algorithm, DigestState, digest_of};
use crate::lines::{digest_line, digest_line_of};
use crate::text::hex_of;

verus! {

/// The text of each string in `s`.
pub open spec fn texts(s: Seq<String>) -> Seq<Seq<char>> {
    s.map_values(|x: String| x@)
}

/// The hex digest of a member's content under `alg`.
pub open spec fn member_hex(alg: Algorithm, e: EntryView) -> Seq<char> {
    hex_of(digest_of(alg, e.data))
}

/// Print mode's output for `members`: one digest-log line per regular-file
/// member, in archive order.
pub open spec fn print_lines_of(alg: Algorithm, members: Seq<EntryView>) -> Seq<Seq<char>>
    decreases members.len(),
{
    if members.len() == 0 {
        Seq::empty()
    } else {
        let prev = print_lines_of(alg, members.drop_last());
        let e = members.last();
        if e.file_type == FileType::RegularFile {
            prev.push(digest_line_of(member_hex(alg, e), e.path))
        } else {
            prev
        }
    }
}

/// Streams a member's content, block by block, through `acc`, then
/// finalizes to hex and resets `acc`.
pub fn hash_member(acc: &mut DigestState, entry: &Entry) -> (r: String)
    ensures
        r@ == hex_of(digest_of(old(acc).alg(), old(acc).fed() + entry@.data)),
        final(acc).alg() == old(acc).alg(),
        final(acc).fed() == Seq::<u8>::empty(),
{
    let ghost fed0 = acc.fed();
    let ghost data = entry@.data;
    let mut blocks = entry.blocks();
    loop
        invariant
            blocks.content() == data,
            blocks.offset() <= data.len(),
            acc.alg() == old(acc).alg(),
            acc.fed() == fed0 + data.subrange(0, blocks.offset() as int),
        ensures
            blocks.offset() == data.len(),
            acc.alg() == old(acc).alg(),
            acc.fed() == fed0 + data.subrange(0, blocks.offset() as int),
        decreases data.len() - blocks.offset(),
    {
        let ghost start = blocks.offset();
        match blocks.next_block() {
            None => break,
            Some(block) => {
                acc.update(block);
                proof {
                    assert(data.subrange(0, start as int) + data.subrange(start as int, blocks.offset() as int)
                        =~= data.subrange(0, blocks.offset() as int));
                    assert(acc.fed() =~= fed0 + data.subrange(0, blocks.offset() as int));
                }
            }
        }
    }
    proof {
        assert(data.subrange(0, data.len() as int) =~= data);
    }
    let hex = acc.finalize_to_hex();
    acc.reset();
    hex
}

/// The digest-log line of `entry` when it is a regular file, `None` for
/// any other member.
pub fn member_line(acc: &mut DigestState, entry: &Entry) -> (r: Option<String>)
    requires
        old(acc).fed() == Seq::<u8>::empty(),
    ensures
        final(acc).alg() == old(acc).alg(),
        final(acc).fed() == Seq::<u8>::empty(),
        r is None <==> entry@.file_type != FileType::RegularFile,
        r matches Some(l) ==> l@ == digest_line_of(member_hex(old(acc).alg(), entry@), entry@.path),
{
    if !entry.is_file() {
        return None;
    }
    let hex = hash_member(acc, entry);
    proof {
        assert(old(acc).fed() + entry@.data =~= entry@.data);
    }
    Some(digest_line(hex.as_str(), entry.path()))
}

/// Print mode: the digest-log line of every regular-file member of
/// `archive`, in archive order. `acc` is reset first and left reset.
pub fn run(archive: Archive, acc: &mut DigestState) -> (r: Vec<String>)
    ensures
        texts(r@) == print_lines_of(old(acc).alg(), archive.members()),
        final(acc).alg() == old(acc).alg(),
        final(acc).fed() == Seq::<u8>::empty(),
{
    let ghost members = archive.members();
    let ghost alg = acc.alg();
    acc.reset();
    let mut entries = archive.entries();
    let mut out: Vec<String> = Vec::new();
    let ghost mut k: int = 0;
    loop
        invariant
            0 <= k <= members.len(),
            entries.remaining() == members.subrange(k, members.len() as int),
            acc.alg() == alg,
            acc.fed() == Seq::<u8>::empty(),
            texts(out@) == print_lines_of(alg, members.subrange(0, k)),
        ensures
            k == members.len(),
            acc.alg() == alg,
            acc.fed() == Seq::<u8>::empty(),
            texts(out@) == print_lines_of(alg, members.subrange(0, k)),
        decreases members.len() - k,
    {
        match entries.next_entry() {
            None => break,
            Some(entry) => {
                let line = member_line(acc, &entry);
                proof {
                    assert(members.subrange(0, k + 1).drop_last() =~= members.subrange(0, k));
                    assert(members.subrange(0, k + 1).last() == entry@);
                }
                match line {
                    Some(l) => {
                        out.push(l);
                        proof {
                            assert(texts(out@) =~= print_lines_of(alg, members.subrange(0, k + 1)));
                        }
                    }
                    None => {}
                }
                proof {
                    k = k + 1;
                    assert(entries.remaining() =~= members.subrange(k, members.len() as int));
                }
            }
        }
    }
    proof {
        assert(members.subrange(0, members.len() as int) =~= members);
    }
    out
}

} // verus!
