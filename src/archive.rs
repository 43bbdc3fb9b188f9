use vstd::prelude::*;

verus! {

/// The size of the blocks in which member content is handed out, and the
/// I/O block size used where the platform reports none.
pub const DEFAULT_BLOCK_SIZE: usize = 65536;

/// The I/O block size to read a file with, from the one the platform
/// reports for it: that one where it is known, not zero and fits in
/// `usize`, else `DEFAULT_BLOCK_SIZE`.
pub fn io_block_size(reported: Option<u64>) -> (r: usize)
    ensures
        r > 0,
        r == (match reported {
            Some(n) => if 0 < n <= usize::MAX { n as usize } else { DEFAULT_BLOCK_SIZE },
            None => DEFAULT_BLOCK_SIZE,
        }),
{
    match reported {
        Some(n) => if 0 < n && n <= usize::MAX as u64 { n as usize } else { DEFAULT_BLOCK_SIZE },
        None => DEFAULT_BLOCK_SIZE,
    }
}

/// The type of an archive member.
#[derive(Clone, Copy, Debug, PartialEq, Eq, Structural)]
pub enum FileType {
    BlockDevice,
    CharacterDevice,
    Directory,
    Mount,
    NamedPipe,
    RegularFile,
    Socket,
    SymbolicLink,
}

/// The mathematical value of a member: its path, its type and its content.
pub struct EntryView {
    pub path: Seq<char>,
    pub file_type: FileType,
    pub data: Seq<u8>,
}

/// One member of an archive.
pub struct Entry {
    path: String,
    file_type: FileType,
    data: Vec<u8>,
}

impl View for Entry {
    type V = EntryView;

    closed spec fn view(&self) -> EntryView {
        EntryView { path: self.path@, file_type: self.file_type, data: self.data@ }
    }
}

impl Entry {
    /// A member with archive-internal `path`, of type `file_type`, holding `data`.
    pub fn new(path: String, file_type: FileType, data: Vec<u8>) -> (r: Entry)
        ensures
            r@.path == path@,
            r@.file_type == file_type,
            r@.data == data@,
    {
        Entry { path, file_type, data }
    }

    /// The member's archive-internal path.
    pub fn path(&self) -> (r: &str)
        ensures
            r@ == self@.path,
    {
        self.path.as_str()
    }

    pub fn file_type(&self) -> (r: FileType)
        ensures
            r == self@.file_type,
    {
        self.file_type
    }

    /// Whether the member is a regular file, the only kind that is hashed.
    pub fn is_file(&self) -> (r: bool)
        ensures
            r == (self@.file_type == FileType::RegularFile),
    {
        self.file_type == FileType::RegularFile
    }

    /// The member's content.
    pub fn data(&self) -> (r: &[u8])
        ensures
            r@ == self@.data,
    {
        self.data.as_slice()
    }

    /// The member's content in order, in blocks of at most `DEFAULT_BLOCK_SIZE` bytes.
    pub fn blocks(&self) -> (r: Blocks<'_>)
        ensures
            r.content() == self@.data,
            r.offset() == 0,
    {
        Blocks { data: self.data.as_slice(), pos: 0 }
    }
}

/// A cursor over a member's content that hands it out block by block,
/// each byte once and in order.
pub struct Blocks<'a> {
    data: &'a [u8],
    pos: usize,
}

impl<'a> Blocks<'a> {
    /// The whole content the cursor walks.
    pub closed spec fn content(&self) -> Seq<u8> {
        self.data@
    }

    /// How much of the content was handed out.
    pub closed spec fn offset(&self) -> nat {
        self.pos as nat
    }

    pub closed spec fn wf(&self) -> bool {
        self.pos <= self.data@.len()
    }

    /// The next block: the next `DEFAULT_BLOCK_SIZE` bytes of the content,
    /// or all that is left when that is less; `None` at the end.
    pub fn next_block(&mut self) -> (r: Option<&'a [u8]>)
        requires
            old(self).offset() <= old(self).content().len(),
        ensures
            final(self).content() == old(self).content(),
            final(self).offset() <= final(self).content().len(),
            old(self).offset() == old(self).content().len() ==> r is None && final(self).offset() == old(self).offset(),
            old(self).offset() < old(self).content().len() ==> {
                &&& r is Some
                &&& final(self).offset() == if old(self).content().len() - old(self).offset() > DEFAULT_BLOCK_SIZE {
                    (old(self).offset() + DEFAULT_BLOCK_SIZE) as nat
                } else {
                    old(self).content().len()
                }
                &&& r->Some_0@ == old(self).content().subrange(old(self).offset() as int, final(self).offset() as int)
            },
    {
        let len = self.data.len();
        if self.pos >= len {
            return None;
        }
        let end = if len - self.pos > DEFAULT_BLOCK_SIZE { self.pos + DEFAULT_BLOCK_SIZE } else { len };
        let block = vstd::slice::slice_subrange(self.data, self.pos, end);
        self.pos = end;
        Some(block)
    }
}

/// An archive: its members in container order, and the I/O block size its
/// container was read with.
pub struct Archive {
    members: Vec<Entry>,
    block_size: usize,
}

/// The views of a sequence of members.
pub open spec fn views(s: Seq<Entry>) -> Seq<EntryView> {
    s.map_values(|e: Entry| e@)
}

impl Archive {
    /// The members, in container order.
    pub closed spec fn members(&self) -> Seq<EntryView> {
        views(self.members@)
    }

    pub closed spec fn spec_block_size(&self) -> usize {
        self.block_size
    }

    /// An archive of `members`, read with I/O blocks of `block_size` bytes.
    pub fn new(members: Vec<Entry>, block_size: usize) -> (r: Archive)
        ensures
            r.members() == views(members@),
            r.spec_block_size() == block_size,
    {
        Archive { members, block_size }
    }

    /// An archive of `members`, read with the default I/O block size.
    pub fn from_entries(members: Vec<Entry>) -> (r: Archive)
        ensures
            r.members() == views(members@),
            r.spec_block_size() == DEFAULT_BLOCK_SIZE,
    {
        Archive { members, block_size: DEFAULT_BLOCK_SIZE }
    }

    pub fn block_size(&self) -> (r: usize)
        ensures
            r == self.spec_block_size(),
    {
        self.block_size
    }

    /// Consumes the archive into a cursor over its members, in order.
    pub fn entries(self) -> (r: Entries)
        ensures
            r.remaining() == self.members(),
    {
        let mut members = self.members;
        let ghost all = members@;
        let mut rest: Vec<Entry> = Vec::new();
        while members.len() > 0
            invariant
                members@ == all.subrange(0, members@.len() as int),
                members@.len() <= all.len(),
                rest@ =~= all.subrange(members@.len() as int, all.len() as int).reverse(),
            decreases members@.len(),
        {
            let e = members.pop().unwrap();
            rest.push(e);
            proof {
                let n = members@.len() as int;
                assert(rest@ =~= all.subrange(n, all.len() as int).reverse());
            }
        }
        let r = Entries { rest };
        proof {
            assert(all.subrange(0, all.len() as int) =~= all);
            assert(r.remaining() =~= views(all));
        }
        r
    }
}

/// A strictly sequential cursor over an archive's members. Taking a member
/// moves it out: no member outlives the step that handed it out.
pub struct Entries {
    rest: Vec<Entry>,
}

impl Entries {
    /// The members not yet handed out, in order.
    pub closed spec fn remaining(&self) -> Seq<EntryView> {
        views(self.rest@.reverse())
    }

    /// The next member, or `None` when all were handed out.
    pub fn next_entry(&mut self) -> (r: Option<Entry>)
        ensures
            old(self).remaining().len() == 0 ==> r is None && final(self).remaining() == old(self).remaining(),
            old(self).remaining().len() > 0 ==> {
                &&& r is Some
                &&& r->Some_0@ == old(self).remaining()[0]
                &&& final(self).remaining() == old(self).remaining().drop_first()
            },
    {
        let r = self.rest.pop();
        proof {
            let o = old(self).rest@;
            if o.len() > 0 {
                assert(self.rest@ =~= o.drop_last());
                assert(self.rest@.reverse() =~= o.reverse().drop_first());
            }
        }
        r
    }
}

} // verus!
