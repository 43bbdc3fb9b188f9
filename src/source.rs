use vstd::prelude::*;
use vstd::string::*;

verus! {

/// `root` joined with `path` as a Unix path join does it: an absolute
/// `path` replaces `root`, and a separator is put between the two unless
/// `root` is empty or already ends in one.
pub open spec fn join_of(root: Seq<char>, path: Seq<char>) -> Seq<char> {
    if path.len() > 0 && path[0] == '/' {
        path
    } else if root.len() == 0 || root.last() == '/' {
        root + path
    } else {
        root + seq!['/'] + path
    }
}

/// Where the on-disk copy of a member with archive-internal `path` is
/// looked for: under `root` when one is given, else relative to the
/// working directory.
pub open spec fn resolve_of(root: Option<Seq<char>>, path: Seq<char>) -> Seq<char> {
    match root {
        Some(r) => join_of(r, path),
        None => path,
    }
}

/// Joins `root` and `path`.
pub fn join_path(root: &str, path: &str) -> (r: String)
    ensures
        r@ == join_of(root@, path@),
{
    if !path.is_empty() && path.get_char(0) == '/' {
        return String::from_str(path);
    }
    let mut s = String::from_str(root);
    if !root.is_empty() && root.get_char(root.unicode_len() - 1) != '/' {
        s.append("/");
        proof { reveal_strlit("/"); }
    }
    s.append(path);
    proof {
        assert(s@ =~= join_of(root@, path@));
    }
    s
}

/// Resolves where the on-disk copy of the member at `path` is looked for.
pub fn resolve_source(root: Option<&str>, path: &str) -> (r: String)
    ensures
        r@ == resolve_of(
            match root {
                Some(x) => Some(x@),
                None => None,
            },
            path@,
        ),
{
    match root {
        Some(x) => join_path(x, path),
        None => String::from_str(path),
    }
}

/// The content stored for `path` in `files`: the last entry with that path wins.
pub open spec fn lookup_of(files: Seq<(Seq<char>, Seq<u8>)>, path: Seq<char>) -> Option<Seq<u8>>
    decreases files.len(),
{
    if files.len() == 0 {
        None
    } else if files.last().0 == path {
        Some(files.last().1)
    } else {
        lookup_of(files.drop_last(), path)
    }
}

/// An in-memory stand-in for the files on disk: a set of paths with
/// their contents.
pub struct SourceTree {
    files: Vec<(String, Vec<u8>)>,
}

impl SourceTree {
    pub closed spec fn files(&self) -> Seq<(Seq<char>, Seq<u8>)> {
        self.files@.map_values(|f: (String, Vec<u8>)| (f.0@, f.1@))
    }

    /// The content of the file at `path`, if there is one.
    pub open spec fn spec_lookup(&self, path: Seq<char>) -> Option<Seq<u8>> {
        lookup_of(self.files(), path)
    }

    /// A tree without files.
    pub fn new() -> (r: SourceTree)
        ensures
            forall|p: Seq<char>| r.spec_lookup(p) is None,
    {
        let r = SourceTree { files: Vec::new() };
        proof {
            assert(r.files().len() == 0);
        }
        r
    }

    /// Stores `data` at `path`, replacing what was there.
    pub fn insert(&mut self, path: String, data: Vec<u8>)
        ensures
            final(self).spec_lookup(path@) == Some(data@),
            forall|p: Seq<char>| p != path@ ==> final(self).spec_lookup(p) == old(self).spec_lookup(p),
    {
        let ghost key = path@;
        let ghost val = data@;
        self.files.push((path, data));
        proof {
            assert(self.files().drop_last() =~= old(self).files());
            assert(self.files().last() == (key, val));
        }
    }
    /// The content of the file at `path`, if there is one.
    pub fn lookup(&self, path: &String) -> (r: Option<&[u8]>)
        ensures
            r matches Some(d) ==> self.spec_lookup(path@) == Some(d@),
            r is None ==> self.spec_lookup(path@) is None,
    {
        let mut i: usize = self.files.len();
        assert(self.files().subrange(0, i as int) =~= self.files());
        while i > 0
            invariant
                i <= self.files@.len(),
                lookup_of(self.files(), path@) == lookup_of(self.files().subrange(0, i as int), path@),
            decreases i,
        {
            let ghost prefix = self.files().subrange(0, i as int);
            assert(prefix.drop_last() =~= self.files().subrange(0, i - 1));
            if self.files[i - 1].0 == *path {
                return Some(self.files[i - 1].1.as_slice());
            }
            i -= 1;
        }
        None
    }
}

} // verus!
