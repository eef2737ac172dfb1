//! The entry data model: an immutable snapshot of one filesystem path's
//! identity and metadata. The display name is derived from the path's final
//! component, the extension from the name's suffix after its last dot, and
//! the kind is fixed at construction — a failed stat is the valid `Unknown`
//! kind, never an error. A symlink may carry its one-hop resolved target,
//! and that target may carry one more hop; deeper chains are left unresolved
//! on purpose, so that the ordering only ever looks two hops deep.

use vstd::prelude::*;

verus! {

use crate::text::str_eq;

/// What a path's metadata said the entry is. `Unknown` stands for a failed
/// stat (permissions, a race with deletion) and must never abort a listing.
#[derive(Clone, Copy, PartialEq, Eq, Structural, Debug)]
pub enum EntryKind {
    Directory,
    File,
    Symlink,
    Unknown,
}

/// Symbolic icon identifier handed to the presentation layer.
#[derive(Clone, Copy, PartialEq, Eq, Structural, Debug)]
pub enum IconId {
    Link,
    File,
    Folder,
    House,
    DotsNine,
    Download,
    SealWarning,
}

/// Index of the last occurrence of `c` in `s`, or -1 when `c` does not occur.
pub open spec fn last_index_of(s: Seq<char>, c: char) -> int
    decreases s.len(),
{
    if s.len() == 0 {
        -1
    } else if s[s.len() - 1] == c {
        s.len() - 1
    } else {
        last_index_of(s.drop_last(), c)
    }
}

/// `last_index_of` finds the rightmost occurrence, and -1 means none.
pub proof fn lemma_last_index_of(s: Seq<char>, c: char)
    ensures
        last_index_of(s, c) == -1 ==> forall|k: int| 0 <= k < s.len() ==> s[k] != c,
        last_index_of(s, c) != -1 ==> {
            &&& 0 <= last_index_of(s, c) < s.len()
            &&& s[last_index_of(s, c)] == c
            &&& forall|k: int| last_index_of(s, c) < k < s.len() ==> s[k] != c
        },
    decreases s.len(),
{
    if s.len() > 0 && s[s.len() - 1] != c {
        lemma_last_index_of(s.drop_last(), c);
        assert(forall|k: int| 0 <= k < s.len() - 1 ==> s.drop_last()[k] == s[k]);
    }
}

/// The display name a path yields: everything after the last `/`, or the raw
/// path itself when there is no final component (no separator at all, or a
/// trailing one).
pub open spec fn name_of_path(p: Seq<char>) -> Seq<char> {
    let i = last_index_of(p, '/');
    if i == -1 || i == p.len() - 1 {
        p
    } else {
        p.subrange(i + 1, p.len() as int)
    }
}

/// The extension a name yields: the suffix after the last `.`, absent when
/// the name holds no dot.
pub open spec fn ext_of_name(n: Seq<char>) -> Option<Seq<char>> {
    let i = last_index_of(n, '.');
    if i == -1 {
        Option::None
    } else {
        Option::Some(n.subrange(i + 1, n.len() as int))
    }
}

/// A name an entry may be renamed to: non-empty and free of the path
/// separator.
pub open spec fn valid_name(s: Seq<char>) -> bool {
    s.len() > 0 && forall|k: int| 0 <= k < s.len() ==> s[k] != '/'
}

/// The path an entry has after its final component is replaced by
/// `new_name`; a path without a final component is replaced wholesale.
pub open spec fn renamed_path(p: Seq<char>, new_name: Seq<char>) -> Seq<char> {
    let i = last_index_of(p, '/');
    if i == -1 || i == p.len() - 1 {
        new_name
    } else {
        p.subrange(0, i + 1) + new_name
    }
}

/// Index of the last occurrence of `c`, scanned in executable code.
pub fn find_last(s: &str, c: char) -> (r: Option<usize>)
    ensures
        match r {
            Option::None => last_index_of(s@, c) == -1,
            Option::Some(i) => last_index_of(s@, c) == i && i < s@.len(),
        },
{
    let len = s.unicode_len();
    let mut i: usize = len;
    while i > 0
        invariant
            i <= len,
            len == s@.len(),
            forall|k: int| i <= k < len ==> s@[k] != c,
        decreases i,
    {
        if s.get_char(i - 1) == c {
            proof {
                lemma_last_index_of(s@, c);
            }
            return Some(i - 1);
        }
        i = i - 1;
    }
    proof {
        lemma_last_index_of(s@, c);
    }
    None
}

/// Derives the display name of `path` in executable code.
pub fn derive_name(path: &str) -> (r: String)
    ensures
        r@ == name_of_path(path@),
{
    let len = path.unicode_len();
    match find_last(path, '/') {
        None => path.to_owned(),
        Some(i) => {
            if i + 1 == len {
                path.to_owned()
            } else {
                path.substring_char(i + 1, len).to_owned()
            }
        },
    }
}

/// Derives the extension of `name` in executable code.
pub fn derive_ext(name: &str) -> (r: Option<String>)
    ensures
        r.deep_view() == ext_of_name(name@),
{
    let len = name.unicode_len();
    match find_last(name, '.') {
        None => None,
        Some(i) => Some(name.substring_char(i + 1, len).to_owned()),
    }
}

/// Computes the path an entry would have after its final component is
/// replaced by `new_name`, in executable code.
pub fn compute_renamed_path(path: &str, new_name: &str) -> (r: String)
    ensures
        r@ == renamed_path(path@, new_name@),
{
    let len = path.unicode_len();
    match find_last(path, '/') {
        None => new_name.to_owned(),
        Some(i) => {
            if i + 1 == len {
                new_name.to_owned()
            } else {
                let prefix = path.substring_char(0, i + 1).to_owned();
                prefix.concat(new_name)
            }
        },
    }
}

/// Whether `s` may serve as a file name, in executable code.
pub fn is_valid_name(s: &str) -> (r: bool)
    ensures
        r == valid_name(s@),
{
    let len = s.unicode_len();
    if len == 0 {
        return false;
    }
    let mut i: usize = 0;
    while i < len
        invariant
            i <= len,
            len == s@.len(),
            forall|k: int| 0 <= k < i ==> s@[k] != '/',
        decreases len - i,
    {
        if s.get_char(i) == '/' {
            return false;
        }
        i = i + 1;
    }
    true
}

/// One filesystem entry, as the directory view holds it.
pub struct FileData {
    pub path: String,
    pub name: String,
    pub ext: Option<String>,
    pub kind: EntryKind,
    pub link_target: Option<Box<FileData>>,
}

impl FileData {
    /// How many resolved hops hang off this entry.
    pub open spec fn link_depth(self) -> nat
        decreases self,
    {
        match self.link_target {
            Option::None => 0,
            Option::Some(t) => 1 + t.link_depth(),
        }
    }

    /// Structural consistency: the name is derived from the path, the
    /// extension from the name, only a symlink carries a resolved target,
    /// every stored target is itself consistent, and resolution stops one
    /// additional hop beyond the first.
    pub open spec fn wf(self) -> bool
        decreases self,
    {
        &&& self.name@ == name_of_path(self.path@)
        &&& self.ext.deep_view() == ext_of_name(self.name@)
        &&& self.kind != EntryKind::Symlink ==> self.link_target is None
        &&& match self.link_target {
            Option::None => true,
            Option::Some(t) => t.wf(),
        }
        &&& self.link_depth() <= 2
    }

    /// The one-hop resolved target of a symlink; `None` for every other kind
    /// and for a symlink whose target could not be read.
    pub open spec fn spec_linked(self) -> Option<FileData> {
        if self.kind == EntryKind::Symlink {
            match self.link_target {
                Option::None => Option::None,
                Option::Some(t) => Option::Some(*t),
            }
        } else {
            Option::None
        }
    }

    /// The target two hops out when the one-hop target is again a resolved
    /// symlink, else the one-hop target itself.
    pub open spec fn spec_rec_linked(self) -> Option<FileData> {
        match self.spec_linked() {
            Option::None => Option::None,
            Option::Some(t) => match t.spec_linked() {
                Option::None => Option::Some(t),
                Option::Some(u) => Option::Some(u),
            },
        }
    }

    /// The icon the presentation layer shows for this entry: by kind, with a
    /// few well-known directory names mapped to their own symbols.
    pub open spec fn spec_icon(self) -> IconId {
        match self.kind {
            EntryKind::Symlink => IconId::Link,
            EntryKind::File => IconId::File,
            EntryKind::Unknown => IconId::SealWarning,
            EntryKind::Directory => if self.name@ == "Home"@ {
                IconId::House
            } else if self.name@ == "Desktop"@ {
                IconId::DotsNine
            } else if self.name@ == "Downloads"@ {
                IconId::Download
            } else {
                IconId::Folder
            },
        }
    }

    /// Builds the snapshot for `path`. The caller supplies what only the
    /// filesystem can tell — the kind and the resolved link target — and the
    /// name and extension are derived here.
    pub fn new(path: String, kind: EntryKind, link_target: Option<Box<FileData>>) -> (r: FileData)
        requires
            link_target matches Option::Some(t) ==> kind == EntryKind::Symlink && t.wf()
                && t.link_depth() <= 1,
        ensures
            r.wf(),
            r.path == path,
            r.kind == kind,
            r.link_target == link_target,
            r.name@ == name_of_path(path@),
            r.ext.deep_view() == ext_of_name(name_of_path(path@)),
    {
        let name = derive_name(path.as_str());
        let ext = derive_ext(name.as_str());
        FileData { path, name, ext, kind, link_target }
    }

    pub fn path(&self) -> (r: &String)
        ensures
            r == self.path,
    {
        &self.path
    }

    pub fn name(&self) -> (r: &String)
        ensures
            r == self.name,
    {
        &self.name
    }

    /// The kind recorded at construction time; never re-stats.
    pub fn file_ty(&self) -> (r: EntryKind)
        ensures
            r == self.kind,
    {
        self.kind
    }

    /// The one-hop resolved link target, if any.
    pub fn linked(&self) -> (r: Option<&FileData>)
        ensures
            match r {
                Option::None => self.spec_linked() is None,
                Option::Some(t) => self.spec_linked() == Option::Some(*t),
            },
    {
        match self.kind {
            EntryKind::Symlink => match &self.link_target {
                Some(t) => Some(&**t),
                None => None,
            },
            _ => None,
        }
    }

    /// The terminal entry of at most two resolved hops.
    pub fn rec_linked(&self) -> (r: Option<&FileData>)
        ensures
            match r {
                Option::None => self.spec_rec_linked() is None,
                Option::Some(t) => self.spec_rec_linked() == Option::Some(*t),
            },
    {
        match self.linked() {
            None => None,
            Some(t) => match t.linked() {
                None => Some(t),
                Some(u) => Some(u),
            },
        }
    }

    /// The kind of the terminal entry of at most two resolved hops.
    pub fn rec_linked_file_ty(&self) -> (r: Option<EntryKind>)
        ensures
            match r {
                Option::None => self.spec_rec_linked() is None,
                Option::Some(k) => self.spec_rec_linked() matches Option::Some(t) && t.kind == k,
            },
    {
        match self.rec_linked() {
            None => None,
            Some(t) => Some(t.file_ty()),
        }
    }

    pub fn icon(&self) -> (r: IconId)
        ensures
            r == self.spec_icon(),
    {
        match self.kind {
            EntryKind::Symlink => IconId::Link,
            EntryKind::File => IconId::File,
            EntryKind::Unknown => IconId::SealWarning,
            EntryKind::Directory => {
                if str_eq(self.name.as_str(), "Home") {
                    IconId::House
                } else if str_eq(self.name.as_str(), "Desktop") {
                    IconId::DotsNine
                } else if str_eq(self.name.as_str(), "Downloads") {
                    IconId::Download
                } else {
                    IconId::Folder
                }
            },
        }
    }

    /// Applies a rename the filesystem collaborator has already carried out:
    /// replaces the final path component and re-derives name and extension.
    /// The kind and the link target are deliberately left as constructed —
    /// a rename never re-stats the file.
    pub fn rename(&mut self, new_name: &str)
        requires
            old(self).wf(),
            valid_name(new_name@),
        ensures
            final(self).wf(),
            final(self).path@ == renamed_path(old(self).path@, new_name@),
            final(self).name@ == new_name@,
            final(self).ext.deep_view() == ext_of_name(new_name@),
            final(self).kind == old(self).kind,
            final(self).link_target == old(self).link_target,
    {
        let new_path: String = compute_renamed_path(self.path.as_str(), new_name);
        proof {
            lemma_renamed_path_name(self.path@, new_name@);
        }
        self.path = new_path;
        self.name = new_name.to_owned();
        self.ext = derive_ext(new_name);
    }
}

/// Replacing the final component of a path with a valid name yields a path
/// whose derived name is exactly that name.
pub proof fn lemma_renamed_path_name(p: Seq<char>, new_name: Seq<char>)
    requires
        valid_name(new_name),
    ensures
        name_of_path(renamed_path(p, new_name)) == new_name,
{
    let i = last_index_of(p, '/');
    lemma_last_index_of(p, '/');
    if i == -1 || i == p.len() - 1 {
        // the new path is the bare name, which holds no separator
        lemma_last_index_of(new_name, '/');
        let j = last_index_of(new_name, '/');
        if j != -1 {
            assert(new_name[j] == '/');
        }
        assert(name_of_path(renamed_path(p, new_name)) =~= new_name);
    } else {
        let np = p.subrange(0, i + 1) + new_name;
        lemma_last_index_of(np, '/');
        let j = last_index_of(np, '/');
        assert(np[i] == '/');
        assert(forall|k: int| i < k < np.len() ==> np[k] == new_name[k - i - 1]);
        if j == -1 {
            assert(np[i] != '/');
            assert(false);
        }
        if j > i {
            assert(np[j] == new_name[j - i - 1]);
            assert(false);
        }
        if j < i {
            assert(np[i] != '/');
            assert(false);
        }
        assert(j == i);
        assert(j != np.len() - 1);
        assert(name_of_path(np) =~= new_name);
    }
}

} // verus!
