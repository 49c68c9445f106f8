//! The file browser's place in the file system and its listing. Reading
//! directories, opening, creating, deleting and renaming files is the
//! caller's part; the browser says where it is and which paths to use.
use vstd::prelude::*;

use crate::text::{
    decimal, extend_str, join_path, join_strings, joined, owned, path_join, sort_strings, sorted_views,
    string_of, string_views, u64_to_string,
};

verus! {

/// `Path::parent` of a path given as text: the path without its last
/// component, none for a root or an empty path.
pub uninterp spec fn path_parent(p: Seq<char>) -> Option<Seq<char>>;

/// `Path::parent`, on a path given as text. The contract names the result;
/// how a path splits into components is not written out here.
#[verifier::external_body]
fn parent_of(path: &str) -> (r: Option<String>)
    ensures
        match r {
            Some(s) => path_parent(path@) == Some(s@),
            None => path_parent(path@) is None,
        },
{
    std::path::Path::new(path).parent().map(|p| p.to_string_lossy().into_owned())
}

/// Where the file browser is: the directory shown, the parent of the last
/// directory navigated to, the selected file, and whether there is a
/// directory above the one shown.
#[derive(Debug, Clone)]
pub struct FileBrowser {
    pub current_path: String,
    pub parent_path: String,
    pub selected_file: String,
    pub can_go_up: bool,
}

/// A directory entry as the listing shows it: `name|dir|size` or
/// `name|file|size`.
pub open spec fn entry_line(name: Seq<char>, is_dir: bool, size: u64) -> Seq<char> {
    name + "|"@ + (if is_dir { "dir"@ } else { "file"@ }) + "|"@ + decimal(size as nat)
}

/// The lines of the entries, in the order given.
pub open spec fn entry_lines(es: Seq<(String, bool, u64)>) -> Seq<Seq<char>> {
    es.map_values(|e: (String, bool, u64)| entry_line(e.0@, e.1, e.2))
}

/// The user's home directory, `~` when it is unknown.
pub open spec fn home_or_tilde(home: Option<String>) -> Seq<char> {
    match home {
        Some(h) => h@,
        None => "~"@,
    }
}

fn entry_text(name: &str, is_dir: bool, size: u64) -> (r: String)
    ensures
        r@ == entry_line(name@, is_dir, size),
{
    let mut out: Vec<char> = Vec::new();
    extend_str(&mut out, name);
    extend_str(&mut out, "|");
    extend_str(&mut out, if is_dir { "dir" } else { "file" });
    extend_str(&mut out, "|");
    let n = u64_to_string(size);
    extend_str(&mut out, n.as_str());
    proof {
        assert(out@ =~= entry_line(name@, is_dir, size));
    }
    string_of(&out)
}

impl FileBrowser {
    /// A browser nowhere yet: empty paths, no way up.
    pub fn new() -> (r: FileBrowser)
        ensures
            r.current_path@.len() == 0,
            r.parent_path@.len() == 0,
            r.selected_file@.len() == 0,
            !r.can_go_up,
    {
        FileBrowser {
            current_path: String::new(),
            parent_path: String::new(),
            selected_file: String::new(),
            can_go_up: false,
        }
    }

    /// Shows the directory `path` (`is_dir` says whether it is one; other
    /// paths change nothing), remembering its parent.
    pub fn navigate(&mut self, path: &str, is_dir: bool)
        ensures
            !is_dir ==> *final(self) == *old(self),
            is_dir ==> final(self).current_path@ == path@ && final(self).can_go_up == (path_parent(path@) is Some)
                && final(self).parent_path@ == (match path_parent(path@) {
                Some(p) => p,
                None => old(self).parent_path@,
            }) && final(self).selected_file == old(self).selected_file,
    {
        if is_dir {
            self.current_path = owned(path);
            let parent = parent_of(path);
            self.can_go_up = parent.is_some();
            match parent {
                Some(p) => {
                    self.parent_path = p;
                },
                None => {},
            }
        }
    }

    /// Shows the parent of the directory shown, if it has one.
    pub fn go_up(&mut self)
        ensures
            match path_parent(old(self).current_path@) {
                Some(p) => final(self).current_path@ == p && final(self).can_go_up == (path_parent(p) is Some),
                None => final(self).current_path == old(self).current_path && final(self).can_go_up
                    == old(self).can_go_up,
            },
            final(self).parent_path == old(self).parent_path,
            final(self).selected_file == old(self).selected_file,
    {
        match parent_of(self.current_path.as_str()) {
            Some(p) => {
                let above = parent_of(p.as_str());
                self.can_go_up = above.is_some();
                self.current_path = p;
            },
            None => {},
        }
    }

    /// Shows the home directory `home` (`~` when it is unknown); the way up
    /// is open.
    pub fn go_home_to(&mut self, home: Option<String>)
        ensures
            final(self).current_path@ == home_or_tilde(home),
            final(self).can_go_up,
            final(self).parent_path == old(self).parent_path,
            final(self).selected_file == old(self).selected_file,
    {
        let path = match home {
            Some(h) => h,
            None => owned("~"),
        };
        self.current_path = path;
        self.can_go_up = true;
    }

    /// Shows the user's home directory as the environment gives it (`~` when
    /// it is unknown); the way up is open.
    pub fn go_home(&mut self)
        ensures
            exists|home: Option<String>| final(self).current_path@ == home_or_tilde(home),
            final(self).can_go_up,
            final(self).parent_path == old(self).parent_path,
            final(self).selected_file == old(self).selected_file,
    {
        self.go_home_to(crate::locations::home_dir());
    }

    /// The listing of the directory shown, from its entries (name, whether
    /// it is a directory, size in bytes): one line per entry, in
    /// lexicographic order, joined by newlines.
    pub fn listing(entries: &Vec<(String, bool, u64)>) -> (r: String)
        ensures
            exists|lines: Seq<String>, sorted: Seq<String>|
                #![trigger string_views(lines), string_views(sorted)]
                {
                    &&& string_views(lines) == entry_lines(entries@)
                    &&& sorted.to_multiset() == lines.to_multiset()
                    &&& sorted_views(string_views(sorted))
                    &&& r@ == joined(string_views(sorted), "\n"@)
                },
    {
        let mut ls: Vec<String> = Vec::new();
        let mut k: usize = 0;
        while k < entries.len()
            invariant
                k <= entries@.len(),
                string_views(ls@) == entry_lines(entries@.take(k as int)),
            decreases entries.len() - k,
        {
            let ghost before = string_views(ls@);
            let e = &entries[k];
            ls.push(entry_text(e.0.as_str(), e.1, e.2));
            proof {
                assert(string_views(ls@) =~= before.push(entry_line(e.0@, e.1, e.2)));
                assert(entry_lines(entries@.take(k + 1)) =~= entry_lines(entries@.take(k as int)).push(
                    entry_line(e.0@, e.1, e.2),
                ));
            }
            k = k + 1;
        }
        proof {
            assert(entries@.take(entries@.len() as int) =~= entries@);
        }
        let ghost lines = ls@;
        let sorted = sort_strings(ls);
        let r = join_strings(&sorted, "\n");
        proof {
            assert(string_views(lines) == entry_lines(entries@));
            assert(string_views(sorted@) == string_views(sorted@));
        }
        r
    }

    /// Where a new folder `name` goes: inside the directory shown.
    pub fn folder_path(&self, name: &str) -> (r: String)
        ensures
            r@ == path_join(self.current_path@, name@),
    {
        join_path(self.current_path.as_str(), name)
    }

    /// The new path of a file renamed to `new_name`: beside it, in its
    /// parent directory; none for a path without a parent.
    pub fn renamed_path(old_path: &str, new_name: &str) -> (r: Option<String>)
        ensures
            match path_parent(old_path@) {
                Some(p) => r matches Some(s) && s@ == path_join(p, new_name@),
                None => r is None,
            },
    {
        match parent_of(old_path) {
            Some(p) => Some(join_path(p.as_str(), new_name)),
            None => None,
        }
    }
}

} // verus!
