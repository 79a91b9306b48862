//! Paths of the agent's directories and files. The file system itself is the
//! caller's: these values only name places in it.

use vstd::prelude::*;

verus! {

/// `base` and the relative name `name` joined by one `/`.
pub open spec fn spec_join_path(base: Seq<char>, name: Seq<char>) -> Seq<char> {
    if base.len() > 0 && base.last() == '/' {
        base + name
    } else {
        base + "/"@ + name
    }
}

fn join_path(base: &str, name: &str) -> (r: String)
    ensures
        r@ == spec_join_path(base@, name@),
{
    let mut r = base.to_string();
    let n = base.unicode_len();
    if n > 0 && base.get_char(n - 1) == '/' {
        r.append(name);
    } else {
        r.append("/");
        r.append(name);
        proof {
            reveal_strlit("/");
        }
    }
    r
}

/// A directory, by its path.
#[derive(Debug, Clone, PartialEq, Eq)]
pub struct Dir {
    pub path: String,
}

/// A file, by its path.
#[derive(Debug, Clone, PartialEq, Eq)]
pub struct File {
    pub path: String,
}

impl Dir {
    pub fn new(path: String) -> (r: Dir)
        ensures
            r.path == path,
    {
        Dir { path }
    }

    /// The directory `name` inside this one.
    pub fn subdir(&self, name: &str) -> (r: Dir)
        ensures
            r.path@ == spec_join_path(self.path@, name@),
    {
        Dir { path: join_path(self.path.as_str(), name) }
    }

    /// The file `name` inside this directory.
    pub fn file(&self, name: &str) -> (r: File)
        ensures
            r.path@ == spec_join_path(self.path@, name@),
    {
        File { path: join_path(self.path.as_str(), name) }
    }
}

} // verus!
