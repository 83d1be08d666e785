//! Paths of the store, written as strings and joined the way
//! `PathBuf::push` joins them on Unix.
use crate::text::{cat, cat3, chars_of, owned};
use vstd::prelude::*;

verus! {

/// `comp` appended to `base` as `PathBuf::push` does on Unix: an absolute
/// `comp` replaces `base`; otherwise a `/` separates the two unless `base`
/// is empty or already ends with one.
pub open spec fn join(base: Seq<char>, comp: Seq<char>) -> Seq<char> {
    if comp.len() > 0 && comp[0] == '/' {
        comp
    } else if base.len() > 0 && base.last() != '/' {
        base + seq!['/'] + comp
    } else {
        base + comp
    }
}

/// `base` joined with `comp` (`Path::join`).
pub fn join_path(base: &str, comp: &str) -> (out: String)
    ensures
        out@ == join(base@, comp@),
{
    let b = chars_of(base);
    let c = chars_of(comp);
    if c.len() > 0 && c[0] == '/' {
        owned(comp)
    } else if b.len() > 0 && b[b.len() - 1] != '/' {
        let out = cat3(base, "/", comp);
        proof {
            reveal_strlit("/");
        }
        out
    } else {
        cat(base, comp)
    }
}

/// The directory under which everything that the package manager keeps is
/// stored, and the places inside it.
#[derive(Clone, Debug)]
pub struct StorePaths {
    pub base: String,
}

/// The store directory inside a home directory.
pub open spec fn store_under(home: Seq<char>) -> Seq<char> {
    join(home, ".slox"@)
}

/// The directory of the environment named `name`.
pub open spec fn env_dir_of(base: Seq<char>, name: Seq<char>) -> Seq<char> {
    join(join(base, "env"@), name)
}

/// The directory that holds the binaries of the environment named `name`.
pub open spec fn env_bin_dir_of(base: Seq<char>, name: Seq<char>) -> Seq<char> {
    join(env_dir_of(base, name), "bin"@)
}

/// The directory that holds the binaries installed outside any environment.
pub open spec fn root_bin_dir_of(base: Seq<char>) -> Seq<char> {
    join(join(base, "root"@), "bin"@)
}

/// The directory of the shims that stand for the active binaries.
pub open spec fn shim_bin_dir_of(base: Seq<char>) -> Seq<char> {
    join(base, "bin"@)
}

/// The directory where repositories are cloned.
pub open spec fn cache_root_of(base: Seq<char>) -> Seq<char> {
    join(base, "tmp"@)
}

/// The file that names the active environment.
pub open spec fn active_env_file_of(base: Seq<char>) -> Seq<char> {
    join(base, "active-env"@)
}

/// The home directory of the current user (`home::home_dir`), as text;
/// `None` also when that directory's path is not valid UTF-8, since a store
/// path here is text. It depends on the process environment and on the
/// user database, so nothing is claimed of it.
#[verifier::external_body]
fn home_dir() -> Option<String> {
    home::home_dir().and_then(|path| path.into_os_string().into_string().ok())
}

impl StorePaths {
    /// A store rooted at `base`.
    pub fn new(base: &str) -> (store: StorePaths)
        ensures
            store.base@ == base@,
    {
        StorePaths { base: owned(base) }
    }

    /// The store kept in `.slox` under the home directory `home`.
    pub fn under_home(home: &str) -> (store: StorePaths)
        ensures
            store.base@ == store_under(home@),
    {
        StorePaths { base: join_path(home, ".slox") }
    }

    /// The store of the current user, or `None` when no home directory can
    /// be determined as text.
    pub fn from_home() -> (store: Option<StorePaths>)
        ensures
            store matches Some(st) ==> exists|home: Seq<char>| st.base@ == store_under(home),
    {
        match home_dir() {
            Some(home) => {
                let st = StorePaths::under_home(home.as_str());
                assert(st.base@ == store_under(home@));
                Some(st)
            },
            None => None,
        }
    }

    pub fn env_dir(&self, name: &str) -> (out: String)
        ensures
            out@ == env_dir_of(self.base@, name@),
    {
        let envs = join_path(self.base.as_str(), "env");
        join_path(envs.as_str(), name)
    }

    pub fn root_bin_dir(&self) -> (out: String)
        ensures
            out@ == root_bin_dir_of(self.base@),
    {
        let root = join_path(self.base.as_str(), "root");
        join_path(root.as_str(), "bin")
    }

    pub fn shim_bin_dir(&self) -> (out: String)
        ensures
            out@ == shim_bin_dir_of(self.base@),
    {
        join_path(self.base.as_str(), "bin")
    }

    pub fn cache_root(&self) -> (out: String)
        ensures
            out@ == cache_root_of(self.base@),
    {
        join_path(self.base.as_str(), "tmp")
    }

    pub fn active_env_file(&self) -> (out: String)
        ensures
            out@ == active_env_file_of(self.base@),
    {
        join_path(self.base.as_str(), "active-env")
    }

    pub fn env_bin_dir(&self, name: &str) -> (out: String)
        ensures
            out@ == env_bin_dir_of(self.base@, name@),
    {
        let env = self.env_dir(name);
        join_path(env.as_str(), "bin")
    }
}

} // verus!
