//! Package specifications such as `user/repo@github` or `name@sloxpkgs`.
use crate::text::{
    cat3, chars_of, find_first, find_last, first_index, has_char, is_first_index, is_last_index,
    last_index, lemma_first_index, lemma_last_index, owned, string_of_range,
};
use vstd::prelude::*;

verus! {

/// Where a package comes from.
#[derive(Debug)]
pub enum Pkg {
    /// A repository `user/repo` on GitHub.
    GitHub { user: String, repo: String },
    /// A package of the sloxpkgs registry.
    Regit { pkg: String },
}

/// A package as plain text values.
pub enum PkgView {
    GitHub { user: Seq<char>, repo: Seq<char> },
    Regit { pkg: Seq<char> },
}

impl View for Pkg {
    type V = PkgView;

    open spec fn view(&self) -> PkgView {
        match self {
            Pkg::GitHub { user, repo } => PkgView::GitHub { user: user@, repo: repo@ },
            Pkg::Regit { pkg } => PkgView::Regit { pkg: pkg@ },
        }
    }
}

/// A parse result with its text taken by value.
pub open spec fn parsed_view(r: Result<Pkg, String>) -> Result<PkgView, Seq<char>> {
    match r {
        Ok(p) => Ok(p@),
        Err(e) => Err(e@),
    }
}

pub open spec fn msg_bad_format() -> Seq<char> {
    "package must look like `user/repo@github`"@
}

pub open spec fn msg_bad_github() -> Seq<char> {
    "github package must look like `user/repo@github`"@
}

pub open spec fn msg_github_parts() -> Seq<char> {
    "github package must include both user and repo"@
}

pub open spec fn msg_unsupported(from: Seq<char>) -> Seq<char> {
    "unsupported package source `"@ + from + "`"@
}

/// A GitHub package: `user/repo`, split at the first `/`, both parts
/// non-empty.
pub open spec fn github_pkg(spec_text: Seq<char>) -> Result<PkgView, Seq<char>> {
    let slash = first_index(spec_text, '/');
    if slash < 0 {
        Err(msg_bad_github())
    } else {
        let user = spec_text.subrange(0, slash);
        let repo = spec_text.subrange(slash + 1, spec_text.len() as int);
        if user.len() == 0 || repo.len() == 0 {
            Err(msg_github_parts())
        } else {
            Ok(PkgView::GitHub { user, repo })
        }
    }
}

/// A package specification `<pkg>@<source>`, split at the last `@`; the
/// source is `github` or `sloxpkgs`.
pub open spec fn parse_pkg_spec(s: Seq<char>) -> Result<PkgView, Seq<char>> {
    let at = last_index(s, '@');
    if at < 0 {
        Err(msg_bad_format())
    } else {
        let pkg = s.subrange(0, at);
        let from = s.subrange(at + 1, s.len() as int);
        if from == "github"@ {
            github_pkg(pkg)
        } else if from == "sloxpkgs"@ {
            Ok(PkgView::Regit { pkg })
        } else {
            Err(msg_unsupported(from))
        }
    }
}

/// The name under which a package is installed: the repository of a
/// GitHub package, the package of a registry one.
pub open spec fn package_name_of(p: PkgView) -> Seq<char> {
    match p {
        PkgView::GitHub { repo, .. } => repo,
        PkgView::Regit { pkg } => pkg,
    }
}

/// Whether two texts are equal.
pub fn same_text(a: &str, b: &str) -> (r: bool)
    ensures
        r == (a@ == b@),
{
    let x = chars_of(a);
    let y = chars_of(b);
    if x.len() != y.len() {
        return false;
    }
    let mut i: usize = 0;
    while i < x.len()
        invariant
            x@ == a@,
            y@ == b@,
            x@.len() == y@.len(),
            i <= x@.len(),
            forall|j: int| 0 <= j < i ==> x@[j] == y@[j],
        decreases x@.len() - i,
    {
        if x[i] != y[i] {
            assert(x@[i as int] != y@[i as int]);
            return false;
        }
        i = i + 1;
    }
    assert(x@ == y@);
    true
}

/// Parses a package specification such as `user/repo@github` or
/// `name@sloxpkgs`.
pub fn parse_pkg(path: &str) -> (r: Result<Pkg, String>)
    ensures
        parsed_view(r) == parse_pkg_spec(path@),
{
    let cs = chars_of(path);
    let at = match find_last(&cs, '@') {
        Some(at) => at,
        None => {
            return Err(owned("package must look like `user/repo@github`"));
        },
    };
    let pkg = string_of_range(&cs, 0, at);
    let from = string_of_range(&cs, at + 1, cs.len());
    if same_text(from.as_str(), "github") {
        let ps = chars_of(pkg.as_str());
        match find_first(&ps, '/') {
            None => Err(owned("github package must look like `user/repo@github`")),
            Some(slash) => {
                let user = string_of_range(&ps, 0, slash);
                let repo = string_of_range(&ps, slash + 1, ps.len());
                if user.as_str().is_empty() || repo.as_str().is_empty() {
                    Err(owned("github package must include both user and repo"))
                } else {
                    Ok(Pkg::GitHub { user, repo })
                }
            },
        }
    } else if same_text(from.as_str(), "sloxpkgs") {
        Ok(Pkg::Regit { pkg })
    } else {
        Err(cat3("unsupported package source `", from.as_str(), "`"))
    }
}

/// The name under which a package is installed.
pub fn package_name(pkg: &Pkg) -> (name: &str)
    ensures
        name@ == package_name_of(pkg@),
{
    match pkg {
        Pkg::GitHub { repo, .. } => repo.as_str(),
        Pkg::Regit { pkg } => pkg.as_str(),
    }
}

/// The package that a removal names: a specification with `@` names the
/// package that it installs; any other text is the name itself.
pub open spec fn removal_name_spec(s: Seq<char>) -> Result<Seq<char>, Seq<char>> {
    if has_char(s, '@') {
        match parse_pkg_spec(s) {
            Ok(p) => Ok(package_name_of(p)),
            Err(e) => Err(e),
        }
    } else {
        Ok(s)
    }
}

/// The name of the package that `path` asks to remove.
pub fn package_name_from_remove_arg(path: &str) -> (r: Result<String, String>)
    ensures
        match r {
            Ok(name) => removal_name_spec(path@) == Ok::<Seq<char>, Seq<char>>(name@),
            Err(e) => removal_name_spec(path@) == Err::<Seq<char>, Seq<char>>(e@),
        },
{
    if crate::text::contains_char(path, '@') {
        match parse_pkg(path) {
            Ok(pkg) => Ok(owned(package_name(&pkg))),
            Err(e) => Err(e),
        }
    } else {
        Ok(owned(path))
    }
}

/// A GitHub specification `user/repo@github` reads back as that user and
/// repository, whenever the user is non-empty and holds no `/` and the
/// repository is non-empty.
pub proof fn law_github_spec_round_trip(user: Seq<char>, repo: Seq<char>)
    requires
        user.len() > 0,
        repo.len() > 0,
        !has_char(user, '/'),
    ensures
        parse_pkg_spec(user + "/"@ + repo + "@github"@) == Ok::<PkgView, Seq<char>>(
            PkgView::GitHub { user, repo },
        ),
{
    reveal_strlit("/");
    reveal_strlit("@github");
    reveal_strlit("github");
    let s = user + "/"@ + repo + "@github"@;
    let at = (user.len() + 1 + repo.len()) as int;
    assert(s[at] == '@');
    assert forall|j: int| at < j < s.len() implies s[j] != '@' by {
        assert(s[j] == "@github"@[j - at]);
    }
    assert(is_last_index(s, '@', at));
    lemma_last_index(s, '@', at);
    let pkg = s.subrange(0, at);
    assert(s.subrange(at + 1, s.len() as int) == "github"@);
    assert(pkg == user + "/"@ + repo);
    let slash = user.len() as int;
    assert forall|j: int| 0 <= j < slash implies pkg[j] != '/' by {
        assert(pkg[j] == user[j]);
    }
    assert(is_first_index(pkg, '/', slash));
    lemma_first_index(pkg, '/', slash);
    assert(pkg.subrange(0, slash) == user);
    assert(pkg.subrange(slash + 1, pkg.len() as int) == repo);
}

/// A registry specification `name@sloxpkgs` reads back as that package,
/// whatever the name.
pub proof fn law_registry_spec_round_trip(pkg: Seq<char>)
    ensures
        parse_pkg_spec(pkg + "@sloxpkgs"@) == Ok::<PkgView, Seq<char>>(PkgView::Regit { pkg }),
{
    reveal_strlit("@sloxpkgs");
    reveal_strlit("sloxpkgs");
    reveal_strlit("github");
    let s = pkg + "@sloxpkgs"@;
    let at = pkg.len() as int;
    assert(s[at] == '@');
    assert forall|j: int| at < j < s.len() implies s[j] != '@' by {
        assert(s[j] == "@sloxpkgs"@[j - at]);
    }
    assert(is_last_index(s, '@', at));
    lemma_last_index(s, '@', at);
    assert(s.subrange(0, at) == pkg);
    assert(s.subrange(at + 1, s.len() as int) == "sloxpkgs"@);
    assert("sloxpkgs"@ != "github"@) by {
        assert("sloxpkgs"@.len() != "github"@.len());
    }
}

/// A specification without `@` is never accepted.
pub proof fn law_spec_needs_source(s: Seq<char>)
    requires
        !has_char(s, '@'),
    ensures
        parse_pkg_spec(s) == Err::<PkgView, Seq<char>>(msg_bad_format()),
{
}

/// Removing by specification removes the package that the same
/// specification installs; removing by plain name removes that name.
pub proof fn law_removal_names_installed_package(s: Seq<char>)
    ensures
        has_char(s, '@') ==> match parse_pkg_spec(s) {
            Ok(p) => removal_name_spec(s) == Ok::<Seq<char>, Seq<char>>(package_name_of(p)),
            Err(e) => removal_name_spec(s) == Err::<Seq<char>, Seq<char>>(e),
        },
        !has_char(s, '@') ==> removal_name_spec(s) == Ok::<Seq<char>, Seq<char>>(s),
{
}

} // verus!
