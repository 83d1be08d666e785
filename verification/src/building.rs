//! Building a package: its `build.toml`, where its build script and its
//! binary are, the name it is installed under, and what a failed build
//! reports.
use crate::paths::{join, join_path};
use crate::phase::opt_view;
use crate::pkg::same_text;
use crate::rules::build_details;
use crate::text::{
    cat3, chars_of, contains_char, find_first, first_index, has_char, is_first_index, owned,
    string_of_range, trim, trimmed,
};
use vstd::prelude::*;

verus! {

/// What a package's `build.toml` sets: the build script and the built
/// binary, as paths inside the package directory, and the name to install
/// the binary under. What it leaves unset takes its default.
pub struct BuildConfig {
    pub script: Option<String>,
    pub binary: Option<String>,
    pub name: Option<String>,
}

pub struct BuildConfigView {
    pub script: Option<Seq<char>>,
    pub binary: Option<Seq<char>>,
    pub name: Option<Seq<char>>,
}

impl View for BuildConfig {
    type V = BuildConfigView;

    open spec fn view(&self) -> BuildConfigView {
        BuildConfigView {
            script: opt_view(self.script),
            binary: opt_view(self.binary),
            name: opt_view(self.name),
        }
    }
}

/// A configuration that sets nothing: what a package without `build.toml`
/// has.
pub open spec fn no_config() -> BuildConfigView {
    BuildConfigView { script: None, binary: None, name: None }
}

/// The configuration that sets nothing.
pub fn default_config() -> (c: BuildConfig)
    ensures
        c@ == no_config(),
{
    BuildConfig { script: None, binary: None, name: None }
}

/// The configuration file of the package in `dir`.
pub open spec fn config_file(dir: Seq<char>) -> Seq<char> {
    join(dir, "build.toml"@)
}

/// The build script of the package in `dir`: the configured one, else
/// `build`.
pub open spec fn build_script(dir: Seq<char>, config: BuildConfigView) -> Seq<char> {
    match config.script {
        Some(script) => join(dir, script),
        None => join(dir, "build"@),
    }
}

/// The binary that building the package `package` in `dir` leaves: the
/// configured one, else `bin/<package>`.
pub open spec fn built_binary(dir: Seq<char>, package: Seq<char>, config: BuildConfigView) -> Seq<
    char,
> {
    match config.binary {
        Some(binary) => join(dir, binary),
        None => join(join(dir, "bin"@), package),
    }
}

/// The name the package `package` is installed under: the configured one,
/// else the package's own.
pub open spec fn installed_name(package: Seq<char>, config: BuildConfigView) -> Seq<char> {
    match config.name {
        Some(name) => name,
        None => package,
    }
}

/// How to build and install one package.
pub struct BuildPlan {
    /// The package directory, where the build script runs.
    pub dir: String,
    /// The package's name.
    pub package: String,
    /// The build script.
    pub script: String,
    /// The binary that the build leaves.
    pub binary: String,
    /// The name to install the binary under.
    pub name: String,
}

pub struct BuildPlanView {
    pub dir: Seq<char>,
    pub package: Seq<char>,
    pub script: Seq<char>,
    pub binary: Seq<char>,
    pub name: Seq<char>,
}

impl View for BuildPlan {
    type V = BuildPlanView;

    open spec fn view(&self) -> BuildPlanView {
        BuildPlanView {
            dir: self.dir@,
            package: self.package@,
            script: self.script@,
            binary: self.binary@,
            name: self.name@,
        }
    }
}

/// The plan for the package `package` in `dir` under `config`.
pub open spec fn plan_of(dir: Seq<char>, package: Seq<char>, config: BuildConfigView) -> BuildPlanView {
    BuildPlanView {
        dir,
        package,
        script: build_script(dir, config),
        binary: built_binary(dir, package, config),
        name: installed_name(package, config),
    }
}

/// The build script of the package in `dir` under `config`.
pub fn build_script_path(dir: &str, config: &BuildConfig) -> (out: String)
    ensures
        out@ == build_script(dir@, config@),
{
    match &config.script {
        Some(script) => join_path(dir, script.as_str()),
        None => join_path(dir, "build"),
    }
}

/// The binary that building the package `package` in `dir` leaves under
/// `config`.
pub fn built_binary_path(dir: &str, package: &str, config: &BuildConfig) -> (out: String)
    ensures
        out@ == built_binary(dir@, package@, config@),
{
    match &config.binary {
        Some(binary) => join_path(dir, binary.as_str()),
        None => {
            let bin = join_path(dir, "bin");
            join_path(bin.as_str(), package)
        },
    }
}

/// The plan for the package `package` in `dir` under `config`.
pub fn build_plan(dir: &str, package: &str, config: &BuildConfig) -> (plan: BuildPlan)
    ensures
        plan@ == plan_of(dir@, package@, config@),
{
    let name = match &config.name {
        Some(name) => owned(name.as_str()),
        None => owned(package),
    };
    BuildPlan {
        dir: owned(dir),
        package: owned(package),
        script: build_script_path(dir, config),
        binary: built_binary_path(dir, package, config),
        name,
    }
}

// ----- reading build.toml -----
/// Whether `v` is a string in double quotes with no double quote or
/// backslash inside.
pub open spec fn is_quoted(v: Seq<char>) -> bool {
    &&& v.len() >= 2
    &&& v[0] == '"'
    &&& v.last() == '"'
    &&& !has_char(v.subrange(1, v.len() - 1), '"')
    &&& !has_char(v.subrange(1, v.len() - 1), '\\')
}

pub open spec fn msg_bad_line(line: Seq<char>) -> Seq<char> {
    "invalid line `"@ + line + "` in build.toml: expected `key = \"value\"`"@
}

pub open spec fn msg_bad_value(key: Seq<char>) -> Seq<char> {
    "value of `"@ + key + "` in build.toml must be a double-quoted string"@
}

pub open spec fn msg_unknown_key(key: Seq<char>) -> Seq<char> {
    "unknown key `"@ + key + "` in build.toml"@
}

pub open spec fn msg_duplicate_key(key: Seq<char>) -> Seq<char> {
    "duplicate key `"@ + key + "` in build.toml"@
}

/// `config` with `key` set to `value`; each of `script`, `binary` and
/// `name` may be set once.
pub open spec fn with_key(config: BuildConfigView, key: Seq<char>, value: Seq<char>) -> Result<
    BuildConfigView,
    Seq<char>,
> {
    if key == "script"@ {
        match config.script {
            Some(_) => Err(msg_duplicate_key(key)),
            None => Ok(BuildConfigView { script: Some(value), ..config }),
        }
    } else if key == "binary"@ {
        match config.binary {
            Some(_) => Err(msg_duplicate_key(key)),
            None => Ok(BuildConfigView { binary: Some(value), ..config }),
        }
    } else if key == "name"@ {
        match config.name {
            Some(_) => Err(msg_duplicate_key(key)),
            None => Ok(BuildConfigView { name: Some(value), ..config }),
        }
    } else {
        Err(msg_unknown_key(key))
    }
}

/// `config` after one line of `build.toml`. Blank lines and lines that
/// start with `#` (after white space) change nothing; any other line is
/// `key = "value"`, with white space allowed around the key, the `=` and
/// the value.
pub open spec fn config_line(config: BuildConfigView, line: Seq<char>) -> Result<
    BuildConfigView,
    Seq<char>,
> {
    let l = trim(line);
    if l.len() == 0 || l[0] == '#' {
        Ok(config)
    } else if !has_char(l, '=') {
        Err(msg_bad_line(l))
    } else {
        let i = first_index(l, '=');
        let key = trim(l.take(i));
        let value = trim(l.skip(i + 1));
        if !is_quoted(value) {
            Err(msg_bad_value(key))
        } else {
            with_key(config, key, value.subrange(1, value.len() - 1))
        }
    }
}

/// A text that holds `c` has a first `c`.
pub proof fn lemma_has_first_index(s: Seq<char>, c: char)
    requires
        has_char(s, c),
    ensures
        is_first_index(s, c, first_index(s, c)),
    decreases s.len(),
{
    if s[0] == c {
        crate::text::lemma_first_index(s, c, 0);
    } else {
        let w = choose|i: int| 0 <= i < s.len() && s[i] == c;
        let t = s.drop_first();
        assert(t[w - 1] == c);
        lemma_has_first_index(t, c);
        let j = first_index(t, c);
        assert forall|k: int| 0 <= k < j + 1 implies s[k] != c by {
            if k > 0 {
                assert(s[k] == t[k - 1]);
            }
        }
        assert(is_first_index(s, c, j + 1));
        crate::text::lemma_first_index(s, c, j + 1);
    }
}

/// `config` after the lines of `t`, in order; the first bad line ends it.
pub open spec fn config_from(config: BuildConfigView, t: Seq<char>) -> Result<
    BuildConfigView,
    Seq<char>,
>
    decreases t.len(),
{
    if has_char(t, '\n') {
        proof {
            lemma_has_first_index(t, '\n');
        }
        let i = first_index(t, '\n');
        match config_line(config, t.take(i)) {
            Ok(next) => config_from(next, t.skip(i + 1)),
            Err(e) => Err(e),
        }
    } else {
        config_line(config, t)
    }
}

/// A blank line changes nothing.
proof fn lemma_blank_line(config: BuildConfigView)
    ensures
        config_line(config, Seq::empty()) == Ok::<BuildConfigView, Seq<char>>(config),
{
    assert(crate::text::trim_start(Seq::<char>::empty()) == Seq::<char>::empty());
    assert(crate::text::trim_end(Seq::<char>::empty()) == Seq::<char>::empty());
}

/// Ending the last line with a newline or not makes no difference: every
/// line is applied, the last one too.
pub proof fn law_final_newline_changes_nothing(config: BuildConfigView, t: Seq<char>)
    ensures
        config_from(config, t) == config_from(config, t + seq!['\n']),
    decreases t.len(),
{
    let u = t + seq!['\n'];
    assert(u[t.len() as int] == '\n');
    lemma_has_first_index(u, '\n');
    if has_char(t, '\n') {
        lemma_has_first_index(t, '\n');
        let i = first_index(t, '\n');
        assert(is_first_index(u, '\n', i));
        crate::text::lemma_first_index(u, '\n', i);
        assert(u.take(i) =~= t.take(i));
        assert(u.skip(i + 1) =~= t.skip(i + 1) + seq!['\n']);
        match config_line(config, t.take(i)) {
            Ok(next) => {
                law_final_newline_changes_nothing(next, t.skip(i + 1));
                assert(config_from(config, u) == config_from(next, u.skip(i + 1)));
                assert(config_from(config, t) == config_from(next, t.skip(i + 1)));
            },
            Err(_) => {},
        }
    } else {
        assert forall|j: int| 0 <= j < t.len() implies t[j] != '\n' by {
            if t[j] == '\n' {
                assert(has_char(t, '\n'));
            }
        }
        assert(is_first_index(u, '\n', t.len() as int));
        crate::text::lemma_first_index(u, '\n', t.len() as int);
        assert(u.take(t.len() as int) =~= t);
        assert(u.skip(t.len() + 1int) =~= Seq::<char>::empty());
        match config_line(config, t) {
            Ok(next) => {
                assert(!has_char(Seq::<char>::empty(), '\n'));
                lemma_blank_line(next);
                assert(config_from(next, Seq::<char>::empty()) == Ok::<BuildConfigView, Seq<char>>(
                    next,
                ));
                assert(config_from(config, u) == config_from(next, u.skip(t.len() + 1int)));
            },
            Err(_) => {},
        }
    }
}

/// A `build.toml` reads the same whether or not its last line ends with a
/// newline.
pub proof fn law_build_config_ignores_final_newline(text: Seq<char>)
    ensures
        build_config_of(text) == build_config_of(text + seq!['\n']),
{
    law_final_newline_changes_nothing(no_config(), text);
}

/// What the text of a `build.toml` configures.
pub open spec fn build_config_of(text: Seq<char>) -> Result<BuildConfigView, Seq<char>> {
    config_from(no_config(), text)
}

/// The view of a configuration or an error.
pub open spec fn config_result(r: Result<BuildConfig, String>) -> Result<BuildConfigView, Seq<char>> {
    match r {
        Ok(c) => Ok(c@),
        Err(e) => Err(e@),
    }
}

fn set_key(config: BuildConfig, key: &str, value: String) -> (r: Result<BuildConfig, String>)
    ensures
        config_result(r) == with_key(config@, key@, value@),
{
    if same_text(key, "script") {
        match config.script {
            Some(_) => Err(cat3("duplicate key `", key, "` in build.toml")),
            None => Ok(BuildConfig { script: Some(value), ..config }),
        }
    } else if same_text(key, "binary") {
        match config.binary {
            Some(_) => Err(cat3("duplicate key `", key, "` in build.toml")),
            None => Ok(BuildConfig { binary: Some(value), ..config }),
        }
    } else if same_text(key, "name") {
        match config.name {
            Some(_) => Err(cat3("duplicate key `", key, "` in build.toml")),
            None => Ok(BuildConfig { name: Some(value), ..config }),
        }
    } else {
        Err(cat3("unknown key `", key, "` in build.toml"))
    }
}

fn apply_line(config: BuildConfig, line: &str) -> (r: Result<BuildConfig, String>)
    ensures
        config_result(r) == config_line(config@, line@),
{
    let l = trimmed(line);
    let lc = chars_of(l.as_str());
    if lc.len() == 0 || lc[0] == '#' {
        return Ok(config);
    }
    match find_first(&lc, '=') {
        None => Err(cat3("invalid line `", l.as_str(), "` in build.toml: expected `key = \"value\"`")),
        Some(i) => {
            let key = trimmed(string_of_range(&lc, 0, i).as_str());
            let value = trimmed(string_of_range(&lc, i + 1, lc.len()).as_str());
            assert(lc@.take(i as int) == lc@.subrange(0, i as int));
            assert(lc@.skip(i + 1) == lc@.subrange(i + 1, lc@.len() as int));
            let vc = chars_of(value.as_str());
            let n = vc.len();
            if n < 2 || vc[0] != '"' || vc[n - 1] != '"' {
                return Err(cat3("value of `", key.as_str(), "` in build.toml must be a double-quoted string"));
            }
            let inner = string_of_range(&vc, 1, n - 1);
            if contains_char(inner.as_str(), '"') || contains_char(inner.as_str(), '\\') {
                return Err(cat3("value of `", key.as_str(), "` in build.toml must be a double-quoted string"));
            }
            set_key(config, key.as_str(), inner)
        },
    }
}

/// Reads the text of a `build.toml`. The format is a small subset of TOML:
/// each line is blank, a comment starting with `#`, or `key = "value"` with
/// `key` one of `script`, `binary` and `name`, each at most once, and the
/// value a double-quoted string with no quote or backslash inside. Escape
/// sequences, single-quoted strings, tables and a comment after a value on
/// the same line are refused with an error.
pub fn parse_build_config(text: &str) -> (r: Result<BuildConfig, String>)
    ensures
        config_result(r) == build_config_of(text@),
{
    let mut config = default_config();
    let mut rest = owned(text);
    loop
        invariant
            config_from(no_config(), text@) == config_from(config@, rest@),
        decreases rest@.len(),
    {
        let cs = chars_of(rest.as_str());
        match find_first(&cs, '\n') {
            Some(i) => {
                let line = string_of_range(&cs, 0, i);
                assert(line@ == rest@.take(i as int));
                match apply_line(config, line.as_str()) {
                    Ok(next) => {
                        config = next;
                        let tail = string_of_range(&cs, i + 1, cs.len());
                        assert(tail@ == rest@.skip(i + 1));
                        rest = tail;
                    },
                    Err(e) => {
                        return Err(e);
                    },
                }
            },
            None => {
                return apply_line(config, rest.as_str());
            },
        }
    }
}

/// What a build that exited with failure reports, from its error output
/// and its standard output.
pub fn build_failure_details(stderr: &str, stdout: &str) -> (out: String)
    ensures
        out@ == build_details(stderr@, stdout@),
{
    let err = trimmed(stderr);
    let out = trimmed(stdout);
    if !err.as_str().is_empty() {
        err
    } else if !out.as_str().is_empty() {
        out
    } else {
        owned("build script exited with a non-zero status")
    }
}

} // verus!
