//! Activation scripts: shell code that puts the package manager's binaries
//! on `PATH`.
use crate::cli::ActivateCommand;
use crate::paths::{shim_bin_dir_of, StorePaths};
use crate::text::{cat3, chars_of, owned, push_char, push_str};
use vstd::prelude::*;

verus! {

/// How one character is written inside single quotes: a quote closes the
/// quoted text, is itself written in double quotes, and reopens it.
pub open spec fn sh_piece(c: char) -> Seq<char> {
    if c == '\'' {
        seq!['\'', '"', '\'', '"', '\'']
    } else {
        seq![c]
    }
}

/// The characters of `s`, each written as `sh_piece` writes it.
pub open spec fn sh_escape(s: Seq<char>) -> Seq<char>
    decreases s.len(),
{
    if s.len() == 0 {
        Seq::empty()
    } else {
        sh_escape(s.drop_last()) + sh_piece(s.last())
    }
}

/// `s` as one single-quoted shell word.
pub open spec fn sh_quoted(s: Seq<char>) -> Seq<char> {
    seq!['\''] + sh_escape(s) + seq!['\'']
}

/// How one character is written inside a Nushell double-quoted string.
pub open spec fn nu_piece(c: char) -> Seq<char> {
    if c == '\\' {
        seq!['\\', '\\']
    } else if c == '"' {
        seq!['\\', '"']
    } else {
        seq![c]
    }
}

/// The characters of `s`, each written as `nu_piece` writes it.
pub open spec fn nu_escape(s: Seq<char>) -> Seq<char>
    decreases s.len(),
{
    if s.len() == 0 {
        Seq::empty()
    } else {
        nu_escape(s.drop_last()) + nu_piece(s.last())
    }
}

/// `s` as one Nushell double-quoted string.
pub open spec fn nu_quoted(s: Seq<char>) -> Seq<char> {
    seq!['"'] + nu_escape(s) + seq!['"']
}

/// Quotes `value` as a single shell word (every `'` becomes `'"'"'`).
pub fn shell_single_quote(value: &str) -> (out: String)
    ensures
        out@ == sh_quoted(value@),
{
    let cs = chars_of(value);
    let mut out = String::new();
    push_char(&mut out, '\'');
    let mut i: usize = 0;
    while i < cs.len()
        invariant
            i <= cs@.len(),
            out@ == seq!['\''] + sh_escape(cs@.take(i as int)),
        decreases cs@.len() - i,
    {
        let c = cs[i];
        if c == '\'' {
            push_char(&mut out, '\'');
            push_char(&mut out, '"');
            push_char(&mut out, '\'');
            push_char(&mut out, '"');
            push_char(&mut out, '\'');
        } else {
            push_char(&mut out, c);
        }
        proof {
            assert(cs@.take(i + 1).drop_last() == cs@.take(i as int));
            assert(cs@.take(i + 1).last() == c);
        }
        i = i + 1;
    }
    push_char(&mut out, '\'');
    assert(cs@.take(cs@.len() as int) == cs@);
    out
}

/// Quotes `value` as a Nushell string (`\` and `"` are escaped with `\`).
pub fn nu_double_quote(value: &str) -> (out: String)
    ensures
        out@ == nu_quoted(value@),
{
    let cs = chars_of(value);
    let mut out = String::new();
    push_char(&mut out, '"');
    let mut i: usize = 0;
    while i < cs.len()
        invariant
            i <= cs@.len(),
            out@ == seq!['"'] + nu_escape(cs@.take(i as int)),
        decreases cs@.len() - i,
    {
        let c = cs[i];
        if c == '\\' {
            push_char(&mut out, '\\');
            push_char(&mut out, '\\');
        } else if c == '"' {
            push_char(&mut out, '\\');
            push_char(&mut out, '"');
        } else {
            push_char(&mut out, c);
        }
        proof {
            assert(cs@.take(i + 1).drop_last() == cs@.take(i as int));
            assert(cs@.take(i + 1).last() == c);
        }
        i = i + 1;
    }
    push_char(&mut out, '"');
    assert(cs@.take(cs@.len() as int) == cs@);
    out
}

/// The POSIX shell code that follows the two assignments of a
/// shim-directory activation script: it drops the shim directory from
/// `PATH` and puts it in front.
pub open spec fn sh_script_tail() -> Seq<char> {
    "\n_slox_filtered_path=\n_slox_old_ifs=$IFS\nIFS=:\nfor _slox_entry in $PATH; do\n  case \"$_slox_entry\" in\n    \"$_slox_store\"/bin|\"$_slox_store\"/bin/)\n      ;;\n    '')\n      ;;\n    *)\n      if [ -n \"$_slox_filtered_path\" ]; then\n        _slox_filtered_path=\"$_slox_filtered_path:$_slox_entry\"\n      else\n        _slox_filtered_path=\"$_slox_entry\"\n      fi\n      ;;\n  esac\ndone\nIFS=$_slox_old_ifs\nif [ -n \"$_slox_filtered_path\" ]; then\n  export PATH=\"$_slox_bin:$_slox_filtered_path\"\nelse\n  export PATH=\"$_slox_bin\"\nfi\nunset _slox_store _slox_bin _slox_filtered_path _slox_old_ifs _slox_entry"@
}

/// The Nushell code that follows the two `let`s of a shim-directory
/// activation script.
pub open spec fn nu_script_tail() -> Seq<char> {
    "\nlet slox_path_entries = (if (($env.PATH | describe) | str starts-with \"list\") {\n  $env.PATH\n} else {\n  $env.PATH | split row (char esep)\n})\n$env.PATH = (\n  $slox_path_entries\n  | each {|entry| $entry | into string }\n  | where {|entry|\n      ($entry != $\"($slox_store)/bin\")\n      and ($entry != $\"($slox_store)/bin/\")\n    }\n  | prepend $slox_bin\n)"@
}

/// The activation script for the shim directory of the store at `base`.
pub open spec fn shim_activation(base: Seq<char>, shell: ActivateCommand) -> Seq<char> {
    match shell {
        ActivateCommand::Nu => "let slox_store = "@ + nu_quoted(base) + "\nlet slox_bin = "@
            + nu_quoted(shim_bin_dir_of(base)) + nu_script_tail(),
        _ => "_slox_store="@ + sh_quoted(base) + "\n_slox_bin="@ + sh_quoted(
            shim_bin_dir_of(base),
        ) + sh_script_tail(),
    }
}

/// The activation script that puts the store's shim directory first on
/// `PATH`, with any earlier occurrence of it removed. It reads nothing
/// from disk and never fails.
pub fn activation_script(store: &StorePaths, cmd: ActivateCommand) -> (r: Result<String, String>)
    ensures
        r matches Ok(script) && script@ == shim_activation(store.base@, cmd),
{
    let bin_path = store.shim_bin_dir();
    let store_path = store.base.as_str();
    match cmd {
        ActivateCommand::Nu => {
            let mut out = owned("let slox_store = ");
            push_str(&mut out, nu_double_quote(store_path).as_str());
            push_str(&mut out, "\nlet slox_bin = ");
            push_str(&mut out, nu_double_quote(bin_path.as_str()).as_str());
            push_str(
                &mut out,
                "\nlet slox_path_entries = (if (($env.PATH | describe) | str starts-with \"list\") {\n  $env.PATH\n} else {\n  $env.PATH | split row (char esep)\n})\n$env.PATH = (\n  $slox_path_entries\n  | each {|entry| $entry | into string }\n  | where {|entry|\n      ($entry != $\"($slox_store)/bin\")\n      and ($entry != $\"($slox_store)/bin/\")\n    }\n  | prepend $slox_bin\n)",
            );
            Ok(out)
        },
        _ => {
            let mut out = owned("_slox_store=");
            push_str(&mut out, shell_single_quote(store_path).as_str());
            push_str(&mut out, "\n_slox_bin=");
            push_str(&mut out, shell_single_quote(bin_path.as_str()).as_str());
            push_str(
                &mut out,
                "\n_slox_filtered_path=\n_slox_old_ifs=$IFS\nIFS=:\nfor _slox_entry in $PATH; do\n  case \"$_slox_entry\" in\n    \"$_slox_store\"/bin|\"$_slox_store\"/bin/)\n      ;;\n    '')\n      ;;\n    *)\n      if [ -n \"$_slox_filtered_path\" ]; then\n        _slox_filtered_path=\"$_slox_filtered_path:$_slox_entry\"\n      else\n        _slox_filtered_path=\"$_slox_entry\"\n      fi\n      ;;\n  esac\ndone\nIFS=$_slox_old_ifs\nif [ -n \"$_slox_filtered_path\" ]; then\n  export PATH=\"$_slox_bin:$_slox_filtered_path\"\nelse\n  export PATH=\"$_slox_bin\"\nfi\nunset _slox_store _slox_bin _slox_filtered_path _slox_old_ifs _slox_entry",
            );
            Ok(out)
        },
    }
}

/// A directory path that ends with `/`: `dir` itself when it does, `dir`
/// with `/` appended otherwise.
pub open spec fn with_trailing_slash(dir: Seq<char>) -> Seq<char> {
    if dir.len() > 0 && dir.last() == '/' {
        dir
    } else {
        dir.push('/')
    }
}

/// The activation line that appends the directory `bin_dir` to `PATH`.
pub open spec fn direct_activation(bin_dir: Seq<char>, shell: ActivateCommand) -> Seq<char> {
    match shell {
        ActivateCommand::Nu => "$env.PATH = ($env.PATH | split row (char esep) | append \""@
            + with_trailing_slash(bin_dir) + "\")"@,
        _ => "export PATH=\"$PATH:"@ + with_trailing_slash(bin_dir) + "\""@,
    }
}

/// The activation line that appends the directory `bin_dir`, with a
/// trailing `/`, to `PATH`.
pub fn direct_activation_line(bin_dir: &str, cmd: ActivateCommand) -> (out: String)
    ensures
        out@ == direct_activation(bin_dir@, cmd),
{
    let cs = chars_of(bin_dir);
    let mut bin_path = owned(bin_dir);
    if !(cs.len() > 0 && cs[cs.len() - 1] == '/') {
        push_char(&mut bin_path, '/');
    }
    match cmd {
        ActivateCommand::Nu => cat3(
            "$env.PATH = ($env.PATH | split row (char esep) | append \"",
            bin_path.as_str(),
            "\")",
        ),
        _ => cat3("export PATH=\"$PATH:", bin_path.as_str(), "\""),
    }
}

/// A value without single quotes is written between two quotes and
/// otherwise unchanged.
pub proof fn law_plain_value_is_quoted_verbatim(s: Seq<char>)
    requires
        forall|i: int| 0 <= i < s.len() ==> s[i] != '\'',
    ensures
        sh_quoted(s) == seq!['\''] + s + seq!['\''],
    decreases s.len(),
{
    lemma_sh_escape_plain(s);
}

proof fn lemma_sh_escape_plain(s: Seq<char>)
    requires
        forall|i: int| 0 <= i < s.len() ==> s[i] != '\'',
    ensures
        sh_escape(s) == s,
    decreases s.len(),
{
    if s.len() > 0 {
        lemma_sh_escape_plain(s.drop_last());
        assert(s.drop_last().push(s.last()) == s);
    }
}

/// Where a reader of a shell word stands: outside quotes, inside single
/// quotes, or inside double quotes.
pub enum Quoting {
    Bare,
    Single,
    Double,
}

/// How a POSIX shell reads one more character of a word made of quoted
/// parts: the value so far and where it stands, or `None` for a word
/// outside this reading (unquoted characters, and the characters that
/// stay special inside double quotes).
pub open spec fn sh_step(read: Option<(Seq<char>, Quoting)>, c: char) -> Option<(Seq<char>, Quoting)> {
    match read {
        None => None,
        Some((v, q)) => match q {
            Quoting::Bare => if c == '\'' {
                Some((v, Quoting::Single))
            } else if c == '"' {
                Some((v, Quoting::Double))
            } else {
                None
            },
            Quoting::Single => if c == '\'' {
                Some((v, Quoting::Bare))
            } else {
                Some((v.push(c), Quoting::Single))
            },
            Quoting::Double => if c == '"' {
                Some((v, Quoting::Bare))
            } else if c == '\\' || c == '$' || c == '`' {
                None
            } else {
                Some((v.push(c), Quoting::Double))
            },
        },
    }
}

/// Reads a word from its first character to its last.
pub open spec fn sh_read(w: Seq<char>) -> Option<(Seq<char>, Quoting)>
    decreases w.len(),
{
    if w.len() == 0 {
        Some((Seq::empty(), Quoting::Bare))
    } else {
        sh_step(sh_read(w.drop_last()), w.last())
    }
}

/// The value of a shell word whose quotes are all closed.
pub open spec fn sh_word_value(w: Seq<char>) -> Option<Seq<char>> {
    match sh_read(w) {
        Some((v, Quoting::Bare)) => Some(v),
        _ => None,
    }
}

proof fn lemma_sh_read_open(v: Seq<char>)
    ensures
        sh_read(seq!['\''] + sh_escape(v)) == Some((v, Quoting::Single)),
    decreases v.len(),
{
    if v.len() == 0 {
        assert(v == Seq::<char>::empty());
        assert(seq!['\''] + sh_escape(v) == seq!['\'']);
        assert(seq!['\''].drop_last() == Seq::<char>::empty());
        assert(sh_read(Seq::<char>::empty()) == Some((Seq::<char>::empty(), Quoting::Bare)));
        assert(seq!['\''].last() == '\'');
        assert(sh_read(seq!['\'']) == Some((Seq::<char>::empty(), Quoting::Single)));
    } else {
        let rest = v.drop_last();
        let c = v.last();
        lemma_sh_read_open(rest);
        let w = seq!['\''] + sh_escape(rest);
        assert(v == rest.push(c));
        if c == '\'' {
            let p = seq!['\'', '"', '\'', '"', '\''];
            assert(seq!['\''] + sh_escape(v) == w + p);
            let w1 = w.push('\'');
            let w2 = w1.push('"');
            let w3 = w2.push('\'');
            let w4 = w3.push('"');
            let w5 = w4.push('\'');
            assert(w + p == w5);
            assert(w1.drop_last() == w);
            assert(w2.drop_last() == w1);
            assert(w3.drop_last() == w2);
            assert(w4.drop_last() == w3);
            assert(w5.drop_last() == w4);
            assert(sh_read(w1) == Some((rest, Quoting::Bare)));
            assert(sh_read(w2) == Some((rest, Quoting::Double)));
            assert(sh_read(w3) == Some((rest.push('\''), Quoting::Double)));
            assert(sh_read(w4) == Some((rest.push('\''), Quoting::Bare)));
            assert(sh_read(w5) == Some((rest.push('\''), Quoting::Single)));
            assert(sh_escape(v) == sh_escape(rest) + p);
        } else {
            assert(seq!['\''] + sh_escape(v) == w.push(c));
            assert(w.push(c).drop_last() == w);
            assert(w.push(c).last() == c);
            assert(sh_read(w.push(c)) == sh_step(sh_read(w), c));
            assert(sh_read(w.push(c)) == Some((rest.push(c), Quoting::Single)));
        }
    }
}

/// A shell reads back, from the single-quoted form of any value, exactly
/// that value: the activation script names the store and the shim
/// directory whatever characters their paths hold.
pub proof fn law_sh_quoting_reads_back(v: Seq<char>)
    ensures
        sh_word_value(sh_quoted(v)) == Some(v),
{
    lemma_sh_read_open(v);
    let w = seq!['\''] + sh_escape(v);
    assert(sh_quoted(v) == w.push('\''));
    assert(w.push('\'').drop_last() == w);
}

/// Where a reader of a Nushell double-quoted string stands.
pub enum NuQuoting {
    Outside,
    Inside,
    Escape,
}

/// How Nushell reads one more character of a double-quoted string; `None`
/// for text outside this reading (anything around the quotes, and escapes
/// other than `\\` and `\"`).
pub open spec fn nu_step(read: Option<(Seq<char>, NuQuoting)>, c: char) -> Option<(Seq<char>, NuQuoting)> {
    match read {
        None => None,
        Some((v, q)) => match q {
            NuQuoting::Outside => if c == '"' {
                Some((v, NuQuoting::Inside))
            } else {
                None
            },
            NuQuoting::Inside => if c == '"' {
                Some((v, NuQuoting::Outside))
            } else if c == '\\' {
                Some((v, NuQuoting::Escape))
            } else {
                Some((v.push(c), NuQuoting::Inside))
            },
            NuQuoting::Escape => if c == '\\' || c == '"' {
                Some((v.push(c), NuQuoting::Inside))
            } else {
                None
            },
        },
    }
}

pub open spec fn nu_read(w: Seq<char>) -> Option<(Seq<char>, NuQuoting)>
    decreases w.len(),
{
    if w.len() == 0 {
        Some((Seq::empty(), NuQuoting::Outside))
    } else {
        nu_step(nu_read(w.drop_last()), w.last())
    }
}

/// The value of a Nushell string literal, when it is one closed
/// double-quoted string.
pub open spec fn nu_string_value(w: Seq<char>) -> Option<Seq<char>> {
    match nu_read(w) {
        Some((v, NuQuoting::Outside)) => if w.len() > 0 {
            Some(v)
        } else {
            None
        },
        _ => None,
    }
}

proof fn lemma_nu_read_open(v: Seq<char>)
    ensures
        nu_read(seq!['"'] + nu_escape(v)) == Some((v, NuQuoting::Inside)),
    decreases v.len(),
{
    if v.len() == 0 {
        assert(v == Seq::<char>::empty());
        assert(seq!['"'] + nu_escape(v) == seq!['"']);
        assert(seq!['"'].drop_last() == Seq::<char>::empty());
        assert(nu_read(Seq::<char>::empty()) == Some((Seq::<char>::empty(), NuQuoting::Outside)));
        assert(seq!['"'].last() == '"');
        assert(nu_read(seq!['"']) == Some((Seq::<char>::empty(), NuQuoting::Inside)));
    } else {
        let rest = v.drop_last();
        let c = v.last();
        lemma_nu_read_open(rest);
        let w = seq!['"'] + nu_escape(rest);
        assert(v == rest.push(c));
        if c == '\\' || c == '"' {
            let w1 = w.push('\\');
            let w2 = w1.push(c);
            assert(seq!['"'] + nu_escape(v) == w2);
            assert(w1.drop_last() == w);
            assert(w2.drop_last() == w1);
            assert(nu_read(w1) == Some((rest, NuQuoting::Escape)));
            assert(w2.last() == c);
            assert(nu_read(w2) == Some((rest.push(c), NuQuoting::Inside)));
        } else {
            assert(seq!['"'] + nu_escape(v) == w.push(c));
            assert(w.push(c).drop_last() == w);
            assert(w.push(c).last() == c);
            assert(nu_read(w.push(c)) == Some((rest.push(c), NuQuoting::Inside)));
        }
    }
}

/// Nushell reads back, from the double-quoted form of any value, exactly
/// that value.
pub proof fn law_nu_quoting_reads_back(v: Seq<char>)
    ensures
        nu_string_value(nu_quoted(v)) == Some(v),
{
    lemma_nu_read_open(v);
    let w = seq!['"'] + nu_escape(v);
    assert(nu_quoted(v) == w.push('"'));
    assert(w.push('"').drop_last() == w);
}

/// The shared part of the sh script begins a new line.
pub proof fn lemma_sh_tail_starts_a_line()
    ensures
        sh_script_tail().len() > 0,
        sh_script_tail()[0] == '\n',
{
    reveal_strlit("\n_slox_filtered_path=\n_slox_old_ifs=$IFS\nIFS=:\nfor _slox_entry in $PATH; do\n  case \"$_slox_entry\" in\n    \"$_slox_store\"/bin|\"$_slox_store\"/bin/)\n      ;;\n    '')\n      ;;\n    *)\n      if [ -n \"$_slox_filtered_path\" ]; then\n        _slox_filtered_path=\"$_slox_filtered_path:$_slox_entry\"\n      else\n        _slox_filtered_path=\"$_slox_entry\"\n      fi\n      ;;\n  esac\ndone\nIFS=$_slox_old_ifs\nif [ -n \"$_slox_filtered_path\" ]; then\n  export PATH=\"$_slox_bin:$_slox_filtered_path\"\nelse\n  export PATH=\"$_slox_bin\"\nfi\nunset _slox_store _slox_bin _slox_filtered_path _slox_old_ifs _slox_entry");
}

/// For sh, bash and zsh the activation script is one and the same, and its
/// first two lines name the store and, as the directory to put first on
/// `PATH`, the store's `bin` directory of shims: `_slox_store='<base>'` and
/// `_slox_bin='<base>/bin'`.
pub proof fn law_sh_activation_puts_shims_on_path(base: Seq<char>, shell: ActivateCommand)
    requires
        !(shell is Nu),
    ensures
        shim_activation(base, shell) == shim_activation(base, ActivateCommand::Bash),
        ({
            let head = "_slox_store="@ + sh_quoted(base) + "\n_slox_bin="@ + sh_quoted(
                crate::paths::join(base, "bin"@),
            ) + "\n"@;
            shim_activation(base, shell).take(head.len() as int) == head
        }),
{
    lemma_sh_tail_starts_a_line();
    reveal_strlit("\n");
    let line = "_slox_store="@ + sh_quoted(base) + "\n_slox_bin="@ + sh_quoted(
        crate::paths::join(base, "bin"@),
    );
    let head = line + "\n"@;
    let script = shim_activation(base, shell);
    assert(script == line + sh_script_tail());
    assert(script.take(head.len() as int) =~= head);
}

} // verus!
