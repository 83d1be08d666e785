//! The active environment: how it is recorded in the store and read back.
use crate::text::{is_trimmed, is_white_space, lemma_trim_trailing_white_space, push_char, owned, trim, trimmed};
use vstd::prelude::*;

verus! {

/// The environment that the contents of the active-environment file
/// name: the contents without surrounding white space, or none when
/// nothing else is left.
pub open spec fn active_name_in(contents: Seq<char>) -> Option<Seq<char>> {
    if trim(contents).len() == 0 {
        None
    } else {
        Some(trim(contents))
    }
}

/// What selecting the environment `name` writes to the active-environment
/// file: the name and a newline.
pub open spec fn active_file_text(name: Seq<char>) -> Seq<char> {
    name.push('\n')
}

/// The environment named by `contents`, read from the active-environment
/// file.
pub fn active_env_name_in(contents: &str) -> (name: Option<String>)
    ensures
        match name {
            Some(n) => active_name_in(contents@) == Some(n@),
            None => active_name_in(contents@) == None::<Seq<char>>,
        },
{
    let t = trimmed(contents);
    if t.as_str().is_empty() {
        None
    } else {
        Some(t)
    }
}

/// The contents that record `name` as the active environment.
pub fn active_env_file_text(name: &str) -> (text: String)
    ensures
        text@ == active_file_text(name@),
{
    let mut text = owned(name);
    push_char(&mut text, '\n');
    text
}

/// Selecting an environment and reading the record back gives the same
/// environment, for every name that is non-empty and neither starts nor
/// ends with white space.
pub proof fn law_selected_name_reads_back(name: Seq<char>)
    requires
        name.len() > 0,
        is_trimmed(name),
    ensures
        active_name_in(active_file_text(name)) == Some(name),
{
    assert(is_white_space('\n')) by {
        assert('\n' as u32 == 10);
    }
    lemma_trim_trailing_white_space(name, '\n');
}

/// A record that holds only white space names no environment, so the
/// root binaries are used.
pub proof fn law_blank_record_names_nothing(contents: Seq<char>)
    requires
        forall|i: int| 0 <= i < contents.len() ==> is_white_space(contents[i]),
    ensures
        active_name_in(contents) == None::<Seq<char>>,
    decreases contents.len(),
{
    lemma_blank_trim_start(contents);
}

proof fn lemma_blank_trim_start(s: Seq<char>)
    requires
        forall|i: int| 0 <= i < s.len() ==> is_white_space(s[i]),
    ensures
        crate::text::trim_start(s).len() == 0,
    decreases s.len(),
{
    if s.len() > 0 {
        assert(is_white_space(s[0]));
        lemma_blank_trim_start(s.drop_first());
    }
}

} // verus!
