//! Character-level helpers: building strings, searching for a character,
//! and trimming Unicode white space.
use vstd::prelude::*;

verus! {

/// Appends one character to a string (`String::push`).
#[verifier::external_body]
pub fn push_char(s: &mut String, c: char)
    ensures
        final(s)@ == old(s)@.push(c),
{
    s.push(c);
}

/// Appends a string slice to a string.
pub fn push_str(s: &mut String, t: &str)
    ensures
        final(s)@ == old(s)@ + t@,
{
    s.append(t);
}

/// A fresh string holding the characters of `s`.
pub fn owned(s: &str) -> (out: String)
    ensures
        out@ == s@,
{
    s.to_owned()
}

/// The characters of a string slice, in order.
pub fn chars_of(s: &str) -> (out: Vec<char>)
    ensures
        out@ == s@,
{
    let mut out: Vec<char> = Vec::new();
    for c in it: s.chars()
        invariant
            out@ == it.seq().take(it.index() as int),
            it.seq() == s@,
    {
        out.push(c);
    }
    out
}

/// A string made of the characters `cs[from..to]`.
pub fn string_of_range(cs: &Vec<char>, from: usize, to: usize) -> (out: String)
    requires
        from <= to <= cs@.len(),
    ensures
        out@ == cs@.subrange(from as int, to as int),
{
    let mut out = String::new();
    let mut i = from;
    while i < to
        invariant
            from <= i <= to <= cs@.len(),
            out@ == cs@.subrange(from as int, i as int),
        decreases to - i,
    {
        push_char(&mut out, cs[i]);
        assert(cs@.subrange(from as int, i + 1) == cs@.subrange(from as int, i as int).push(cs@[i as int]));
        i = i + 1;
    }
    out
}

/// A string made of all the characters of `cs`.
pub fn string_of(cs: &Vec<char>) -> (out: String)
    ensures
        out@ == cs@,
{
    let out = string_of_range(cs, 0, cs.len());
    assert(cs@.subrange(0, cs@.len() as int) == cs@);
    out
}

/// `a` followed by `b`, as a new string.
pub fn cat(a: &str, b: &str) -> (out: String)
    ensures
        out@ == a@ + b@,
{
    let mut out = owned(a);
    push_str(&mut out, b);
    out
}

/// `a`, `b` and `c` one after another, as a new string.
pub fn cat3(a: &str, b: &str, c: &str) -> (out: String)
    ensures
        out@ == a@ + b@ + c@,
{
    let mut out = owned(a);
    push_str(&mut out, b);
    push_str(&mut out, c);
    out
}

/// `a`, `b`, `c` and `d` one after another, as a new string.
pub fn cat4(a: &str, b: &str, c: &str, d: &str) -> (out: String)
    ensures
        out@ == a@ + b@ + c@ + d@,
{
    let mut out = owned(a);
    push_str(&mut out, b);
    push_str(&mut out, c);
    push_str(&mut out, d);
    out
}

/// `a`, `b`, `c`, `d` and `e` one after another, as a new string.
pub fn cat5(a: &str, b: &str, c: &str, d: &str, e: &str) -> (out: String)
    ensures
        out@ == a@ + b@ + c@ + d@ + e@,
{
    let mut out = owned(a);
    push_str(&mut out, b);
    push_str(&mut out, c);
    push_str(&mut out, d);
    push_str(&mut out, e);
    out
}

/// Whether `s` holds the character `c` at some position.
pub open spec fn has_char(s: Seq<char>, c: char) -> bool {
    exists|i: int| 0 <= i < s.len() && s[i] == c
}

/// `i` is the position of the first `c` in `s`.
pub open spec fn is_first_index(s: Seq<char>, c: char, i: int) -> bool {
    &&& 0 <= i < s.len()
    &&& s[i] == c
    &&& forall|j: int| 0 <= j < i ==> s[j] != c
}

/// `i` is the position of the last `c` in `s`.
pub open spec fn is_last_index(s: Seq<char>, c: char, i: int) -> bool {
    &&& 0 <= i < s.len()
    &&& s[i] == c
    &&& forall|j: int| i < j < s.len() ==> s[j] != c
}

/// The position of the first `c` in `s`, or -1 when `s` holds none.
pub open spec fn first_index(s: Seq<char>, c: char) -> int {
    if has_char(s, c) {
        choose|i: int| is_first_index(s, c, i)
    } else {
        -1
    }
}

/// The position of the last `c` in `s`, or -1 when `s` holds none.
pub open spec fn last_index(s: Seq<char>, c: char) -> int {
    if has_char(s, c) {
        choose|i: int| is_last_index(s, c, i)
    } else {
        -1
    }
}

/// A first position exists whenever the character occurs, and it is unique.
pub proof fn lemma_first_index(s: Seq<char>, c: char, i: int)
    requires
        is_first_index(s, c, i),
    ensures
        first_index(s, c) == i,
{
    assert(has_char(s, c));
    let k = choose|k: int| is_first_index(s, c, k);
    assert(is_first_index(s, c, k));
    if k < i {
        assert(s[k] != c);
    }
    if i < k {
        assert(s[i] != c);
    }
}

/// A last position exists whenever the character occurs, and it is unique.
pub proof fn lemma_last_index(s: Seq<char>, c: char, i: int)
    requires
        is_last_index(s, c, i),
    ensures
        last_index(s, c) == i,
{
    assert(has_char(s, c));
    let k = choose|k: int| is_last_index(s, c, k);
    assert(is_last_index(s, c, k));
    if k < i {
        assert(s[i] != c);
    }
    if i < k {
        assert(s[k] != c);
    }
}

/// The position of the first `c` in `cs`, if there is one.
pub fn find_first(cs: &Vec<char>, c: char) -> (r: Option<usize>)
    ensures
        match r {
            Some(i) => first_index(cs@, c) == i as int && is_first_index(cs@, c, i as int),
            None => first_index(cs@, c) == -1 && !has_char(cs@, c),
        },
{
    let mut i: usize = 0;
    while i < cs.len()
        invariant
            i <= cs@.len(),
            forall|j: int| 0 <= j < i ==> cs@[j] != c,
        decreases cs@.len() - i,
    {
        if cs[i] == c {
            proof {
                lemma_first_index(cs@, c, i as int);
            }
            return Some(i);
        }
        i = i + 1;
    }
    None
}

/// The position of the last `c` in `cs`, if there is one.
pub fn find_last(cs: &Vec<char>, c: char) -> (r: Option<usize>)
    ensures
        match r {
            Some(i) => last_index(cs@, c) == i as int && is_last_index(cs@, c, i as int),
            None => last_index(cs@, c) == -1 && !has_char(cs@, c),
        },
{
    let mut i: usize = cs.len();
    while i > 0
        invariant
            i <= cs@.len(),
            forall|j: int| i <= j < cs@.len() ==> cs@[j] != c,
        decreases i,
    {
        if cs[i - 1] == c {
            proof {
                lemma_last_index(cs@, c, i - 1);
            }
            return Some(i - 1);
        }
        i = i - 1;
    }
    None
}

/// Whether `s` holds the character `c`.
pub fn contains_char(s: &str, c: char) -> (r: bool)
    ensures
        r == has_char(s@, c),
{
    let cs = chars_of(s);
    let found = find_first(&cs, c);
    found.is_some()
}

/// Unicode `White_Space`, the set of characters that `char::is_whitespace`
/// accepts and that `str::trim` removes.
pub open spec fn is_white_space(c: char) -> bool {
    let u = c as u32;
    ||| 0x09 <= u <= 0x0D
    ||| u == 0x20
    ||| u == 0x85
    ||| u == 0xA0
    ||| u == 0x1680
    ||| 0x2000 <= u <= 0x200A
    ||| u == 0x2028
    ||| u == 0x2029
    ||| u == 0x202F
    ||| u == 0x205F
    ||| u == 0x3000
}

/// Whether `c` is Unicode white space.
pub fn white_space(c: char) -> (r: bool)
    ensures
        r == is_white_space(c),
{
    let u = c as u32;
    (0x09 <= u && u <= 0x0D) || u == 0x20 || u == 0x85 || u == 0xA0 || u == 0x1680 || (0x2000
        <= u && u <= 0x200A) || u == 0x2028 || u == 0x2029 || u == 0x202F || u == 0x205F || u
        == 0x3000
}

/// `s` without its leading white space.
pub open spec fn trim_start(s: Seq<char>) -> Seq<char>
    decreases s.len(),
{
    if s.len() > 0 && is_white_space(s[0]) {
        trim_start(s.drop_first())
    } else {
        s
    }
}

/// `s` without its trailing white space.
pub open spec fn trim_end(s: Seq<char>) -> Seq<char>
    decreases s.len(),
{
    if s.len() > 0 && is_white_space(s.last()) {
        trim_end(s.drop_last())
    } else {
        s
    }
}

/// `s` without leading and trailing white space, as `str::trim` gives it.
pub open spec fn trim(s: Seq<char>) -> Seq<char> {
    trim_end(trim_start(s))
}

/// Whether `s` neither starts nor ends with white space.
pub open spec fn is_trimmed(s: Seq<char>) -> bool {
    s.len() > 0 ==> !is_white_space(s[0]) && !is_white_space(s.last())
}

proof fn lemma_trim_start_skip(s: Seq<char>, i: int)
    requires
        0 <= i < s.len(),
        is_white_space(s[i]),
    ensures
        trim_start(s.subrange(i, s.len() as int)) == trim_start(s.subrange(i + 1, s.len() as int)),
{
    let t = s.subrange(i, s.len() as int);
    assert(t.drop_first() == s.subrange(i + 1, s.len() as int));
}

/// Appending white space at the end does not change the trim.
pub proof fn lemma_trim_trailing_white_space(s: Seq<char>, c: char)
    requires
        is_white_space(c),
        s.len() > 0,
        !is_white_space(s[0]),
    ensures
        trim(s.push(c)) == trim(s),
{
    let t = s.push(c);
    assert(trim_start(t) == t);
    assert(trim_start(s) == s);
    assert(t.drop_last() == s);
}

/// The characters of `s` with leading and trailing white space removed
/// (`str::trim`).
pub fn trimmed(s: &str) -> (out: String)
    ensures
        out@ == trim(s@),
{
    let cs = chars_of(s);
    let n = cs.len();
    let mut i: usize = 0;
    assert(cs@.subrange(0, n as int) == cs@);
    while i < n && white_space(cs[i])
        invariant
            i <= n == cs@.len(),
            trim_start(cs@) == trim_start(cs@.subrange(i as int, n as int)),
        decreases n - i,
    {
        proof {
            lemma_trim_start_skip(cs@, i as int);
        }
        i = i + 1;
    }
    assert(cs@.subrange(0, n as int) == cs@);
    let ghost rest = cs@.subrange(i as int, n as int);
    assert(trim_start(rest) == rest);
    let mut j: usize = n;
    while j > i && white_space(cs[j - 1])
        invariant
            i <= j <= n == cs@.len(),
            trim_end(rest) == trim_end(cs@.subrange(i as int, j as int)),
        decreases j,
    {
        proof {
            let sub = cs@.subrange(i as int, j as int);
            assert(sub.drop_last() == cs@.subrange(i as int, j - 1));
        }
        j = j - 1;
    }
    let out = string_of_range(&cs, i, j);
    proof {
        let sub = cs@.subrange(i as int, j as int);
        if sub.len() > 0 {
            assert(sub.last() == cs@[j - 1]);
        }
        assert(trim_end(sub) == sub);
    }
    out
}

} // verus!
