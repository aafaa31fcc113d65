use vstd::prelude::*;
use vstd::string::*;

verus! {

pub assume_specification[ String::push ](s: &mut String, ch: char)
    ensures
        final(s)@ == old(s)@.push(ch),
;

/// `line` without one trailing carriage return, if it has one.
pub open spec fn trim_cr(line: Seq<char>) -> Seq<char> {
    if line.len() > 0 && line.last() == '\r' {
        line.drop_last()
    } else {
        line
    }
}

/// Reading `s` from the left: the lines finished so far (each ended by a line feed, a
/// carriage return just before it removed) and the characters of the line not yet ended.
pub open spec fn line_split_state(s: Seq<char>) -> (Seq<Seq<char>>, Seq<char>)
    decreases s.len(),
{
    if s.len() == 0 {
        (seq![], seq![])
    } else {
        let (done, cur) = line_split_state(s.drop_last());
        if s.last() == '\n' {
            (done.push(trim_cr(cur)), seq![])
        } else {
            (done, cur.push(s.last()))
        }
    }
}

/// The lines of `s`: split at each line feed, a carriage return just before a line feed
/// dropped, and the final line ending optional.
pub open spec fn spec_lines(s: Seq<char>) -> Seq<Seq<char>> {
    let (done, cur) = line_split_state(s);
    if cur.len() > 0 {
        done.push(cur)
    } else {
        done
    }
}

/// `s` with `p` removed from its front, where `p` is a prefix of `s`.
pub open spec fn spec_strip_prefix(s: Seq<char>, p: Seq<char>) -> Option<Seq<char>> {
    if p.is_prefix_of(s) {
        Some(s.skip(p.len() as int))
    } else {
        None
    }
}

/// `s` with `c` inserted at position `at`, or appended when `at` is past its end.
pub open spec fn spec_insert_char(s: Seq<char>, at: nat, c: char) -> Seq<char> {
    if at < s.len() {
        s.insert(at as int, c)
    } else {
        s.push(c)
    }
}

pub open spec fn views_of(v: Seq<String>) -> Seq<Seq<char>> {
    v.map_values(|x: String| x@)
}

pub open spec fn char_views_of(v: Seq<Vec<char>>) -> Seq<Seq<char>> {
    v.map_values(|x: Vec<char>| x@)
}

/// The characters of `s`, in order.
pub fn to_chars(s: &str) -> (res: Vec<char>)
    ensures
        res@ == s@,
{
    let mut res: Vec<char> = Vec::new();
    for c in it: s.chars()
        invariant
            it.seq() == s@,
            res@ == it.seq().take(it.index() as int),
    {
        res.push(c);
    }
    res
}

/// A string made of the characters of `v`, in order.
pub fn from_chars(v: &Vec<char>) -> (res: String)
    ensures
        res@ == v@,
{
    let mut res = String::new();
    let mut i: usize = 0;
    while i < v.len()
        invariant
            i <= v.len(),
            res@ == v@.take(i as int),
        decreases v.len() - i,
    {
        res.push(v[i]);
        i = i + 1;
        assert(v@.take(i as int) =~= v@.take(i - 1).push(v@[i - 1]));
    }
    assert(v@.take(v.len() as int) =~= v@);
    res
}

/// An owned copy of `s`.
pub fn copy_str(s: &str) -> (res: String)
    ensures
        res@ == s@,
{
    s.to_owned()
}

/// Whether `a` and `b` hold the same characters.
pub fn str_eq(a: &str, b: &str) -> (res: bool)
    ensures
        res == (a@ == b@),
{
    let x = to_chars(a);
    let y = to_chars(b);
    chars_eq(&x, &y)
}

/// Whether `a` and `b` hold the same characters.
pub fn chars_eq(a: &Vec<char>, b: &Vec<char>) -> (res: bool)
    ensures
        res == (a@ == b@),
{
    if a.len() != b.len() {
        return false;
    }
    let mut i: usize = 0;
    while i < a.len()
        invariant
            a.len() == b.len(),
            i <= a.len(),
            forall|j: int| 0 <= j < i ==> a@[j] == b@[j],
        decreases a.len() - i,
    {
        if a[i] != b[i] {
            return false;
        }
        i = i + 1;
    }
    assert(a@ =~= b@);
    true
}

/// The characters of `s` after the prefix `p`, if `s` starts with `p`.
pub fn strip_prefix_chars(s: &Vec<char>, p: &Vec<char>) -> (res: Option<Vec<char>>)
    ensures
        match res {
            Some(r) => spec_strip_prefix(s@, p@) == Some(r@),
            None => spec_strip_prefix(s@, p@) is None,
        },
{
    if p.len() > s.len() {
        return None;
    }
    let mut i: usize = 0;
    while i < p.len()
        invariant
            p.len() <= s.len(),
            i <= p.len(),
            forall|j: int| 0 <= j < i ==> p@[j] == s@[j],
        decreases p.len() - i,
    {
        if p[i] != s[i] {
            return None;
        }
        i = i + 1;
    }
    let mut rest: Vec<char> = Vec::new();
    let mut k: usize = p.len();
    while k < s.len()
        invariant
            p.len() <= k <= s.len(),
            rest@ == s@.subrange(p.len() as int, k as int),
        decreases s.len() - k,
    {
        rest.push(s[k]);
        k = k + 1;
        assert(rest@ =~= s@.subrange(p.len() as int, k as int));
    }
    assert(rest@ =~= s@.skip(p.len() as int));
    Some(rest)
}

/// The lines of the character sequence `s` (see `spec_lines`).
pub fn split_lines(s: &Vec<char>) -> (res: Vec<Vec<char>>)
    ensures
        char_views_of(res@) == spec_lines(s@),
{
    let mut done: Vec<Vec<char>> = Vec::new();
    let mut cur: Vec<char> = Vec::new();
    let mut i: usize = 0;
    while i < s.len()
        invariant
            i <= s.len(),
            line_split_state(s@.take(i as int)) == (char_views_of(done@), cur@),
        decreases s.len() - i,
    {
        let c = s[i];
        proof {
            assert(s@.take(i + 1).drop_last() =~= s@.take(i as int));
        }
        if c == '\n' {
            let ghost before = cur@;
            if cur.len() > 0 && cur[cur.len() - 1] == '\r' {
                cur.pop();
            }
            assert(cur@ == trim_cr(before));
            let line = cur;
            done.push(line);
            cur = Vec::new();
            assert(char_views_of(done@) =~= char_views_of(done@.drop_last()).push(trim_cr(before)));
        } else {
            cur.push(c);
        }
        i = i + 1;
    }
    assert(s@.take(s.len() as int) =~= s@);
    if cur.len() > 0 {
        let ghost before = char_views_of(done@);
        done.push(cur);
        assert(char_views_of(done@) =~= before.push(done@.last()@));
    }
    done
}

/// The lines of `s` (see `spec_lines`), each as a string.
pub fn lines(s: &str) -> (res: Vec<String>)
    ensures
        views_of(res@) == spec_lines(s@),
{
    let chars = to_chars(s);
    let split = split_lines(&chars);
    let mut res: Vec<String> = Vec::new();
    let mut i: usize = 0;
    while i < split.len()
        invariant
            i <= split.len(),
            views_of(res@) == char_views_of(split@).take(i as int),
        decreases split.len() - i,
    {
        let line = from_chars(&split[i]);
        let ghost prev = res@;
        res.push(line);
        assert(res@ =~= prev.push(line));
        assert(views_of(res@) =~= views_of(prev).push(split@[i as int]@));
        i = i + 1;
        assert(views_of(res@) =~= char_views_of(split@).take(i as int));
    }
    assert(char_views_of(split@).take(split.len() as int) =~= char_views_of(split@));
    res
}

/// `s` with `c` inserted at character position `at` (appended when `at` is past the end).
pub fn insert_char(s: &str, at: usize, c: char) -> (res: String)
    ensures
        res@ == spec_insert_char(s@, at as nat, c),
{
    let chars = to_chars(s);
    let mut out: Vec<char> = Vec::new();
    let mut i: usize = 0;
    let stop = if at < chars.len() { at } else { chars.len() };
    while i < stop
        invariant
            stop <= chars.len(),
            i <= stop,
            out@ == chars@.take(i as int),
        decreases stop - i,
    {
        out.push(chars[i]);
        i = i + 1;
        assert(out@ =~= chars@.take(i as int));
    }
    out.push(c);
    while i < chars.len()
        invariant
            stop <= i <= chars.len(),
            out@ == chars@.take(stop as int).push(c) + chars@.subrange(stop as int, i as int),
        decreases chars.len() - i,
    {
        out.push(chars[i]);
        i = i + 1;
        assert(out@ =~= chars@.take(stop as int).push(c) + chars@.subrange(stop as int, i as int));
    }
    assert(out@ =~= spec_insert_char(s@, at as nat, c));
    from_chars(&out)
}

/// `s` with the character at position `at` removed.
pub fn remove_char(s: &str, at: usize) -> (res: String)
    requires
        at < s@.len(),
    ensures
        res@ == s@.remove(at as int),
{
    let chars = to_chars(s);
    let mut out: Vec<char> = Vec::new();
    let mut i: usize = 0;
    while i < chars.len()
        invariant
            at < chars.len(),
            i <= chars.len(),
            out@ == (if i <= at { chars@.take(i as int) } else { chars@.take(i as int).remove(at as int) }),
        decreases chars.len() - i,
    {
        if i != at {
            out.push(chars[i]);
        }
        i = i + 1;
        assert(out@ =~= (if i <= at { chars@.take(i as int) } else { chars@.take(i as int).remove(at as int) }));
    }
    assert(chars@.take(chars.len() as int) =~= chars@);
    from_chars(&out)
}

/// The number of characters in `s`.
pub fn char_count(s: &str) -> (n: usize)
    ensures
        n == s@.len(),
{
    s.unicode_len()
}

} // verus!
