//! Character-level helpers on strings, shared by the listeners and notifiers.
use vstd::prelude::*;
use vstd::std_specs::iter::IteratorSpec;
use vstd::utf8::{decode_utf8, valid_utf8};

verus! {

/// `String::push` appends the given character to the end of the string.
pub assume_specification[ String::push ](s: &mut String, ch: char)
    ensures
        final(s)@ == old(s)@.push(ch),
;

/// `==` on string slices holds exactly when both hold the same characters.
pub assume_specification[ <str as PartialEq>::eq ](a: &str, b: &str) -> (r: bool)
    ensures
        r == (a@ == b@),
;

/// What the first capture group of the leftmost match of the regular
/// expression `pattern` in `text` holds.
pub uninterp spec fn first_group_match(pattern: Seq<char>, text: Seq<char>) -> Option<Seq<char>>;

/// `regex::Regex::new` compiles the pattern, `Regex::captures` finds the
/// leftmost match in the text and `Captures::get` gives the part that the
/// first group matched. There is none where the pattern does not compile,
/// nothing matches, or the group took no part in the match.
#[verifier::external_body]
pub(crate) fn first_group(pattern: &str, text: &str) -> (found: Option<String>)
    ensures
        found.deep_view() == first_group_match(pattern@, text@),
{
    let compiled = regex::Regex::new(pattern).ok()?;
    compiled.captures(text).and_then(|groups| groups.get(1)).map(|part| part.as_str().to_string())
}

/// Whether a character is white space: one of the code points that have the
/// Unicode property White_Space. These are the tab, the line feed, the
/// vertical tab, the form feed and the carriage return, the blank, the next
/// line control, the no-break blank, the Ogham space mark, the blanks of the
/// general punctuation block, the line and the paragraph separator, the
/// narrow no-break blank, the medium mathematical blank and the ideographic
/// blank.
pub open spec fn is_white_space(c: char) -> bool {
    let code = c as u32;
    (0x09 <= code <= 0x0d) || code == 0x20 || code == 0x85 || code == 0xa0 || code == 0x1680 || (
    0x2000 <= code <= 0x200a) || code == 0x2028 || code == 0x2029 || code == 0x202f || code
        == 0x205f || code == 0x3000
}

/// `char::is_whitespace` tells whether the character has the Unicode
/// property White_Space.
pub assume_specification[ char::is_whitespace ](c: char) -> (r: bool)
    ensures
        r == is_white_space(c),
;

/// `String::from_utf8` gives the text that the bytes encode where they are
/// valid UTF-8, and fails where they are not.
#[verifier::external_body]
pub(crate) fn utf8_text(bytes: Vec<u8>) -> (text: Option<String>)
    ensures
        match text {
            Some(t) => valid_utf8(bytes@) && t@ == decode_utf8(bytes@),
            None => !valid_utf8(bytes@),
        },
{
    String::from_utf8(bytes).ok()
}

/// The characters of `s`, in order.
pub fn chars_of(s: &str) -> (out: Vec<char>)
    ensures
        out@ == s@,
{
    let mut out: Vec<char> = Vec::new();
    let mut it = s.chars();
    proof {
        vstd::string::axiom_spec_iter(s);
    }
    loop
        invariant
            it.obeys_prophetic_iter_laws(),
            out@ + it.remaining() == s@,
            it.decrease() is Some,
        decreases it.decrease()->0,
    {
        let ghost before = it;
        let next = it.next();
        proof {
            vstd::string::next_postcondition(&before, &it, next);
        }
        match next {
            Some(c) => {
                proof {
                    assert(out@.push(c) + it.remaining() =~= out@ + before.remaining());
                }
                out.push(c);
            },
            None => {
                assert(out@ =~= s@);
                return out;
            },
        }
    }
}

/// The string whose characters are `chars`, in order.
pub fn string_of(chars: &Vec<char>) -> (out: String)
    ensures
        out@ == chars@,
{
    let mut out = String::new();
    let mut i: usize = 0;
    while i < chars.len()
        invariant
            i <= chars.len(),
            out@ == chars@.subrange(0, i as int),
        decreases chars.len() - i,
    {
        out.push(chars[i]);
        i += 1;
        assert(out@ =~= chars@.subrange(0, i as int));
    }
    assert(chars@.subrange(0, chars.len() as int) =~= chars@);
    out
}

/// Whether two string slices hold the same characters.
pub fn same_text(a: &str, b: &str) -> (r: bool)
    ensures
        r == (a@ == b@),
{
    *a == *b
}

/// The code of a character, with the upper-case letters of ASCII taken for
/// their lower-case forms.
pub open spec fn folded(c: char) -> u32 {
    if 0x41 <= c as u32 <= 0x5a {
        (c as u32 + 32) as u32
    } else {
        c as u32
    }
}

/// Whether two texts are the same but for the case of the letters of ASCII.
pub open spec fn same_but_case(a: Seq<char>, b: Seq<char>) -> bool {
    a.len() == b.len() && forall|i: int| 0 <= i < a.len() ==> folded(a[i]) == folded(b[i])
}

fn fold(c: char) -> (code: u32)
    ensures
        code == folded(c),
{
    let code = c as u32;
    if 0x41 <= code && code <= 0x5a {
        code + 32
    } else {
        code
    }
}

/// Whether two string slices are the same but for the case of the letters of
/// ASCII.
pub fn same_text_but_case(a: &str, b: &str) -> (r: bool)
    ensures
        r == same_but_case(a@, b@),
{
    let first = chars_of(a);
    let second = chars_of(b);
    if first.len() != second.len() {
        return false;
    }
    let mut i: usize = 0;
    while i < first.len()
        invariant
            i <= first.len(),
            first.len() == second.len(),
            first@ == a@,
            second@ == b@,
            forall|j: int| 0 <= j < i ==> folded(a@[j]) == folded(b@[j]),
        decreases first.len() - i,
    {
        if fold(first[i]) != fold(second[i]) {
            return false;
        }
        i += 1;
    }
    true
}

/// An empty list of strings.
pub fn no_names() -> (out: Vec<String>)
    ensures
        out.deep_view() == Seq::<Seq<char>>::empty(),
{
    let out: Vec<String> = Vec::new();
    assert(out.deep_view() =~= Seq::<Seq<char>>::empty());
    out
}

/// A copy of a list of strings.
pub fn clone_names(names: &Vec<String>) -> (out: Vec<String>)
    ensures
        out.deep_view() == names.deep_view(),
{
    let mut out: Vec<String> = Vec::new();
    let mut i: usize = 0;
    while i < names.len()
        invariant
            i <= names.len(),
            out.len() == i,
            forall|j: int| 0 <= j < i ==> out[j]@ == names[j]@,
        decreases names.len() - i,
    {
        out.push(names[i].clone());
        i += 1;
    }
    assert(out.deep_view() =~= names.deep_view());
    out
}

/// Appends copies of `more` to `names`.
pub fn extend_names(names: &mut Vec<String>, more: &Vec<String>)
    ensures
        final(names).deep_view() == old(names).deep_view() + more.deep_view(),
{
    let ghost before = names.deep_view();
    let mut i: usize = 0;
    while i < more.len()
        invariant
            i <= more.len(),
            names.deep_view() == before + more.deep_view().subrange(0, i as int),
        decreases more.len() - i,
    {
        let ghost prev = names.deep_view();
        names.push(more[i].clone());
        i += 1;
        assert(names.deep_view() =~= prev.push(more[i - 1]@));
        assert(names.deep_view() =~= before + more.deep_view().subrange(0, i as int));
    }
    assert(more.deep_view().subrange(0, more.len() as int) =~= more.deep_view());
}

/// `s` without the white space at its start.
pub open spec fn trimmed_start(s: Seq<char>) -> Seq<char>
    decreases s.len(),
{
    if s.len() > 0 && is_white_space(s[0]) {
        trimmed_start(s.drop_first())
    } else {
        s
    }
}

/// `s` without the white space at its end.
pub open spec fn trimmed_end(s: Seq<char>) -> Seq<char>
    decreases s.len(),
{
    if s.len() > 0 && is_white_space(s.last()) {
        trimmed_end(s.drop_last())
    } else {
        s
    }
}

/// `s` without the white space at its start and at its end.
pub open spec fn trimmed(s: Seq<char>) -> Seq<char> {
    trimmed_end(trimmed_start(s))
}

/// The string made of `chars[from..to]`.
pub fn string_of_range(chars: &Vec<char>, from: usize, to: usize) -> (out: String)
    requires
        from <= to <= chars.len(),
    ensures
        out@ == chars@.subrange(from as int, to as int),
{
    let mut out = String::new();
    let mut i: usize = from;
    while i < to
        invariant
            from <= i <= to,
            to <= chars.len(),
            out@ == chars@.subrange(from as int, i as int),
        decreases to - i,
    {
        out.push(chars[i]);
        i += 1;
        assert(out@ =~= chars@.subrange(from as int, i as int));
    }
    out
}

/// `text` without the white space at its start and at its end.
pub fn trim(text: &str) -> (out: String)
    ensures
        out@ == trimmed(text@),
{
    let chars = chars_of(text);
    let n = chars.len();
    let mut start: usize = 0;
    assert(chars@.subrange(0, n as int) =~= chars@);
    while start < n && chars[start].is_whitespace()
        invariant
            start <= n,
            n == chars.len(),
            trimmed_start(chars@) == trimmed_start(chars@.subrange(start as int, n as int)),
        decreases n - start,
    {
        proof {
            let rest = chars@.subrange(start as int, n as int);
            assert(rest[0] == chars@[start as int]);
            assert(rest.drop_first() =~= chars@.subrange(start + 1, n as int));
        }
        start += 1;
    }
    proof {
        let rest = chars@.subrange(start as int, n as int);
        if start < n {
            assert(rest[0] == chars@[start as int]);
        }
        assert(trimmed_start(chars@) == rest);
        assert(chars@.subrange(0, n as int) =~= chars@);
    }
    let mut end: usize = n;
    while end > start && chars[end - 1].is_whitespace()
        invariant
            start <= end <= n,
            n == chars.len(),
            trimmed(chars@) == trimmed_end(chars@.subrange(start as int, end as int)),
        decreases end,
    {
        proof {
            let rest = chars@.subrange(start as int, end as int);
            assert(rest.last() == chars@[end - 1]);
            assert(rest.drop_last() =~= chars@.subrange(start as int, end - 1));
        }
        end -= 1;
    }
    proof {
        let rest = chars@.subrange(start as int, end as int);
        if end > start {
            assert(rest.last() == chars@[end - 1]);
        }
        assert(trimmed(chars@) == rest);
    }
    string_of_range(&chars, start, end)
}

/// Whether a character is a line feed, a carriage return or a tab.
pub open spec fn is_break(c: char) -> bool {
    c == '\n' || c == '\r' || c == '\t'
}

/// `s` without line feeds, carriage returns and tabs.
pub open spec fn without_breaks(s: Seq<char>) -> Seq<char>
    decreases s.len(),
{
    if s.len() == 0 {
        Seq::empty()
    } else if is_break(s.last()) {
        without_breaks(s.drop_last())
    } else {
        without_breaks(s.drop_last()).push(s.last())
    }
}

/// `text` without line feeds, carriage returns and tabs.
pub fn remove_breaks(text: &str) -> (out: String)
    ensures
        out@ == without_breaks(text@),
{
    let chars = chars_of(text);
    let mut out = String::new();
    let mut i: usize = 0;
    while i < chars.len()
        invariant
            i <= chars.len(),
            chars@ == text@,
            out@ == without_breaks(chars@.subrange(0, i as int)),
        decreases chars.len() - i,
    {
        let c = chars[i];
        proof {
            let next = chars@.subrange(0, i + 1);
            assert(next.drop_last() =~= chars@.subrange(0, i as int));
            assert(next.last() == c);
        }
        if !(c == '\n' || c == '\r' || c == '\t') {
            out.push(c);
        }
        i += 1;
    }
    assert(chars@.subrange(0, chars.len() as int) =~= chars@);
    out
}

/// Whether `part` stands in `whole` at position `at`.
pub open spec fn occurs_at(whole: Seq<char>, part: Seq<char>, at: int) -> bool {
    0 <= at && at + part.len() <= whole.len() && whole.subrange(at, at + part.len()) == part
}

/// Whether `part` stands somewhere in `whole`.
pub open spec fn has_part(whole: Seq<char>, part: Seq<char>) -> bool {
    exists|at: int| occurs_at(whole, part, at)
}

fn matches_at(whole: &Vec<char>, part: &Vec<char>, at: usize) -> (found: bool)
    requires
        at + part.len() <= whole.len(),
    ensures
        found == occurs_at(whole@, part@, at as int),
{
    let mut k: usize = 0;
    while k < part.len()
        invariant
            k <= part.len(),
            at + part.len() <= whole.len(),
            forall|j: int| 0 <= j < k ==> whole@[at + j] == part@[j],
        decreases part.len() - k,
    {
        if whole[at + k] != part[k] {
            assert(whole@.subrange(at as int, at + part.len())[k as int] != part@[k as int]);
            return false;
        }
        k += 1;
    }
    assert(whole@.subrange(at as int, at + part.len()) =~= part@);
    true
}

/// Whether `part` stands somewhere in `whole`.
pub fn contains_text(whole: &str, part: &str) -> (found: bool)
    ensures
        found == has_part(whole@, part@),
{
    let whole_chars = chars_of(whole);
    let part_chars = chars_of(part);
    if part_chars.len() > whole_chars.len() {
        return false;
    }
    let last = whole_chars.len() - part_chars.len();
    let mut at: usize = 0;
    while at <= last
        invariant
            at <= last + 1,
            last == whole_chars.len() - part_chars.len(),
            part_chars.len() <= whole_chars.len(),
            whole_chars@ == whole@,
            part_chars@ == part@,
            forall|j: int| 0 <= j < at ==> !occurs_at(whole@, part@, j),
        decreases last + 1 - at,
    {
        if matches_at(&whole_chars, &part_chars, at) {
            return true;
        }
        if at == last {
            return false;
        }
        at += 1;
    }
    false
}

/// The pieces of `s` between its line feeds, in order; there is always at
/// least one, and the last is what follows the last line feed.
pub open spec fn lines_of(s: Seq<char>) -> Seq<Seq<char>>
    decreases s.len(),
{
    if s.len() == 0 {
        seq![Seq::empty()]
    } else if s.last() == '\n' {
        lines_of(s.drop_last()).push(Seq::empty())
    } else {
        let before = lines_of(s.drop_last());
        before.update(before.len() - 1, before.last().push(s.last()))
    }
}

/// The pieces of `text` between its line feeds.
pub fn split_lines(text: &str) -> (lines: Vec<String>)
    ensures
        lines.deep_view() == lines_of(text@),
{
    let chars = chars_of(text);
    let mut done: Vec<String> = no_names();
    let mut current = String::new();
    let mut i: usize = 0;
    assert(done.deep_view().push(current@) =~= seq![Seq::<char>::empty()]);
    assert(chars@.subrange(0, 0) =~= Seq::<char>::empty());
    while i < chars.len()
        invariant
            i <= chars.len(),
            chars@ == text@,
            lines_of(chars@.subrange(0, i as int)) == done.deep_view().push(current@),
        decreases chars.len() - i,
    {
        let c = chars[i];
        let ghost lines_before = done.deep_view();
        let ghost current_before = current@;
        proof {
            let next = chars@.subrange(0, i + 1);
            assert(next.drop_last() =~= chars@.subrange(0, i as int));
            assert(next.last() == c);
        }
        if c == '\n' {
            done.push(current);
            current = String::new();
            assert(done.deep_view() =~= lines_before.push(current_before));
        } else {
            current.push(c);
            assert(lines_before.push(current_before).update(
                lines_before.len() as int,
                current_before.push(c),
            ) =~= lines_before.push(current@));
        }
        i += 1;
    }
    assert(chars@.subrange(0, chars.len() as int) =~= chars@);
    let ghost lines_before = done.deep_view();
    done.push(current);
    assert(done.deep_view() =~= lines_before.push(current@));
    done
}

/// The first `n` of `lines`, each trimmed, without those that are empty
/// then.
pub open spec fn kept_lines(lines: Seq<Seq<char>>, n: int) -> Seq<Seq<char>>
    decreases n,
{
    if n <= 0 {
        Seq::empty()
    } else if trimmed(lines[n - 1]).len() > 0 {
        kept_lines(lines, n - 1).push(trimmed(lines[n - 1]))
    } else {
        kept_lines(lines, n - 1)
    }
}

/// The lines of `s`, each trimmed, without the empty ones.
pub open spec fn text_lines(s: Seq<char>) -> Seq<Seq<char>> {
    kept_lines(lines_of(s), lines_of(s).len() as int)
}

/// The lines of `text`, each trimmed, without the empty ones.
pub fn trimmed_lines(text: &str) -> (lines: Vec<String>)
    ensures
        lines.deep_view() == text_lines(text@),
{
    let raw = split_lines(text);
    let mut lines: Vec<String> = no_names();
    let mut i: usize = 0;
    while i < raw.len()
        invariant
            i <= raw.len(),
            raw.deep_view() == lines_of(text@),
            lines.deep_view() == kept_lines(raw.deep_view(), i as int),
        decreases raw.len() - i,
    {
        assert(raw.deep_view()[i as int] == raw[i as int]@);
        let line = trim(raw[i].as_str());
        if !line.as_str().is_empty() {
            let ghost before = lines.deep_view();
            lines.push(line);
            assert(lines.deep_view() =~= before.push(line@));
        }
        i += 1;
    }
    assert(raw.deep_view().len() == raw.len());
    lines
}

} // verus!
