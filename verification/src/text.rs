//! Text helpers: the characters of a string and its comma-separated fields.

use vstd::prelude::*;

verus! {

/// No character of `s` is a comma.
pub open spec fn comma_free(s: Seq<char>) -> bool {
    forall|i: int| 0 <= i < s.len() ==> s[i] != ','
}

/// No character of `s` ends a line.
pub open spec fn single_line(s: Seq<char>) -> bool {
    forall|i: int| 0 <= i < s.len() ==> s[i] != '\n'
}

/// Whether `c` would break a line of comma-separated fields if it stood in
/// a field: a comma, which ends the field, or a line feed, which ends the
/// line.
pub open spec fn breaks_field(c: char) -> bool {
    c == ',' || c == '\n'
}

/// No character of `s` would break a line of comma-separated fields.
pub open spec fn field_safe(s: Seq<char>) -> bool {
    forall|i: int| 0 <= i < s.len() ==> !breaks_field(#[trigger] s[i])
}

/// `s` with a space in place of every comma and line feed. Nothing else is
/// changed, and the length stays.
pub open spec fn sanitized(s: Seq<char>) -> Seq<char> {
    Seq::new(
        s.len(),
        |i: int|
            if breaks_field(s[i]) {
                ' '
            } else {
                s[i]
            },
    )
}

/// A text is safe in a field exactly when it holds neither a comma nor a
/// line feed.
pub proof fn lemma_field_safe(s: Seq<char>)
    ensures
        field_safe(s) <==> comma_free(s) && single_line(s),
{
}

/// A sanitized text is safe in a field, and a text that holds neither a
/// comma nor a line feed is left as it is.
pub proof fn lemma_sanitized(s: Seq<char>)
    ensures
        sanitized(s).len() == s.len(),
        field_safe(sanitized(s)),
        comma_free(sanitized(s)),
        single_line(sanitized(s)),
        comma_free(s) && single_line(s) ==> sanitized(s) == s,
{
    lemma_field_safe(s);
    if field_safe(s) {
        assert(sanitized(s) =~= s);
    }
}

/// The position of the first comma of `s`, or the length of `s` where it has
/// none.
pub open spec fn first_comma(s: Seq<char>) -> int
    decreases s.len(),
{
    if s.len() == 0 || s[0] == ',' {
        0
    } else {
        1 + first_comma(s.drop_first())
    }
}

/// The fields of `s`: the pieces between its commas, in order. A text without
/// a comma is one field; a text that ends in a comma ends in an empty field.
pub open spec fn fields(s: Seq<char>) -> Seq<Seq<char>>
    decreases s.len(),
{
    let k = first_comma(s);
    if 0 <= k < s.len() {
        seq![s.take(k)] + fields(s.skip(k + 1))
    } else {
        seq![s]
    }
}

/// `first_comma` is the one position that holds a comma (or is the end) and
/// has no comma before it.
pub proof fn lemma_first_comma_is(s: Seq<char>, k: int)
    requires
        0 <= k <= s.len(),
        forall|j: int| 0 <= j < k ==> s[j] != ',',
        k < s.len() ==> s[k] == ',',
    ensures
        first_comma(s) == k,
    decreases k,
{
    if k > 0 {
        lemma_first_comma_is(s.drop_first(), k - 1);
    }
}

/// A text without a comma is its own single field.
pub proof fn lemma_fields_of_comma_free(s: Seq<char>)
    requires
        comma_free(s),
    ensures
        fields(s) == seq![s],
{
    lemma_first_comma_is(s, s.len() as int);
}

/// A comma-free text followed by a comma is the first field of the whole, and
/// the fields of what follows the comma come after it.
pub proof fn lemma_fields_of_joined(head: Seq<char>, rest: Seq<char>)
    requires
        comma_free(head),
    ensures
        fields(head + seq![','] + rest) == seq![head] + fields(rest),
{
    let s = head + seq![','] + rest;
    let k = head.len() as int;
    lemma_first_comma_is(s, k);
    assert(s.take(k) =~= head);
    assert(s.skip(k + 1) =~= rest);
}

/// The characters of `s`, in order.
pub fn chars_of(s: &str) -> (v: Vec<char>)
    ensures
        v@ == s@,
{
    let mut v: Vec<char> = Vec::new();
    for c in it: s.chars()
        invariant
            it.seq() == s@,
            v@ == s@.take(it.index() as int),
    {
        v.push(c);
    }
    v
}

/// Calls std's `String::push`: the character is added at the end of the
/// text, which is otherwise unchanged.
#[verifier::external_body]
fn push_char(text: &mut String, c: char)
    ensures
        final(text)@ == old(text)@.push(c),
{
    text.push(c);
}

/// Makes `s` safe to stand in a field: every comma and line feed gives way
/// to a space. A text that holds neither is handed back as it is.
pub fn sanitize(s: &str) -> (clean: String)
    ensures
        clean@ == sanitized(s@),
        field_safe(clean@),
        comma_free(clean@),
        single_line(clean@),
        comma_free(s@) && single_line(s@) ==> clean@ == s@,
{
    let mut clean = String::new();
    for c in it: s.chars()
        invariant
            it.seq() == s@,
            clean@ == sanitized(s@.take(it.index() as int)),
    {
        let ghost after = s@.take(it.index() + 1);
        if c == ',' || c == '\n' {
            push_char(&mut clean, ' ');
        } else {
            push_char(&mut clean, c);
        }
        assert(clean@ =~= sanitized(after));
    }
    proof {
        assert(s@.take(s@.len() as int) =~= s@);
        lemma_sanitized(s@);
    }
    clean
}

/// The position of the first comma at or after `from`, or the length of
/// `chars` where none follows.
pub fn find_comma(chars: &Vec<char>, from: usize) -> (at: usize)
    requires
        from <= chars.len(),
    ensures
        from <= at <= chars.len(),
        at - from == first_comma(chars@.skip(from as int)),
{
    let mut at: usize = from;
    while at < chars.len() && chars[at] != ','
        invariant
            from <= at <= chars.len(),
            forall|j: int| from <= j < at ==> chars@[j] != ',',
        decreases chars.len() - at,
    {
        at = at + 1;
    }
    proof {
        lemma_first_comma_is(chars@.skip(from as int), at - from);
    }
    at
}

/// Splits `line` at every comma.
pub fn split_fields(line: &str) -> (parts: Vec<String>)
    ensures
        parts.deep_view() == fields(line@),
        parts.len() >= 1,
{
    let chars = chars_of(line);
    let n = chars.len();
    let mut parts: Vec<String> = Vec::new();
    let mut start: usize = 0;
    proof {
        assert(line@.skip(0) =~= line@);
        assert(parts.deep_view() + fields(line@) =~= fields(line@));
    }
    loop
        invariant_except_break
            start <= n,
            fields(line@) == parts.deep_view() + fields(line@.skip(start as int)),
        invariant
            n == chars.len(),
            chars@ == line@,
        ensures
            parts.deep_view() == fields(line@),
            parts.len() >= 1,
        decreases n - start,
    {
        let at = find_comma(&chars, start);
        let piece = line.substring_char(start, at).to_string();
        let ghost before = parts.deep_view();
        let ghost tail = line@.skip(start as int);
        parts.push(piece);
        proof {
            assert(piece@ =~= tail.take(at - start));
            assert(parts.deep_view() =~= before + seq![piece@]);
            if at < n {
                assert(tail.skip(at - start + 1) =~= line@.skip(at + 1));
            } else {
                assert(tail.take(at - start) =~= tail);
            }
        }
        if at == n {
            break ;
        }
        start = at + 1;
    }
    parts
}

} // verus!
