//! String helpers with exact contracts.

use vstd::prelude::*;

verus! {

/// `s` without the run of `c` it may end in.
pub open spec fn trimmed_end(s: Seq<char>, c: char) -> Seq<char>
    decreases s.len(),
{
    if s.len() > 0 && s.last() == c {
        trimmed_end(s.drop_last(), c)
    } else {
        s
    }
}

/// Whether `s` begins with `prefix`.
pub open spec fn begins_with(s: Seq<char>, prefix: Seq<char>) -> bool {
    &&& prefix.len() <= s.len()
    &&& s.take(prefix.len() as int) == prefix
}

/// The characters of an optional string.
pub open spec fn opt_chars(text: Option<String>) -> Option<Seq<char>> {
    match text {
        Some(t) => Some(t@),
        None => None,
    }
}

/// The characters of an optional borrowed string.
pub open spec fn opt_str_chars(text: Option<&str>) -> Option<Seq<char>> {
    match text {
        Some(t) => Some(t@),
        None => None,
    }
}

/// The characters of each string of a list.
pub open spec fn all_chars(list: Seq<String>) -> Seq<Seq<char>> {
    list.map_values(|t: String| t@)
}

/// Trimming leaves a prefix of the text that no longer ends in `c`, and what
/// it takes away is nothing but `c`.
pub proof fn law_trimming_takes_only_that_character(s: Seq<char>, c: char)
    ensures
        trimmed_end(s, c).len() <= s.len(),
        trimmed_end(s, c) == s.take(trimmed_end(s, c).len() as int),
        trimmed_end(s, c).len() > 0 ==> trimmed_end(s, c).last() != c,
        forall|i: int| trimmed_end(s, c).len() <= i < s.len() ==> s[i] == c,
    decreases s.len(),
{
    if s.len() > 0 && s.last() == c {
        let rest = s.drop_last();
        law_trimming_takes_only_that_character(rest, c);
        let kept = trimmed_end(rest, c);
        assert(rest.take(kept.len() as int) =~= s.take(kept.len() as int));
        assert forall|i: int| kept.len() <= i < s.len() implies s[i] == c by {
            if i < rest.len() {
                assert(rest[i] == c);
            }
        }
    } else {
        assert(s.take(s.len() as int) =~= s);
    }
}

/// Appending more of the trimmed character changes nothing.
pub proof fn lemma_trimmed_end_push(s: Seq<char>, c: char)
    ensures
        trimmed_end(s.push(c), c) == trimmed_end(s, c),
{
    assert(s.push(c).drop_last() =~= s);
}

/// Whether two strings hold the same characters.
pub fn str_eq(a: &str, b: &str) -> (equal: bool)
    ensures
        equal == (a@ == b@),
{
    let x = a.as_bytes();
    let y = b.as_bytes();
    proof {
        // Encoding is injective, so equal bytes are equal characters.
        vstd::utf8::encode_utf8_decode_utf8(a@);
        vstd::utf8::encode_utf8_decode_utf8(b@);
    }
    if x.len() != y.len() {
        return false;
    }
    let mut i: usize = 0;
    while i < x.len()
        invariant
            i <= x.len(),
            x.len() == y.len(),
            x@ == vstd::utf8::encode_utf8(a@),
            y@ == vstd::utf8::encode_utf8(b@),
            forall|j: int| 0 <= j < i ==> x@[j] == y@[j],
        decreases x.len() - i,
    {
        if x[i] != y[i] {
            return false;
        }
        i += 1;
    }
    assert(x@ =~= y@);
    true
}

/// Whether `list` holds `wanted`.
pub fn list_contains(list: &Vec<String>, wanted: &str) -> (found: bool)
    ensures
        found == all_chars(list@).contains(wanted@),
{
    let mut i: usize = 0;
    while i < list.len()
        invariant
            i <= list.len(),
            forall|j: int| 0 <= j < i ==> #[trigger] list@[j]@ != wanted@,
        decreases list.len() - i,
    {
        if str_eq(&list[i], wanted) {
            assert(all_chars(list@)[i as int] == wanted@);
            return true;
        }
        i += 1;
    }
    assert forall|j: int| 0 <= j < list.len() implies all_chars(list@)[j] != wanted@ by {
        assert(list@[j]@ != wanted@);
    }
    false
}

/// A copy of `list`.
pub fn cloned_list(list: &Vec<String>) -> (copy: Vec<String>)
    ensures
        all_chars(copy@) == all_chars(list@),
{
    let mut copy: Vec<String> = Vec::new();
    let mut i: usize = 0;
    while i < list.len()
        invariant
            i <= list.len(),
            copy@.len() == i,
            forall|j: int| 0 <= j < i ==> #[trigger] copy@[j]@ == list@[j]@,
        decreases list.len() - i,
    {
        copy.push(list[i].clone());
        i += 1;
    }
    assert(all_chars(copy@) =~= all_chars(list@));
    copy
}

/// `a` followed by `b`.
pub fn joined(a: &str, b: &str) -> (text: String)
    ensures
        text@ == a@ + b@,
{
    let mut text = a.to_owned();
    text.append(b);
    text
}

/// `s` with every trailing `c` removed.
pub fn trim_end(s: &str, c: char) -> (kept: &str)
    ensures
        kept@ == trimmed_end(s@, c),
{
    let mut n: usize = s.unicode_len();
    assert(s@.take(n as int) =~= s@);
    while n > 0 && s.get_char(n - 1) == c
        invariant
            n <= s@.len(),
            trimmed_end(s@.take(n as int), c) == trimmed_end(s@, c),
        decreases n,
    {
        assert(s@.take(n as int).drop_last() =~= s@.take(n - 1));
        n -= 1;
    }
    assert(n == 0 || s@.take(n as int).last() == s@[n - 1]);
    assert(s@.subrange(0, n as int) =~= s@.take(n as int));
    s.substring_char(0, n)
}

/// What follows `prefix` in `s`, or `None` when `s` does not begin with it.
pub fn strip_prefix<'a>(s: &'a str, prefix: &str) -> (rest: Option<&'a str>)
    ensures
        rest is Some <==> begins_with(s@, prefix@),
        rest matches Some(r) ==> r@ == s@.skip(prefix@.len() as int),
{
    let n: usize = s.unicode_len();
    let m: usize = prefix.unicode_len();
    if m > n {
        return None;
    }
    let head = s.substring_char(0, m);
    assert(s@.subrange(0, m as int) =~= s@.take(m as int));
    if str_eq(head, prefix) {
        assert(s@.subrange(m as int, n as int) =~= s@.skip(m as int));
        Some(s.substring_char(m, n))
    } else {
        None
    }
}

/// A text begins with a prefix exactly when it is that prefix and something
/// after it.
pub proof fn law_prefixes(text: Seq<char>, prefix: Seq<char>, rest: Seq<char>)
    ensures
        begins_with(prefix + rest, prefix),
        begins_with(text, prefix) ==> text == prefix + text.skip(prefix.len() as int),
{
    assert((prefix + rest).take(prefix.len() as int) =~= prefix);
    if begins_with(text, prefix) {
        let n = prefix.len() as int;
        assert(text =~= text.take(n) + text.skip(n));
    }
}

/// However many of the character are appended to a text that does not end in
/// it, trimming gives the text back.
pub proof fn law_trimming_undoes_appending(base: Seq<char>, c: char, n: nat)
    requires
        base.len() == 0 || base.last() != c,
    ensures
        trimmed_end(base + Seq::new(n, |i: int| c), c) == base,
    decreases n,
{
    let text = base + Seq::new(n, |i: int| c);
    if n == 0 {
        assert(text =~= base);
    } else {
        law_trimming_undoes_appending(base, c, (n - 1) as nat);
        assert(text.last() == c);
        assert(text.drop_last() =~= base + Seq::new((n - 1) as nat, |i: int| c));
    }
}

/// The characters of a list are those of its strings, one for one and in
/// order; the characters of an optional string are those of the string.
pub proof fn law_characters_of_texts(list: Seq<String>, text: String, borrowed: &str)
    ensures
        all_chars(list).len() == list.len(),
        forall|i: int| 0 <= i < list.len() ==> #[trigger] all_chars(list)[i] == list[i]@,
        opt_chars(Some(text)) == Some(text@),
        opt_chars(None) is None,
        opt_str_chars(Some(borrowed)) == Some(borrowed@),
        opt_str_chars(None) is None,
{
}

} // verus!
