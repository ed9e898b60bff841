//! Character-sequence utilities shared by the rest of the crate.
//!
//! Strings are viewed as `Seq<char>`. Searching, counting and replacing are
//! defined on that view and implemented on `Vec<char>`.

use vstd::prelude::*;

verus! {

/// Number of bytes of the UTF-8 encoding of `s`, which is what `str::len` reports.
pub open spec fn byte_len(s: Seq<char>) -> nat {
    vstd::utf8::encode_utf8(s).len()
}

/// A text takes no bytes exactly when it has no characters.
pub proof fn lemma_no_bytes_no_chars(s: Seq<char>)
    ensures
        byte_len(s) == 0 <==> s.len() == 0,
{
    vstd::utf8::encode_utf8_decode_utf8(s);
    if s.len() == 0 {
        assert(vstd::utf8::encode_utf8(s).len() == 0);
    }
    if byte_len(s) == 0 {
        assert(vstd::utf8::decode_utf8(vstd::utf8::encode_utf8(s)) == s);
        assert(vstd::utf8::encode_utf8(s) =~= Seq::<u8>::empty());
        assert(vstd::utf8::decode_utf8(Seq::<u8>::empty()).len() == 0);
    }
}

/// The text of an optional string.
pub open spec fn opt_view(s: Option<String>) -> Option<Seq<char>> {
    match s {
        Some(t) => Some(t@),
        None => None,
    }
}

/// The text of an optional string slice.
pub open spec fn opt_text(s: Option<&str>) -> Option<Seq<char>> {
    match s {
        Some(t) => Some(t@),
        None => None,
    }
}

/// The texts of a list of strings.
pub open spec fn texts(v: Seq<String>) -> Seq<Seq<char>> {
    v.map_values(|s: String| s@)
}

/// A copy of an optional string.
pub fn clone_opt(o: &Option<String>) -> (r: Option<String>)
    ensures
        r == *o,
{
    match o {
        Some(s) => Some(s.clone()),
        None => None,
    }
}

/// Number of bytes of the UTF-8 encoding of `s`.
pub fn byte_length(s: &str) -> (n: usize)
    ensures
        n == byte_len(s@),
{
    s.as_bytes().len()
}

/// The characters of `s`, in order.
pub fn chars_of(s: &str) -> (r: Vec<char>)
    ensures
        r@ == s@,
{
    let mut out: Vec<char> = Vec::new();
    for c in it: s.chars()
        invariant
            it.seq() == s@,
            out@ == it.seq().take(it.index()),
    {
        out.push(c);
        proof {
            assert(it.seq().take(it.index() + 1) =~= it.seq().take(it.index()).push(c));
        }
    }
    proof {
        assert(s@.take(s@.len() as int) =~= s@);
    }
    out
}

/// Builds a `String` from characters. Trusted: `String`'s `FromIterator<&char>`
/// yields the string made of exactly the given characters in order.
#[verifier::external_body]
pub(crate) fn string_of(chars: &Vec<char>) -> (s: String)
    ensures
        s@ == chars@,
{
    String::from_iter(chars)
}

/// `needle` occurs in `hay` starting at index `i`.
pub open spec fn occurs_at(hay: Seq<char>, needle: Seq<char>, i: int) -> bool {
    &&& 0 <= i
    &&& i + needle.len() <= hay.len()
    &&& hay.subrange(i, i + needle.len()) == needle
}

/// Index of the leftmost occurrence of `needle` in `hay` at or after `from`.
pub open spec fn first_match(hay: Seq<char>, needle: Seq<char>, from: int) -> Option<int>
    decreases hay.len() + 1 - from,
{
    if from < 0 || from + needle.len() > hay.len() {
        None
    } else if occurs_at(hay, needle, from) {
        Some(from)
    } else {
        first_match(hay, needle, from + 1)
    }
}

/// `needle` occurs somewhere in `hay`.
pub open spec fn contains_sub(hay: Seq<char>, needle: Seq<char>) -> bool {
    first_match(hay, needle, 0) is Some
}

/// Distance between the starts of two successive non-overlapping matches.
pub open spec fn match_step(needle: Seq<char>) -> int {
    if needle.len() == 0 {
        1
    } else {
        needle.len() as int
    }
}

/// Number of non-overlapping occurrences of `needle` in `hay` at or after
/// `from`, scanning left to right. The empty needle matches at every position,
/// the end included.
pub open spec fn count_from(hay: Seq<char>, needle: Seq<char>, from: int) -> nat
    decreases hay.len() + 1 - from,
{
    if from < 0 || from + needle.len() > hay.len() {
        0
    } else if occurs_at(hay, needle, from) {
        1 + count_from(hay, needle, from + match_step(needle))
    } else {
        count_from(hay, needle, from + 1)
    }
}

/// Number of non-overlapping occurrences of `needle` in `hay`.
pub open spec fn occurrences(hay: Seq<char>, needle: Seq<char>) -> nat {
    count_from(hay, needle, 0)
}

/// `hay` with the `cut` characters at `p` replaced by `with`.
pub open spec fn splice(hay: Seq<char>, p: int, cut: int, with: Seq<char>) -> Seq<char> {
    hay.subrange(0, p) + with + hay.subrange(p + cut, hay.len() as int)
}

/// `hay` with its leftmost occurrence of `needle` replaced by `with`;
/// `hay` itself where there is none.
pub open spec fn replace_first(hay: Seq<char>, needle: Seq<char>, with: Seq<char>) -> Seq<char> {
    match first_match(hay, needle, 0) {
        Some(p) => splice(hay, p, needle.len() as int, with),
        None => hay,
    }
}

/// What `first_match` returns is the least matching index at or after `from`.
pub proof fn lemma_first_match(hay: Seq<char>, needle: Seq<char>, from: int)
    requires
        0 <= from,
    ensures
        match first_match(hay, needle, from) {
            Some(p) => from <= p && occurs_at(hay, needle, p) && forall|j: int|
                from <= j < p ==> !occurs_at(hay, needle, j),
            None => forall|j: int| from <= j ==> !occurs_at(hay, needle, j),
        },
    decreases hay.len() + 1 - from,
{
    if from + needle.len() > hay.len() {
    } else if occurs_at(hay, needle, from) {
    } else {
        lemma_first_match(hay, needle, from + 1);
    }
}

/// Counting from `from` is counting from the first match at or after `from`.
pub proof fn lemma_count_from_first(hay: Seq<char>, needle: Seq<char>, from: int)
    requires
        0 <= from,
    ensures
        count_from(hay, needle, from) == match first_match(hay, needle, from) {
            Some(p) => 1 + count_from(hay, needle, p + match_step(needle)),
            None => 0,
        },
    decreases hay.len() + 1 - from,
{
    if from + needle.len() > hay.len() {
    } else if occurs_at(hay, needle, from) {
    } else {
        lemma_count_from_first(hay, needle, from + 1);
    }
}

/// Tests whether `needle` occurs in `hay` at index `i`.
pub fn matches_at(hay: &Vec<char>, needle: &Vec<char>, i: usize) -> (r: bool)
    ensures
        r == occurs_at(hay@, needle@, i as int),
{
    if i > hay.len() || needle.len() > hay.len() - i {
        return false;
    }
    let mut k: usize = 0;
    while k < needle.len()
        invariant
            i + needle.len() <= hay.len(),
            k <= needle.len(),
            forall|j: int| 0 <= j < k ==> hay@[i + j] == needle@[j],
        decreases needle.len() - k,
    {
        if hay[i + k] != needle[k] {
            proof {
                let sub = hay@.subrange(i as int, i + needle.len());
                assert(sub[k as int] == hay@[i + k]);
            }
            return false;
        }
        k += 1;
    }
    proof {
        assert(hay@.subrange(i as int, i + needle.len()) =~= needle@);
    }
    true
}

/// Finds the leftmost occurrence of `needle` in `hay` at or after `from`.
pub fn find_from(hay: &Vec<char>, needle: &Vec<char>, from: usize) -> (r: Option<usize>)
    ensures
        match r {
            Some(p) => first_match(hay@, needle@, from as int) == Some(p as int) && from <= p
                && p + needle.len() <= hay.len(),
            None => first_match(hay@, needle@, from as int) is None,
        },
{
    if needle.len() > hay.len() || from > hay.len() - needle.len() {
        return None;
    }
    let last: usize = hay.len() - needle.len();
    let mut i: usize = from;
    loop
        invariant
            from <= i <= last,
            last == hay.len() - needle.len(),
            needle.len() <= hay.len(),
            first_match(hay@, needle@, from as int) == first_match(hay@, needle@, i as int),
        decreases last - i,
    {
        if matches_at(hay, needle, i) {
            return Some(i);
        }
        if i == last {
            proof {
                assert(first_match(hay@, needle@, i + 1) is None);
            }
            return None;
        }
        i += 1;
    }
}

/// Finds the leftmost occurrence of `needle` in `hay`.
pub fn find(hay: &Vec<char>, needle: &Vec<char>) -> (r: Option<usize>)
    ensures
        match r {
            Some(p) => first_match(hay@, needle@, 0) == Some(p as int) && p + needle.len()
                <= hay.len(),
            None => first_match(hay@, needle@, 0) is None,
        },
{
    find_from(hay, needle, 0)
}

/// Tests whether `needle` occurs somewhere in `hay`.
pub fn contains(hay: &Vec<char>, needle: &Vec<char>) -> (r: bool)
    ensures
        r == contains_sub(hay@, needle@),
{
    find_from(hay, needle, 0).is_some()
}

/// The empty text occurs at every position of a text, the end included:
/// counted from `from`, that is once for each position left.
pub proof fn lemma_count_empty(hay: Seq<char>, from: int)
    requires
        0 <= from <= hay.len(),
    ensures
        count_from(hay, Seq::<char>::empty(), from) == hay.len() - from + 1,
    decreases hay.len() - from,
{
    let empty = Seq::<char>::empty();
    assert(hay.subrange(from, from) =~= empty);
    assert(occurs_at(hay, empty, from));
    assert(match_step(empty) == 1);
    if from < hay.len() {
        lemma_count_empty(hay, from + 1);
    } else {
        assert(count_from(hay, empty, from + 1) == 0);
    }
}

/// Counts the non-overlapping occurrences of `needle` in `hay`.
pub fn count_occurrences(hay: &Vec<char>, needle: &Vec<char>) -> (r: u128)
    ensures
        r == occurrences(hay@, needle@),
{
    if needle.len() > hay.len() {
        return 0;
    }
    if needle.len() == 0 {
        proof {
            assert(needle@ =~= Seq::<char>::empty());
            lemma_count_empty(hay@, 0);
        }
        return hay.len() as u128 + 1;
    }
    let last: usize = hay.len() - needle.len();
    let step: usize = needle.len();
    let mut n: u128 = 0;
    let mut i: usize = 0;
    while i <= last
        invariant
            last == hay.len() - needle.len(),
            0 < needle.len() <= hay.len(),
            step == match_step(needle@),
            n <= i <= hay.len(),
            n + count_from(hay@, needle@, i as int) == occurrences(hay@, needle@),
        decreases hay.len() - i,
    {
        if matches_at(hay, needle, i) {
            n += 1;
            i += step;
        } else {
            i += 1;
        }
    }
    n
}

/// Copies `src[from..to]` onto the end of `out`.
pub fn extend_range(out: &mut Vec<char>, src: &Vec<char>, from: usize, to: usize)
    requires
        from <= to <= src.len(),
    ensures
        final(out)@ == old(out)@ + src@.subrange(from as int, to as int),
{
    let mut i: usize = from;
    while i < to
        invariant
            from <= i <= to <= src.len(),
            out@ == old(out)@ + src@.subrange(from as int, i as int),
        decreases to - i,
    {
        out.push(src[i]);
        proof {
            assert(src@.subrange(from as int, i + 1) =~= src@.subrange(from as int, i as int).push(
                src@[i as int],
            ));
        }
        i += 1;
    }
    proof {
        assert(old(out)@ + src@.subrange(from as int, from as int) =~= old(out)@);
    }
}

/// Replaces the `cut` characters of `hay` at `p` by `with`.
pub fn splice_at(hay: &Vec<char>, p: usize, cut: usize, with: &Vec<char>) -> (r: Vec<char>)
    requires
        p + cut <= hay.len(),
    ensures
        r@ == splice(hay@, p as int, cut as int, with@),
{
    let mut out: Vec<char> = Vec::new();
    extend_range(&mut out, hay, 0, p);
    extend_range(&mut out, with, 0, with.len());
    extend_range(&mut out, hay, p + cut, hay.len());
    proof {
        assert(with@.subrange(0, with@.len() as int) =~= with@);
        assert(out@ =~= splice(hay@, p as int, cut as int, with@));
    }
    out
}

/// Tests whether two texts are the same.
pub fn same_text(a: &str, b: &str) -> (r: bool)
    ensures
        r == (a@ == b@),
{
    let x = chars_of(a);
    let y = chars_of(b);
    if x.len() != y.len() {
        return false;
    }
    let r = matches_at(&x, &y, 0);
    proof {
        assert(x@.subrange(0, x@.len() as int) =~= x@);
    }
    r
}

/// The characters `src[from..to]`.
pub fn slice_chars(src: &Vec<char>, from: usize, to: usize) -> (r: Vec<char>)
    requires
        from <= to <= src.len(),
    ensures
        r@ == src@.subrange(from as int, to as int),
{
    let mut out: Vec<char> = Vec::new();
    extend_range(&mut out, src, from, to);
    proof {
        assert(out@ =~= src@.subrange(from as int, to as int));
    }
    out
}

/// `prefix` stands at the start of `hay`.
pub open spec fn has_prefix(hay: Seq<char>, prefix: Seq<char>) -> bool {
    occurs_at(hay, prefix, 0)
}

/// `suffix` stands at the end of `hay`.
pub open spec fn has_suffix(hay: Seq<char>, suffix: Seq<char>) -> bool {
    occurs_at(hay, suffix, hay.len() - suffix.len())
}

/// Tests whether `hay` starts with `prefix`.
pub fn starts_with(hay: &Vec<char>, prefix: &Vec<char>) -> (r: bool)
    ensures
        r == has_prefix(hay@, prefix@),
{
    matches_at(hay, prefix, 0)
}

/// Tests whether `hay` ends with `suffix`.
pub fn ends_with(hay: &Vec<char>, suffix: &Vec<char>) -> (r: bool)
    ensures
        r == has_suffix(hay@, suffix@),
{
    if suffix.len() > hay.len() {
        return false;
    }
    matches_at(hay, suffix, hay.len() - suffix.len())
}

/// Whether `c` has the Unicode property White_Space: one of the 25 code
/// points that `char::is_whitespace` accepts.
pub open spec fn is_white_space(c: char) -> bool {
    let u = c as u32;
    ||| 0x09 <= u <= 0x0D
    ||| u == 0x20
    ||| u == 0x85
    ||| u == 0xA0
    ||| u == 0x1680
    ||| 0x2000 <= u <= 0x200A
    ||| u == 0x2028
    ||| u == 0x2029
    ||| u == 0x202F
    ||| u == 0x205F
    ||| u == 0x3000
}

/// Tests whether a character is white space.
pub fn is_space(c: char) -> (b: bool)
    ensures
        b == is_white_space(c),
{
    let u = c as u32;
    (0x09 <= u && u <= 0x0D) || u == 0x20 || u == 0x85 || u == 0xA0 || u == 0x1680 || (0x2000 <= u
        && u <= 0x200A) || u == 0x2028 || u == 0x2029 || u == 0x202F || u == 0x205F || u == 0x3000
}

/// The lower-case form of a text, as Unicode defines it.
pub uninterp spec fn lowercased(s: Seq<char>) -> Seq<char>;

/// `str::to_lowercase`. Trusted: the result is the named `lowercased`.
#[verifier::external_body]
pub(crate) fn lowercase(s: &str) -> (r: String)
    ensures
        r@ == lowercased(s@),
{
    s.to_lowercase()
}

/// Index of the first character at or after `i` that is no white space;
/// the length of `s` where there is none.
pub open spec fn skip_space(s: Seq<char>, i: int) -> int
    decreases s.len() - i,
{
    if 0 <= i < s.len() && is_white_space(s[i]) {
        skip_space(s, i + 1)
    } else {
        i
    }
}

/// Index just after the last character before `j` that is no white space,
/// not going below `lo`.
pub open spec fn back_space(s: Seq<char>, lo: int, j: int) -> int
    decreases j,
{
    if lo < j <= s.len() && 0 <= lo && is_white_space(s[j - 1]) {
        back_space(s, lo, j - 1)
    } else {
        j
    }
}

/// `s` without its leading white space.
pub open spec fn trim_start_of(s: Seq<char>) -> Seq<char> {
    s.subrange(skip_space(s, 0), s.len() as int)
}

/// `s` without its leading and trailing white space.
pub open spec fn trimmed(s: Seq<char>) -> Seq<char> {
    let a = skip_space(s, 0);
    s.subrange(a, back_space(s, a, s.len() as int))
}

/// Index of the first character of `s` at or after `from` that is no white space.
pub fn skip_space_from(s: &Vec<char>, from: usize) -> (r: usize)
    requires
        from <= s.len(),
    ensures
        r == skip_space(s@, from as int),
        from <= r <= s.len(),
{
    let mut i: usize = from;
    while i < s.len() && is_space(s[i])
        invariant
            from <= i <= s.len(),
            skip_space(s@, from as int) == skip_space(s@, i as int),
        decreases s.len() - i,
    {
        i += 1;
    }
    i
}

/// Index just after the last character of `s` before `to` that is no white
/// space, not going below `lo`.
pub fn back_space_to(s: &Vec<char>, lo: usize, to: usize) -> (r: usize)
    requires
        lo <= to <= s.len(),
    ensures
        r == back_space(s@, lo as int, to as int),
        lo <= r <= to,
{
    let mut j: usize = to;
    while j > lo && is_space(s[j - 1])
        invariant
            lo <= j <= to <= s.len(),
            back_space(s@, lo as int, to as int) == back_space(s@, lo as int, j as int),
        decreases j,
    {
        j -= 1;
    }
    j
}

/// `s` without its leading white space.
pub fn trim_start_chars(s: &Vec<char>) -> (r: Vec<char>)
    ensures
        r@ == trim_start_of(s@),
{
    let a = skip_space_from(s, 0);
    slice_chars(s, a, s.len())
}

/// `s` without its leading and trailing white space.
pub fn trim_chars(s: &Vec<char>) -> (r: Vec<char>)
    ensures
        r@ == trimmed(s@),
{
    let a = skip_space_from(s, 0);
    let b = back_space_to(s, a, s.len());
    slice_chars(s, a, b)
}

/// `s` without its leading and trailing white space, as a string.
pub fn trim_str(s: &str) -> (r: String)
    ensures
        r@ == trimmed(s@),
{
    string_of(&trim_chars(&chars_of(s)))
}

/// Tests whether `s` is empty once trimmed.
pub fn is_blank(s: &str) -> (r: bool)
    ensures
        r == (trimmed(s@).len() == 0),
{
    trim_chars(&chars_of(s)).len() == 0
}

/// Number of leading characters of `s`, from `i` on, that equal `c`, added to `i`.
pub open spec fn skip_char(s: Seq<char>, c: char, i: int) -> int
    decreases s.len() - i,
{
    if 0 <= i < s.len() && s[i] == c {
        skip_char(s, c, i + 1)
    } else {
        i
    }
}

/// `s` without its leading run of the character `c`.
pub open spec fn without_leading(s: Seq<char>, c: char) -> Seq<char> {
    s.subrange(skip_char(s, c, 0), s.len() as int)
}

/// `s` without its leading run of the character `c`.
pub fn strip_leading(s: &Vec<char>, c: char) -> (r: Vec<char>)
    ensures
        r@ == without_leading(s@, c),
{
    let mut i: usize = 0;
    while i < s.len() && s[i] == c
        invariant
            i <= s.len(),
            skip_char(s@, c, 0) == skip_char(s@, c, i as int),
        decreases s.len() - i,
    {
        i += 1;
    }
    slice_chars(s, i, s.len())
}

/// The parts in a row, with `sep` between any two.
pub open spec fn joined(parts: Seq<Seq<char>>, sep: Seq<char>) -> Seq<char>
    decreases parts.len(),
{
    if parts.len() == 0 {
        Seq::<char>::empty()
    } else if parts.len() == 1 {
        parts[0]
    } else {
        joined(parts.drop_last(), sep) + sep + parts.last()
    }
}

/// Joins strings, with `sep` between any two.
pub fn join_strings(parts: &Vec<String>, sep: &str) -> (r: String)
    ensures
        r@ == joined(texts(parts@), sep@),
{
    let mut out = String::new();
    let mut i: usize = 0;
    while i < parts.len()
        invariant
            i <= parts.len(),
            out@ == joined(texts(parts@).take(i as int), sep@),
        decreases parts.len() - i,
    {
        let ghost before = texts(parts@).take(i as int);
        let ghost after = texts(parts@).take(i + 1);
        proof {
            assert(after.drop_last() =~= before);
            assert(after.last() == parts@[i as int]@);
        }
        if i > 0 {
            out.append(sep);
        }
        out.append(parts[i].as_str());
        proof {
            if i == 0 {
                assert(out@ =~= parts@[0]@);
            }
        }
        i += 1;
    }
    proof {
        assert(texts(parts@).take(parts@.len() as int) =~= texts(parts@));
    }
    out
}

/// Number of leading characters of `s`, `k` at most, that take `limit`
/// bytes at most.
pub open spec fn fitting_prefix(s: Seq<char>, limit: nat, k: int) -> int
    decreases k,
{
    if k <= 0 || k > s.len() {
        0
    } else if byte_len(s.take(k)) <= limit {
        k
    } else {
        fitting_prefix(s, limit, k - 1)
    }
}

/// The longest run of whole characters from the start of `s` that takes
/// `limit` bytes at most.
pub open spec fn cut_to_bytes(s: Seq<char>, limit: nat) -> Seq<char> {
    s.take(fitting_prefix(s, limit, s.len() as int))
}

/// The longest run of whole characters from the start of `s` that takes
/// `limit` bytes at most.
pub fn truncate_bytes(s: &str, limit: usize) -> (r: String)
    ensures
        r@ == cut_to_bytes(s@, limit as nat),
{
    let chars = chars_of(s);
    let mut k: usize = chars.len();
    while k > 0
        invariant
            k <= chars.len(),
            chars@ == s@,
            fitting_prefix(s@, limit as nat, s@.len() as int) == fitting_prefix(
                s@,
                limit as nat,
                k as int,
            ),
        decreases k,
    {
        let candidate = string_of(&slice_chars(&chars, 0, k));
        proof {
            assert(chars@.subrange(0, k as int) =~= s@.take(k as int));
        }
        if byte_length(candidate.as_str()) <= limit {
            return candidate;
        }
        k -= 1;
    }
    proof {
        assert(s@.take(0) =~= Seq::<char>::empty());
    }
    String::new()
}

/// The first `n` characters of `s`; all of `s` where it has fewer.
pub open spec fn first_chars(s: Seq<char>, n: nat) -> Seq<char> {
    if n >= s.len() {
        s
    } else {
        s.take(n as int)
    }
}

/// The first `n` characters of `s`.
pub fn take_chars(s: &str, n: usize) -> (r: String)
    ensures
        r@ == first_chars(s@, n as nat),
{
    let chars = chars_of(s);
    if n >= chars.len() {
        return string_of(&chars);
    }
    let r = string_of(&slice_chars(&chars, 0, n));
    proof {
        assert(chars@.subrange(0, n as int) =~= s@.take(n as int));
    }
    r
}

/// `s` with every `from` replaced by `to`.
pub open spec fn with_char_replaced(s: Seq<char>, from: char, to: char) -> Seq<char> {
    s.map_values(|c: char| if c == from { to } else { c })
}

/// Replaces every `from` in `s` by `to`.
pub fn replace_char(s: &str, from: char, to: char) -> (r: String)
    ensures
        r@ == with_char_replaced(s@, from, to),
{
    let chars = chars_of(s);
    let mut out: Vec<char> = Vec::new();
    let mut i: usize = 0;
    while i < chars.len()
        invariant
            i <= chars.len(),
            chars@ == s@,
            out@ == with_char_replaced(s@, from, to).take(i as int),
        decreases chars.len() - i,
    {
        let c = chars[i];
        out.push(if c == from { to } else { c });
        proof {
            assert(out@ =~= with_char_replaced(s@, from, to).take(i + 1));
        }
        i += 1;
    }
    proof {
        assert(out@ =~= with_char_replaced(s@, from, to));
    }
    string_of(&out)
}

/// `s` with every `c` replaced by the text `with`.
pub open spec fn with_char_expanded(s: Seq<char>, c: char, with: Seq<char>) -> Seq<char>
    decreases s.len(),
{
    if s.len() == 0 {
        s
    } else {
        with_char_expanded(s.drop_last(), c, with) + (if s.last() == c {
            with
        } else {
            seq![s.last()]
        })
    }
}

/// Replaces every `c` in `s` by the text `with`.
pub fn expand_char(s: &str, c: char, with: &str) -> (r: String)
    ensures
        r@ == with_char_expanded(s@, c, with@),
{
    let chars = chars_of(s);
    let sub = chars_of(with);
    let mut out: Vec<char> = Vec::new();
    let mut i: usize = 0;
    proof {
        assert(s@.take(0) =~= Seq::<char>::empty());
    }
    while i < chars.len()
        invariant
            i <= chars.len(),
            chars@ == s@,
            sub@ == with@,
            out@ == with_char_expanded(s@.take(i as int), c, with@),
        decreases chars.len() - i,
    {
        proof {
            assert(s@.take(i + 1).drop_last() =~= s@.take(i as int));
            assert(s@.take(i + 1).last() == s@[i as int]);
        }
        if chars[i] == c {
            extend_range(&mut out, &sub, 0, sub.len());
            proof {
                assert(sub@.subrange(0, sub@.len() as int) =~= sub@);
            }
        } else {
            out.push(chars[i]);
            proof {
                assert(out@ =~= with_char_expanded(s@.take(i as int), c, with@) + seq![
                    s@[i as int],
                ]);
            }
        }
        i += 1;
    }
    proof {
        assert(s@.take(s@.len() as int) =~= s@);
    }
    string_of(&out)
}

/// The decimal digit for `d`.
pub open spec fn digit_char(d: nat) -> char {
    if d == 0 {
        '0'
    } else if d == 1 {
        '1'
    } else if d == 2 {
        '2'
    } else if d == 3 {
        '3'
    } else if d == 4 {
        '4'
    } else if d == 5 {
        '5'
    } else if d == 6 {
        '6'
    } else if d == 7 {
        '7'
    } else if d == 8 {
        '8'
    } else {
        '9'
    }
}

/// The decimal numeral of `n`, without leading zeros.
pub open spec fn decimal(n: nat) -> Seq<char>
    decreases n,
{
    if n < 10 {
        seq![digit_char(n)]
    } else {
        decimal(n / 10).push(digit_char(n % 10))
    }
}

fn digit_of(d: u128) -> (c: char)
    requires
        d < 10,
    ensures
        c == digit_char(d as nat),
{
    if d == 0 {
        '0'
    } else if d == 1 {
        '1'
    } else if d == 2 {
        '2'
    } else if d == 3 {
        '3'
    } else if d == 4 {
        '4'
    } else if d == 5 {
        '5'
    } else if d == 6 {
        '6'
    } else if d == 7 {
        '7'
    } else if d == 8 {
        '8'
    } else {
        '9'
    }
}

/// The decimal digits of `n`.
pub fn decimal_chars(n: u128) -> (r: Vec<char>)
    ensures
        r@ == decimal(n as nat),
    decreases n,
{
    if n < 10 {
        let mut v: Vec<char> = Vec::new();
        v.push(digit_of(n));
        v
    } else {
        let mut v = decimal_chars(n / 10);
        v.push(digit_of(n % 10));
        v
    }
}

/// The decimal numeral of `n` as a string.
pub fn decimal_string(n: u128) -> (r: String)
    ensures
        r@ == decimal(n as nat),
{
    string_of(&decimal_chars(n))
}

} // verus!
