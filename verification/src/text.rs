//! Verified operations on text, seen as the sequence of its characters.

use vstd::prelude::*;

verus! {

/// `String::push`: the character is appended at the end of the string.
pub assume_specification[ String::push ](s: &mut String, c: char)
    ensures
        final(s)@ == old(s)@.push(c),
;

/// The characters of `s`, in order.
pub fn chars_of(s: &str) -> (v: Vec<char>)
    ensures
        v@ == s@,
{
    let mut out: Vec<char> = Vec::new();
    for c in it: s.chars()
        invariant
            it.seq() == s@,
            out@ == s@.take(it.index() as int),
    {
        out.push(c);
    }
    assert(s@.take(s@.len() as int) == s@);
    out
}

/// The string made of the characters `v[from..to]`.
pub fn string_of(v: &Vec<char>, from: usize, to: usize) -> (s: String)
    requires
        from <= to <= v.len(),
    ensures
        s@ == v@.subrange(from as int, to as int),
{
    let mut out = String::new();
    let mut i: usize = from;
    while i < to
        invariant
            from <= i <= to <= v.len(),
            out@ == v@.subrange(from as int, i as int),
        decreases to - i,
    {
        out.push(v[i]);
        i += 1;
    }
    out
}

/// Whether the two texts hold the same characters.
pub fn same_text(a: &str, b: &str) -> (r: bool)
    ensures
        r == (a@ == b@),
{
    let mut left = a.chars();
    let mut right = b.chars();
    let ghost mut n: int = 0;
    loop
        invariant
            0 <= n <= a@.len(),
            n <= b@.len(),
            a@.take(n) == b@.take(n),
            vstd::std_specs::iter::IteratorSpec::remaining(&left) == a@.skip(n),
            vstd::std_specs::iter::IteratorSpec::remaining(&right) == b@.skip(n),
        decreases a@.len() - n,
    {
        match (left.next(), right.next()) {
            (Some(x), Some(y)) => {
                assert(x == a@[n] && y == b@[n]);
                if x != y {
                    return false;
                }
                proof {
                    assert(a@.take(n + 1) =~= a@.take(n).push(x));
                    assert(b@.take(n + 1) =~= b@.take(n).push(y));
                    n = n + 1;
                }
            },
            (None, None) => {
                assert(a@.take(n) =~= a@);
                assert(b@.take(n) =~= b@);
                return true;
            },
            _ => {
                return false;
            },
        }
    }
}

/// Whether `pattern` stands in `text` at position `i`.
pub open spec fn occurs_at(text: Seq<char>, pattern: Seq<char>, i: int) -> bool {
    &&& 0 <= i
    &&& i + pattern.len() <= text.len()
    &&& text.subrange(i, i + pattern.len()) == pattern
}

/// Whether `pattern` stands somewhere in `text`.
pub open spec fn occurs(text: Seq<char>, pattern: Seq<char>) -> bool {
    exists|i: int| #[trigger] occurs_at(text, pattern, i)
}

/// Whether `i` is the first position at or behind `from` where `pattern` stands in `text`.
pub open spec fn first_occurrence(text: Seq<char>, pattern: Seq<char>, from: int, i: int) -> bool {
    &&& from <= i
    &&& occurs_at(text, pattern, i)
    &&& forall|j: int| from <= j < i ==> !#[trigger] occurs_at(text, pattern, j)
}

/// The first position at or behind `from` where `pattern` stands in `text`.
pub open spec fn first_place(text: Seq<char>, pattern: Seq<char>, from: int) -> Option<int> {
    if exists|i: int| #[trigger] first_occurrence(text, pattern, from, i) {
        Some(choose|i: int| #[trigger] first_occurrence(text, pattern, from, i))
    } else {
        None
    }
}

/// There is one first position at most.
pub proof fn lemma_first_place(text: Seq<char>, pattern: Seq<char>, from: int, i: int)
    requires
        first_occurrence(text, pattern, from, i),
    ensures
        first_place(text, pattern, from) == Some(i),
{
    let j = choose|j: int| #[trigger] first_occurrence(text, pattern, from, j);
    if i < j {
        assert(occurs_at(text, pattern, i));
    } else if j < i {
        assert(occurs_at(text, pattern, j));
    }
}

/// Where a pattern stands at all, it has a first position.
pub proof fn lemma_some_place(text: Seq<char>, pattern: Seq<char>, from: int, i: int)
    requires
        from <= i,
        occurs_at(text, pattern, i),
    ensures
        first_place(text, pattern, from) matches Some(first) && first_occurrence(
            text,
            pattern,
            from,
            first,
        ),
    decreases i - from,
{
    if exists|j: int| from <= j < i && #[trigger] occurs_at(text, pattern, j) {
        let j = choose|j: int| from <= j < i && #[trigger] occurs_at(text, pattern, j);
        lemma_some_place(text, pattern, from, j);
    } else {
        lemma_first_place(text, pattern, from, i);
    }
}

/// What stands in a part of a text stands in the text.
pub proof fn lemma_occurs_within(
    before: Seq<char>,
    part: Seq<char>,
    behind: Seq<char>,
    pattern: Seq<char>,
)
    requires
        occurs(part, pattern),
    ensures
        occurs(before + part + behind, pattern),
{
    let i = choose|i: int| #[trigger] occurs_at(part, pattern, i);
    let at = before.len() + i;
    let n = pattern.len() as int;
    assert((before + part + behind).subrange(at, at + n) =~= part.subrange(i, i + n));
    assert(occurs_at(before + part + behind, pattern, at));
}

/// Whether `pattern` stands in `text` at position `i`.
pub fn text_occurs_at(text: &Vec<char>, pattern: &Vec<char>, i: usize) -> (r: bool)
    ensures
        r == occurs_at(text@, pattern@, i as int),
{
    if i > text.len() || pattern.len() > text.len() - i {
        return false;
    }
    let mut k: usize = 0;
    while k < pattern.len()
        invariant
            k <= pattern.len(),
            i + pattern.len() <= text.len(),
            forall|j: int| 0 <= j < k ==> text@[i + j] == #[trigger] pattern@[j],
        decreases pattern.len() - k,
    {
        if text[i + k] != pattern[k] {
            assert(text@.subrange(i as int, i + pattern.len())[k as int] != pattern@[k as int]);
            return false;
        }
        k += 1;
    }
    assert(text@.subrange(i as int, i + pattern.len()) =~= pattern@);
    true
}

/// The first position at or behind `from` where `pattern` stands in `text`.
pub fn find_from(text: &Vec<char>, pattern: &Vec<char>, from: usize) -> (r: Option<usize>)
    requires
        from <= text.len(),
    ensures
        match r {
            Some(i) => first_occurrence(text@, pattern@, from as int, i as int) && first_place(
                text@,
                pattern@,
                from as int,
            ) == Some(i as int),
            None => first_place(text@, pattern@, from as int) is None && forall|j: int|
                from <= j ==> !#[trigger] occurs_at(text@, pattern@, j),
        },
{
    let mut i: usize = from;
    while i < text.len()
        invariant
            from <= i <= text.len(),
            forall|j: int| from <= j < i ==> !#[trigger] occurs_at(text@, pattern@, j),
        decreases text.len() - i,
    {
        if text_occurs_at(text, pattern, i) {
            proof {
                lemma_first_place(text@, pattern@, from as int, i as int);
            }
            return Some(i);
        }
        i += 1;
    }
    if text_occurs_at(text, pattern, i) {
        proof {
            lemma_first_place(text@, pattern@, from as int, i as int);
        }
        return Some(i);
    }
    None
}

/// Whether `text` begins with `prefix`.
pub fn starts_with(text: &str, prefix: &str) -> (r: bool)
    ensures
        r == occurs_at(text@, prefix@, 0),
{
    let chars = chars_of(text);
    let start = chars_of(prefix);
    text_occurs_at(&chars, &start, 0)
}

/// The Unicode property White_Space.
pub open spec fn white_space(c: char) -> bool {
    let u = c as u32;
    ||| 0x9 <= u <= 0xd
    ||| u == 0x20
    ||| u == 0x85
    ||| u == 0xa0
    ||| u == 0x1680
    ||| 0x2000 <= u <= 0x200a
    ||| u == 0x2028
    ||| u == 0x2029
    ||| u == 0x202f
    ||| u == 0x205f
    ||| u == 0x3000
}

/// `char::is_whitespace`: whether the character has the Unicode property White_Space.
pub assume_specification[ char::is_whitespace ](c: char) -> (r: bool)
    ensures
        r == white_space(c),
;

/// `s` without the characters at its start for which `drop` holds.
pub open spec fn drop_start(s: Seq<char>, drop: spec_fn(char) -> bool) -> Seq<char>
    decreases s.len(),
{
    if s.len() > 0 && drop(s[0]) {
        drop_start(s.skip(1), drop)
    } else {
        s
    }
}

/// `s` without the characters at its end for which `drop` holds.
pub open spec fn drop_end(s: Seq<char>, drop: spec_fn(char) -> bool) -> Seq<char>
    decreases s.len(),
{
    if s.len() > 0 && drop(s.last()) {
        drop_end(s.drop_last(), drop)
    } else {
        s
    }
}

/// What is left is the end of the text, and does not start with a character to be dropped.
pub proof fn lemma_drop_start(s: Seq<char>, drop: spec_fn(char) -> bool)
    ensures
        drop_start(s, drop).len() <= s.len(),
        drop_start(s, drop) == s.skip(s.len() - drop_start(s, drop).len()),
        drop_start(s, drop).len() > 0 ==> !drop(drop_start(s, drop)[0]),
        forall|i: int| 0 <= i < s.len() - drop_start(s, drop).len() ==> drop(#[trigger] s[i]),
    decreases s.len(),
{
    if s.len() > 0 && drop(s[0]) {
        let rest = s.skip(1);
        lemma_drop_start(rest, drop);
        let n = drop_start(rest, drop).len();
        assert(rest.skip(rest.len() - n) =~= s.skip(s.len() - n));
        assert forall|i: int| 0 <= i < s.len() - n implies drop(#[trigger] s[i]) by {
            if i > 0 {
                assert(rest[i - 1] == s[i]);
            }
        }
    } else {
        assert(s.skip(0) =~= s);
    }
}

/// What is left is the start of the text, and does not end with a character to be dropped.
pub proof fn lemma_drop_end(s: Seq<char>, drop: spec_fn(char) -> bool)
    ensures
        drop_end(s, drop).len() <= s.len(),
        drop_end(s, drop) == s.take(drop_end(s, drop).len() as int),
        drop_end(s, drop).len() > 0 ==> !drop(drop_end(s, drop).last()),
        forall|i: int| drop_end(s, drop).len() <= i < s.len() ==> drop(#[trigger] s[i]),
    decreases s.len(),
{
    if s.len() > 0 && drop(s.last()) {
        let rest = s.drop_last();
        lemma_drop_end(rest, drop);
        let n = drop_end(rest, drop).len() as int;
        assert(rest.take(n) =~= s.take(n));
        assert forall|i: int| n <= i < s.len() implies drop(#[trigger] s[i]) by {
            if i < s.len() - 1 {
                assert(rest[i] == s[i]);
            }
        }
    } else {
        assert(s.take(s.len() as int) =~= s);
    }
}

/// `s` without white space at its two ends.
pub open spec fn trimmed(s: Seq<char>) -> Seq<char> {
    drop_end(drop_start(s, |c: char| white_space(c)), |c: char| white_space(c))
}

/// `s` without white space at its two ends.
pub fn trim(s: &str) -> (r: String)
    ensures
        r@ == trimmed(s@),
{
    let v = chars_of(s);
    let ghost white = |c: char| white_space(c);
    let mut from: usize = 0;
    assert(v@.skip(0) =~= v@);
    while from < v.len() && v[from].is_whitespace()
        invariant
            from <= v.len(),
            white == |c: char| white_space(c),
            drop_start(v@, white) == drop_start(v@.skip(from as int), white),
        decreases v.len() - from,
    {
        proof {
            assert(v@.skip(from as int).skip(1) =~= v@.skip(from + 1));
        }
        from += 1;
    }
    let ghost rest = v@.skip(from as int);
    let mut to: usize = v.len();
    proof {
        assert(v@.subrange(from as int, to as int) =~= rest);
    }
    while from < to && v[to - 1].is_whitespace()
        invariant
            from <= to <= v.len(),
            white == |c: char| white_space(c),
            drop_end(rest, white) == drop_end(v@.subrange(from as int, to as int), white),
        decreases to,
    {
        proof {
            assert(v@.subrange(from as int, to as int).drop_last() =~= v@.subrange(
                from as int,
                to - 1,
            ));
        }
        to -= 1;
    }
    string_of(&v, from, to)
}

/// The property of being the character `mark`.
pub open spec fn being(mark: char) -> spec_fn(char) -> bool {
    |c: char| c == mark
}

/// `s` without the character `mark` at its two ends.
pub open spec fn trimmed_of(s: Seq<char>, mark: char) -> Seq<char> {
    drop_end(drop_start(s, being(mark)), being(mark))
}

/// `v` without the character `mark` at its two ends.
pub fn trim_mark(v: &Vec<char>, mark: char) -> (r: Vec<char>)
    ensures
        r@ == trimmed_of(v@, mark),
{
    let ghost same = being(mark);
    let mut from: usize = 0;
    assert(v@.skip(0) =~= v@);
    while from < v.len() && v[from] == mark
        invariant
            from <= v.len(),
            same == being(mark),
            drop_start(v@, same) == drop_start(v@.skip(from as int), same),
        decreases v.len() - from,
    {
        proof {
            assert(v@.skip(from as int).skip(1) =~= v@.skip(from + 1));
        }
        from += 1;
    }
    let ghost rest = v@.skip(from as int);
    let mut to: usize = v.len();
    proof {
        assert(v@.subrange(from as int, to as int) =~= rest);
    }
    while from < to && v[to - 1] == mark
        invariant
            from <= to <= v.len(),
            same == being(mark),
            drop_end(rest, same) == drop_end(v@.subrange(from as int, to as int), same),
        decreases to,
    {
        proof {
            assert(v@.subrange(from as int, to as int).drop_last() =~= v@.subrange(
                from as int,
                to - 1,
            ));
        }
        to -= 1;
    }
    let mut out: Vec<char> = Vec::new();
    let mut i: usize = from;
    while i < to
        invariant
            from <= i <= to <= v.len(),
            out@ == v@.subrange(from as int, i as int),
        decreases to - i,
    {
        out.push(v[i]);
        i += 1;
    }
    out
}

/// The lower-case form of a character, which may be more than one character.
pub uninterp spec fn char_lowercase(c: char) -> Seq<char>;

/// Whether the character is an ASCII character.
pub open spec fn ascii(c: char) -> bool {
    c <= '\x7f'
}

/// The lower-case form of an ASCII character.
pub open spec fn ascii_lowercase(c: char) -> char {
    if 'A' <= c && c <= 'Z' {
        (c as u32 + 32) as char
    } else {
        c
    }
}

/// `char::to_lowercase`: the lower-case form is a function of the character; that of an
/// ASCII capital is the matching small letter, and any other ASCII character is its own. No
/// lower-case form holds an ASCII capital.
#[verifier::external_body]
fn lowercase(c: char) -> (r: Vec<char>)
    ensures
        r@ == char_lowercase(c),
        ascii(c) ==> r@ == seq![ascii_lowercase(c)],
        no_capitals(r@),
{
    c.to_lowercase().collect()
}

/// The text in lower case.
pub open spec fn lowered(s: Seq<char>) -> Seq<char>
    decreases s.len(),
{
    if s.len() == 0 {
        Seq::empty()
    } else {
        lowered(s.drop_last()) + char_lowercase(s.last())
    }
}

/// Whether each ASCII character of the text has the lower-case form that ASCII gives it.
pub open spec fn lowers_ascii(s: Seq<char>) -> bool {
    forall|i: int|
        0 <= i < s.len() && ascii(#[trigger] s[i]) ==> char_lowercase(s[i]) == seq![
            ascii_lowercase(s[i]),
        ]
}

/// The upper-case form of an ASCII character; any other character is its own.
pub open spec fn ascii_uppercase(c: char) -> char {
    if 'a' <= c && c <= 'z' {
        (c as u32 - 32) as char
    } else {
        c
    }
}

/// The text with each ASCII character in upper case.
pub open spec fn ascii_raised(s: Seq<char>) -> Seq<char> {
    s.map_values(|c: char| ascii_uppercase(c))
}

/// Whether the character is an ASCII capital.
pub open spec fn capital(c: char) -> bool {
    'A' <= c && c <= 'Z'
}

/// Whether no character of the text is an ASCII capital.
pub open spec fn no_capitals(s: Seq<char>) -> bool {
    forall|i: int| 0 <= i < s.len() ==> !capital(#[trigger] s[i])
}

/// The case of ASCII letters makes no difference to a text in lower case.
pub proof fn lemma_lowered_ignores_case(s: Seq<char>)
    requires
        lowers_ascii(s),
        lowers_ascii(ascii_raised(s)),
    ensures
        lowered(ascii_raised(s)) == lowered(s),
    decreases s.len(),
{
    let raised = ascii_raised(s);
    if s.len() > 0 {
        let before = s.drop_last();
        assert(ascii_raised(before) =~= raised.drop_last());
        assert(lowers_ascii(before)) by {
            assert(forall|i: int| 0 <= i < before.len() ==> #[trigger] before[i] == s[i]);
        }
        assert(lowers_ascii(ascii_raised(before))) by {
            assert(forall|i: int|
                0 <= i < before.len() ==> #[trigger] ascii_raised(before)[i] == raised[i]);
        }
        lemma_lowered_ignores_case(before);
        let c = s[s.len() - 1];
        assert(raised[s.len() - 1] == ascii_uppercase(c));
        if ascii(c) {
            assert(ascii_lowercase(ascii_uppercase(c)) == ascii_lowercase(c));
            assert(ascii(raised[s.len() - 1]));
        }
    }
}

/// A text of ASCII characters without capitals is its own lower-case form.
pub proof fn lemma_lowered_keeps(s: Seq<char>)
    requires
        lowers_ascii(s),
        no_capitals(s),
        forall|i: int| 0 <= i < s.len() ==> ascii(#[trigger] s[i]),
    ensures
        lowered(s) == s,
    decreases s.len(),
{
    if s.len() > 0 {
        let before = s.drop_last();
        assert(forall|i: int| 0 <= i < before.len() ==> #[trigger] before[i] == s[i]);
        lemma_lowered_keeps(before);
        assert(ascii(s[s.len() - 1]));
        assert(lowered(s) =~= s);
    }
}

/// The text in lower case.
pub fn lower_text(s: &str) -> (r: Vec<char>)
    ensures
        r@ == lowered(s@),
        lowers_ascii(s@),
        no_capitals(r@),
        (forall|i: int| 0 <= i < s@.len() ==> ascii(#[trigger] s@[i])) ==> r@ == s@.map_values(
            |c: char| ascii_lowercase(c),
        ),
{
    let chars = chars_of(s);
    let mut out: Vec<char> = Vec::new();
    let mut i: usize = 0;
    while i < chars.len()
        invariant
            i <= chars.len(),
            out@ == lowered(chars@.take(i as int)),
            no_capitals(out@),
            forall|j: int|
                0 <= j < i && ascii(#[trigger] chars@[j]) ==> char_lowercase(chars@[j]) == seq![
                    ascii_lowercase(chars@[j]),
                ],
            (forall|j: int| 0 <= j < chars@.len() ==> ascii(#[trigger] chars@[j])) ==> out@
                == chars@.take(i as int).map_values(|c: char| ascii_lowercase(c)),
        decreases chars.len() - i,
    {
        let ghost before = out@;
        let mut form = lowercase(chars[i]);
        out.append(&mut form);
        assert(chars@.take(i + 1).drop_last() =~= chars@.take(i as int));
        proof {
            if forall|j: int| 0 <= j < chars@.len() ==> ascii(#[trigger] chars@[j]) {
                assert(ascii(chars@[i as int]));
                assert(out@ =~= chars@.take(i + 1).map_values(|c: char| ascii_lowercase(c)));
            }
        }
        i += 1;
    }
    assert(chars@.take(i as int) =~= s@);
    out
}

/// The place of a file or a directory named `file` in the directory `directory`.
pub open spec fn path_within(directory: Seq<char>, file: Seq<char>) -> Seq<char> {
    if directory.len() == 0 || directory.last() == '/' {
        directory + file
    } else {
        directory + "/"@ + file
    }
}

/// The place of a file or a directory named `file` in the directory `directory`.
pub fn path_in(directory: &str, file: &str) -> (r: String)
    ensures
        r@ == path_within(directory@, file@),
{
    let chars = chars_of(directory);
    let mut path = directory.to_string();
    if chars.len() > 0 && chars[chars.len() - 1] != '/' {
        path.append("/");
    }
    path.append(file);
    path
}

/// The digit of value `d` in base sixteen, in lower case.
pub open spec fn digit(d: int) -> char {
    if d < 10 {
        ('0' as int + d) as char
    } else {
        ('a' as int + d - 10) as char
    }
}

/// The digit of value `d` in base sixteen, in lower case.
pub fn digit_char(d: u8) -> (c: char)
    requires
        d < 16,
    ensures
        c == digit(d as int),
{
    if d < 10 {
        (48u8 + d) as char
    } else {
        (87u8 + d) as char
    }
}

/// `n` in base ten, without leading zeros.
pub open spec fn decimal(n: nat) -> Seq<char>
    decreases n,
{
    if n < 10 {
        seq![digit(n as int)]
    } else {
        decimal(n / 10).push(digit((n % 10) as int))
    }
}

/// `n` in base ten, without leading zeros.
pub fn decimal_text(n: u64) -> (s: String)
    ensures
        s@ == decimal(n as nat),
    decreases n,
{
    let mut out = String::new();
    if n < 10 {
        out.push(digit_char(n as u8));
        assert(out@ =~= seq![digit(n as int)]);
    } else {
        out = decimal_text(n / 10);
        out.push(digit_char((n % 10) as u8));
    }
    out
}

/// Two lower-case hexadecimal digits for each byte.
pub open spec fn hex(bytes: Seq<u8>) -> Seq<char>
    decreases bytes.len(),
{
    if bytes.len() == 0 {
        Seq::empty()
    } else {
        hex(bytes.drop_last()).push(digit(bytes.last() as int / 16)).push(
            digit(bytes.last() as int % 16),
        )
    }
}

/// Two lower-case hexadecimal digits for each byte.
pub fn hex_text(bytes: &[u8]) -> (s: String)
    ensures
        s@ == hex(bytes@),
{
    let mut out = String::new();
    let mut i: usize = 0;
    while i < bytes.len()
        invariant
            i <= bytes.len(),
            out@ == hex(bytes@.take(i as int)),
        decreases bytes.len() - i,
    {
        let b = bytes[i];
        out.push(digit_char(b / 16));
        out.push(digit_char(b % 16));
        assert(bytes@.take(i + 1).drop_last() =~= bytes@.take(i as int));
        i += 1;
    }
    assert(bytes@.take(i as int) =~= bytes@);
    out
}

/// The order of texts by their characters, the first difference deciding.
pub open spec fn text_less(a: Seq<char>, b: Seq<char>) -> bool
    decreases a.len(),
{
    if b.len() == 0 {
        false
    } else if a.len() == 0 {
        true
    } else if a[0] != b[0] {
        a[0] < b[0]
    } else {
        text_less(a.skip(1), b.skip(1))
    }
}

/// Of two different texts one stands before the other.
pub proof fn lemma_less_total(a: Seq<char>, b: Seq<char>)
    ensures
        a != b ==> text_less(a, b) || text_less(b, a),
    decreases a.len(),
{
    if a.len() == 0 && b.len() == 0 {
        assert(a =~= b);
    } else if a.len() > 0 && b.len() > 0 && a[0] == b[0] {
        lemma_less_total(a.skip(1), b.skip(1));
        if a.skip(1) == b.skip(1) {
            assert(a =~= seq![a[0]] + a.skip(1));
            assert(b =~= seq![b[0]] + b.skip(1));
        }
    }
}

/// What stands before a text stands before what that text stands before.
pub proof fn lemma_less_transitive(a: Seq<char>, b: Seq<char>, c: Seq<char>)
    requires
        text_less(a, b),
        text_less(b, c),
    ensures
        text_less(a, c),
    decreases a.len(),
{
    if a.len() > 0 && b.len() > 0 && c.len() > 0 && a[0] == b[0] && b[0] == c[0] {
        lemma_less_transitive(a.skip(1), b.skip(1), c.skip(1));
    }
}

/// Whether `a` stands before `b` in the order of texts.
pub fn text_before(a: &str, b: &str) -> (r: bool)
    ensures
        r == text_less(a@, b@),
{
    let left = chars_of(a);
    let right = chars_of(b);
    let mut i: usize = 0;
    assert(left@.skip(0) =~= left@);
    assert(right@.skip(0) =~= right@);
    while i < left.len() && i < right.len() && left[i] == right[i]
        invariant
            i <= left.len(),
            i <= right.len(),
            text_less(left@, right@) == text_less(left@.skip(i as int), right@.skip(i as int)),
        decreases left.len() - i,
    {
        proof {
            assert(left@.skip(i as int).skip(1) =~= left@.skip(i + 1));
            assert(right@.skip(i as int).skip(1) =~= right@.skip(i + 1));
        }
        i += 1;
    }
    if i >= right.len() {
        return false;
    }
    if i >= left.len() {
        return true;
    }
    left[i] < right[i]
}

/// The texts of the list, in order.
pub open spec fn texts(v: Seq<String>) -> Seq<Seq<char>> {
    v.map_values(|s: String| s@)
}

/// A list of the same texts.
pub fn copy_texts(v: &[String]) -> (r: Vec<String>)
    ensures
        texts(r@) == texts(v@),
{
    let mut out: Vec<String> = Vec::new();
    let mut i: usize = 0;
    while i < v.len()
        invariant
            i <= v.len(),
            texts(out@) == texts(v@).take(i as int),
        decreases v.len() - i,
    {
        let ghost before = out@;
        out.push(v[i].clone());
        assert(texts(out@) =~= texts(before).push(v@[i as int]@));
        assert(texts(v@).take(i + 1) =~= texts(v@).take(i as int).push(v@[i as int]@));
        i += 1;
    }
    assert(texts(v@).take(i as int) =~= texts(v@));
    out
}

} // verus!
