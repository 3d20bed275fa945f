//! Strings as sequences of characters.
use vstd::prelude::*;

verus! {

/// `String::push` appends the given character to the end of the string.
pub assume_specification[ String::push ](s: &mut String, ch: char)
    ensures
        final(s)@ == old(s)@.push(ch),
;

/// The characters of `s`, in order.
pub fn chars_of(s: &str) -> (chars: Vec<char>)
    ensures
        chars@ == s@,
{
    let mut chars: Vec<char> = Vec::new();
    for c in it: s.chars()
        invariant
            it.seq() == s@,
            chars@ == it.seq().take(it.index() as int),
    {
        chars.push(c);
    }
    chars
}

/// The string made of the characters of `chars`, in order.
pub fn string_of(chars: &[char]) -> (s: String)
    ensures
        s@ == chars@,
{
    let mut s = String::new();
    for i in 0..chars.len()
        invariant
            s@ == chars@.take(i as int),
    {
        s.push(chars[i]);
    }
    s
}

/// Whether `part` stands in `s` at position `i`.
pub open spec fn occurs_at(s: Seq<char>, part: Seq<char>, i: int) -> bool {
    0 <= i && i + part.len() <= s.len() && s.subrange(i, i + part.len()) == part
}

/// Whether `part` stands anywhere in `s`.
pub open spec fn occurs_in(s: Seq<char>, part: Seq<char>) -> bool {
    exists|i: int| occurs_at(s, part, i)
}

/// The last position at or before `i` at which `part` stands in `s`, or `-1`.
pub open spec fn last_at_or_before(s: Seq<char>, part: Seq<char>, i: int) -> int
    decreases i + 1,
{
    if i < 0 {
        -1
    } else if occurs_at(s, part, i) {
        i
    } else {
        last_at_or_before(s, part, i - 1)
    }
}

/// The last position at which `part` stands in `s`, or `-1`.
pub open spec fn last_position(s: Seq<char>, part: Seq<char>) -> int {
    last_at_or_before(s, part, s.len() - part.len())
}

/// [`last_at_or_before`] gives a position at which `part` stands and after which, up to `i`,
/// it does not.
pub proof fn lemma_last_at_or_before(s: Seq<char>, part: Seq<char>, i: int)
    ensures
        ({
            let at = last_at_or_before(s, part, i);
            &&& at == -1 || (0 <= at <= i && occurs_at(s, part, at))
            &&& forall|j: int| at < j <= i ==> !occurs_at(s, part, j)
        }),
    decreases i + 1,
{
    if i >= 0 && !occurs_at(s, part, i) {
        lemma_last_at_or_before(s, part, i - 1);
    }
}

/// The last position of a part is one at which it stands, with none after it; there is none
/// exactly when the part does not occur.
pub proof fn law_last_position(s: Seq<char>, part: Seq<char>)
    ensures
        ({
            let at = last_position(s, part);
            &&& at == -1 || (0 <= at && occurs_at(s, part, at))
            &&& forall|j: int| at < j ==> !occurs_at(s, part, j)
            &&& at == -1 <==> !occurs_in(s, part)
        }),
{
    lemma_last_at_or_before(s, part, s.len() - part.len());
}

/// The whitespace of Unicode.
pub open spec fn is_space(c: char) -> bool {
    let n = c as int;
    ||| 0x09 <= n <= 0x0D
    ||| n == 0x20
    ||| n == 0x85
    ||| n == 0xA0
    ||| n == 0x1680
    ||| 0x2000 <= n <= 0x200A
    ||| n == 0x2028
    ||| n == 0x2029
    ||| n == 0x202F
    ||| n == 0x205F
    ||| n == 0x3000
}

/// `s` without the whitespace at its start.
pub open spec fn without_leading_space(s: Seq<char>) -> Seq<char>
    decreases s.len(),
{
    if s.len() > 0 && is_space(s.first()) {
        without_leading_space(s.drop_first())
    } else {
        s
    }
}

/// `s` without the whitespace at its end.
pub open spec fn without_trailing_space(s: Seq<char>) -> Seq<char>
    decreases s.len(),
{
    if s.len() > 0 && is_space(s.last()) {
        without_trailing_space(s.drop_last())
    } else {
        s
    }
}

/// `s` without the whitespace at both ends.
pub open spec fn trimmed(s: Seq<char>) -> Seq<char> {
    without_trailing_space(without_leading_space(s))
}

/// The small letter for a capital letter of ASCII, every other character itself.
pub open spec fn ascii_lower(c: char) -> char {
    if 'A' <= c <= 'Z' {
        (c as int + 32) as char
    } else {
        c
    }
}

/// `s` with small letters for the capital letters of ASCII.
pub open spec fn lower_ascii(s: Seq<char>) -> Seq<char> {
    s.map_values(|c: char| ascii_lower(c))
}

/// Whether every character of `s` is an ASCII character.
pub open spec fn all_ascii(s: Seq<char>) -> bool {
    forall|i: int| 0 <= i < s.len() ==> #[trigger] s[i] <= '\x7F'
}

/// Whether `a` and `b` differ at most in the case of ASCII letters.
pub open spec fn same_but_for_case(a: Seq<char>, b: Seq<char>) -> bool {
    lower_ascii(a) == lower_ascii(b)
}

/// What `str::to_lowercase` gives for a text.
pub uninterp spec fn lowercase_of(s: Seq<char>) -> Seq<char>;

/// `str::to_lowercase`: the lowercase equivalent of `s` by the rules of Unicode, which
/// depends on `s` alone. Of a text of ASCII characters it changes the capital letters, each
/// to its small letter, and nothing else. Of other texts no more is said; in particular not
/// that whitespace and dashes stay as they are, nor that the parts of a text around them are
/// lowered as each would be alone.
#[verifier::external_body]
pub(crate) fn lowercase(s: &str) -> (lower: String)
    ensures
        lower@ == lowercase_of(s@),
        all_ascii(s@) ==> lower@ == lower_ascii(s@),
{
    s.to_lowercase()
}

/// Whether `c` is whitespace.
pub fn is_whitespace(c: char) -> (space: bool)
    ensures
        space == is_space(c),
{
    let n: u32 = c as u32;
    (0x09 <= n && n <= 0x0D) || n == 0x20 || n == 0x85 || n == 0xA0 || n == 0x1680 || (0x2000 <= n
        && n <= 0x200A) || n == 0x2028 || n == 0x2029 || n == 0x202F || n == 0x205F || n == 0x3000
}

/// Whether `part` stands in `s` at position `at`.
fn stands_at(s: &[char], part: &[char], at: usize) -> (found: bool)
    ensures
        found == occurs_at(s@, part@, at as int),
{
    if part.len() > s.len() || at > s.len() - part.len() {
        return false;
    }
    let mut k: usize = 0;
    while k < part.len()
        invariant
            k <= part.len(),
            at + part.len() <= s.len(),
            forall|j: int| 0 <= j < k ==> s@[at + j] == part@[j],
        decreases part.len() - k,
    {
        if s[at + k] != part[k] {
            assert(s@.subrange(at as int, at + part.len())[k as int] != part@[k as int]);
            return false;
        }
        k += 1;
    }
    assert(s@.subrange(at as int, at + part.len()) == part@);
    true
}

/// Whether `s` begins with `part`.
pub fn starts_with(s: &[char], part: &[char]) -> (found: bool)
    ensures
        found == occurs_at(s@, part@, 0),
{
    stands_at(s, part, 0)
}

/// Whether `part` stands anywhere in `s`.
pub fn contains(s: &[char], part: &[char]) -> (found: bool)
    ensures
        found == occurs_in(s@, part@),
{
    if part.len() > s.len() {
        return false;
    }
    let last: usize = s.len() - part.len();
    let mut i: usize = 0;
    while !stands_at(s, part, i)
        invariant
            i <= last == s.len() - part.len(),
            forall|j: int| 0 <= j < i ==> !occurs_at(s@, part@, j),
        decreases last - i,
    {
        if i == last {
            return false;
        }
        i += 1;
    }
    true
}

/// The last position at which `part` stands in `s`.
pub fn last_index_of(s: &[char], part: &[char]) -> (at: Option<usize>)
    ensures
        match at {
            Some(i) => i == last_position(s@, part@) && occurs_at(s@, part@, i as int),
            None => last_position(s@, part@) == -1,
        },
{
    if part.len() > s.len() {
        return None;
    }
    let mut i: usize = s.len() - part.len();
    while !stands_at(s, part, i)
        invariant
            i <= s.len() - part.len(),
            last_position(s@, part@) == last_at_or_before(s@, part@, i as int),
        decreases i,
    {
        assert(last_at_or_before(s@, part@, -1) == -1);
        if i == 0 {
            return None;
        }
        i -= 1;
    }
    Some(i)
}

/// `s` without the whitespace at both ends.
pub fn trim(s: &[char]) -> (rest: &[char])
    ensures
        rest@ == trimmed(s@),
{
    let mut from: usize = 0;
    assert(s@.subrange(0, s@.len() as int) == s@);
    while from < s.len() && is_whitespace(s[from])
        invariant
            from <= s.len(),
            without_leading_space(s@) == without_leading_space(
                s@.subrange(from as int, s@.len() as int),
            ),
        decreases s.len() - from,
    {
        assert(s@.subrange(from as int, s@.len() as int).drop_first() == s@.subrange(
            from + 1,
            s@.len() as int,
        ));
        from += 1;
    }
    let mut to: usize = s.len();
    let ghost body = s@.subrange(from as int, s@.len() as int);
    while from < to && is_whitespace(s[to - 1])
        invariant
            from <= to <= s.len(),
            without_trailing_space(body) == without_trailing_space(
                s@.subrange(from as int, to as int),
            ),
        decreases to - from,
    {
        assert(s@.subrange(from as int, to as int).drop_last() == s@.subrange(
            from as int,
            to - 1,
        ));
        to -= 1;
    }
    vstd::slice::slice_subrange(s, from, to)
}

/// The small letter for a capital letter of ASCII, every other character itself.
fn to_ascii_lower(c: char) -> (lower: char)
    ensures
        lower == ascii_lower(c),
{
    if 'A' <= c && c <= 'Z' {
        ((c as u8) + 32) as char
    } else {
        c
    }
}

/// Whether `a` and `b` differ at most in the case of ASCII letters.
pub fn eq_ignore_ascii_case(a: &str, b: &str) -> (same: bool)
    ensures
        same == same_but_for_case(a@, b@),
{
    let a_chars = chars_of(a);
    let b_chars = chars_of(b);
    if a_chars.len() != b_chars.len() {
        assert(lower_ascii(a@).len() != lower_ascii(b@).len());
        return false;
    }
    for i in 0..a_chars.len()
        invariant
            a_chars@ == a@,
            b_chars@ == b@,
            a@.len() == b@.len(),
            forall|j: int| 0 <= j < i ==> ascii_lower(a@[j]) == ascii_lower(b@[j]),
    {
        if to_ascii_lower(a_chars[i]) != to_ascii_lower(b_chars[i]) {
            assert(lower_ascii(a@)[i as int] != lower_ascii(b@)[i as int]);
            return false;
        }
    }
    assert(lower_ascii(a@) == lower_ascii(b@));
    true
}

/// Taking whitespace away makes no text longer.
proof fn lemma_without_space_is_no_longer(s: Seq<char>)
    ensures
        without_leading_space(s).len() <= s.len(),
        without_trailing_space(s).len() <= s.len(),
    decreases s.len(),
{
    if s.len() > 0 {
        lemma_without_space_is_no_longer(s.drop_first());
        lemma_without_space_is_no_longer(s.drop_last());
    }
}

/// A text is trimmed exactly when it neither begins nor ends with whitespace.
pub proof fn law_trimmed_ends(s: Seq<char>)
    ensures
        trimmed(s) == s <==> (s.len() > 0 ==> !is_space(s.first()) && !is_space(s.last())),
{
    lemma_without_space_is_no_longer(s);
    lemma_without_space_is_no_longer(without_leading_space(s));
    if s.len() > 0 {
        lemma_without_space_is_no_longer(s.drop_first());
        lemma_without_space_is_no_longer(s.drop_last());
    }
}

/// Lowering ASCII letters keeps a trimmed text trimmed.
pub proof fn lemma_lowering_keeps_trimmed(s: Seq<char>)
    requires
        trimmed(s) == s,
    ensures
        trimmed(lower_ascii(s)) == lower_ascii(s),
{
    law_trimmed_ends(s);
    law_trimmed_ends(lower_ascii(s));
}

/// A part stands at a position exactly when the text is so many characters, the part, and
/// whatever follows.
pub proof fn law_occurs_at(s: Seq<char>, part: Seq<char>, i: int)
    ensures
        occurs_at(s, part, i) <==> exists|a: Seq<char>, b: Seq<char>|
            s == #[trigger] (a + part + b) && a.len() == i,
{
    if occurs_at(s, part, i) {
        let a = s.take(i);
        let b = s.skip(i + part.len());
        assert(s.subrange(i, i + part.len()) == part);
        assert forall|k: int| 0 <= k < part.len() implies part[k] == #[trigger] s[i + k] by {
            assert(s.subrange(i, i + part.len())[k] == part[k]);
        }
        assert(s =~= a + part + b);
    }
    if exists|a: Seq<char>, b: Seq<char>| s == #[trigger] (a + part + b) && a.len() == i {
        let (a, b) = choose|a: Seq<char>, b: Seq<char>|
            s == #[trigger] (a + part + b) && a.len() == i;
        assert(s.subrange(i, i + part.len()) =~= part);
    }
}

/// A part occurs in a text exactly when the text is something, the part, and something.
pub proof fn law_occurs_in(s: Seq<char>, part: Seq<char>)
    ensures
        occurs_in(s, part) <==> exists|a: Seq<char>, b: Seq<char>| s == #[trigger] (a + part + b),
{
    if occurs_in(s, part) {
        let i = choose|i: int| occurs_at(s, part, i);
        law_occurs_at(s, part, i);
    }
    if exists|a: Seq<char>, b: Seq<char>| s == #[trigger] (a + part + b) {
        let (a, b) = choose|a: Seq<char>, b: Seq<char>| s == #[trigger] (a + part + b);
        law_occurs_at(s, part, a.len() as int);
        assert(occurs_at(s, part, a.len() as int));
    }
}

/// A part stands at the start of a text exactly when the text is the part and something.
pub proof fn law_occurs_at_start(s: Seq<char>, part: Seq<char>)
    ensures
        occurs_at(s, part, 0) <==> exists|b: Seq<char>| s == #[trigger] (part + b),
{
    law_occurs_at(s, part, 0);
    if occurs_at(s, part, 0) {
        let (a, b) = choose|a: Seq<char>, b: Seq<char>|
            s == #[trigger] (a + part + b) && a.len() == 0;
        assert(s =~= part + b);
    }
    if exists|b: Seq<char>| s == #[trigger] (part + b) {
        let b = choose|b: Seq<char>| s == #[trigger] (part + b);
        assert(s =~= Seq::<char>::empty() + part + b);
    }
}

/// The whitespace characters, one by one.
pub proof fn law_whitespace_characters(c: char)
    ensures
        is_space(c) <==> {
            ||| c == '\t' || c == '\n' || c == '\u{B}' || c == '\u{C}' || c == '\r' || c == ' '
            ||| c == '\u{85}' || c == '\u{A0}' || c == '\u{1680}'
            ||| c == '\u{2000}' || c == '\u{2001}' || c == '\u{2002}' || c == '\u{2003}'
            ||| c == '\u{2004}' || c == '\u{2005}' || c == '\u{2006}' || c == '\u{2007}'
            ||| c == '\u{2008}' || c == '\u{2009}' || c == '\u{200A}'
            ||| c == '\u{2028}' || c == '\u{2029}' || c == '\u{202F}' || c == '\u{205F}'
            ||| c == '\u{3000}'
        },
{
}

/// The whitespace that [`without_leading_space`] takes away.
proof fn lemma_leading(s: Seq<char>) -> (l: Seq<char>)
    ensures
        s == l + without_leading_space(s),
        forall|i: int| 0 <= i < l.len() ==> is_space(#[trigger] l[i]),
        without_leading_space(s).len() > 0 ==> !is_space(without_leading_space(s).first()),
    decreases s.len(),
{
    if s.len() > 0 && is_space(s.first()) {
        let rest = lemma_leading(s.drop_first());
        let l = seq![s.first()] + rest;
        assert(s =~= seq![s.first()] + s.drop_first());
        assert(seq![s.first()] + (rest + without_leading_space(s)) =~= l + without_leading_space(s));
        l
    } else {
        assert(s =~= Seq::<char>::empty() + s);
        Seq::empty()
    }
}

/// The whitespace that [`without_trailing_space`] takes away.
proof fn lemma_trailing(s: Seq<char>) -> (r: Seq<char>)
    ensures
        s == without_trailing_space(s) + r,
        forall|i: int| 0 <= i < r.len() ==> is_space(#[trigger] r[i]),
        without_trailing_space(s).len() > 0 ==> !is_space(without_trailing_space(s).last()),
    decreases s.len(),
{
    if s.len() > 0 && is_space(s.last()) {
        let rest = lemma_trailing(s.drop_last());
        let r = rest.push(s.last());
        assert(s =~= s.drop_last().push(s.last()));
        assert((without_trailing_space(s) + rest).push(s.last()) =~= without_trailing_space(s) + r);
        r
    } else {
        assert(s =~= s + Seq::<char>::empty());
        Seq::empty()
    }
}

/// Trimming takes whitespace away at both ends, all that is there, and nothing else.
pub proof fn law_trimmed(s: Seq<char>)
    ensures
        exists|l: Seq<char>, r: Seq<char>|
            {
                &&& s == #[trigger] (l + trimmed(s) + r)
                &&& forall|i: int| 0 <= i < l.len() ==> is_space(#[trigger] l[i])
                &&& forall|i: int| 0 <= i < r.len() ==> is_space(#[trigger] r[i])
            },
        trimmed(s).len() > 0 ==> !is_space(trimmed(s).first()) && !is_space(trimmed(s).last()),
{
    let l = lemma_leading(s);
    let body = without_leading_space(s);
    let r = lemma_trailing(body);
    assert(s =~= l + trimmed(s) + r);
    if trimmed(s).len() > 0 {
        assert(trimmed(s).first() == body.first());
    }
}

/// Lowering by the rules of ASCII changes the 26 capital letters, each to the letter 32 places
/// on, and no other character.
pub proof fn law_ascii_lower(c: char)
    ensures
        65 <= c as int <= 90 ==> ascii_lower(c) as int == c as int + 32,
        !(65 <= c as int <= 90) ==> ascii_lower(c) == c,
{
}

/// Lowering a text by the rules of ASCII lowers it character by character.
pub proof fn law_lower_ascii(s: Seq<char>)
    ensures
        lower_ascii(s).len() == s.len(),
        forall|i: int|
            0 <= i < s.len() ==> (#[trigger] lower_ascii(s)[i]) as int == if 65 <= s[i] as int
                <= 90 {
                s[i] as int + 32
            } else {
                s[i] as int
            },
{
    assert forall|i: int| 0 <= i < s.len() implies (#[trigger] lower_ascii(s)[i]) as int == if 65
        <= s[i] as int <= 90 {
        s[i] as int + 32
    } else {
        s[i] as int
    } by {
        law_ascii_lower(s[i]);
    }
}

/// Texts are the same but for case exactly when they are as long, and at each position have the
/// same character, or a capital letter of ASCII in one and its small letter in the other.
pub proof fn law_same_but_for_case(a: Seq<char>, b: Seq<char>)
    ensures
        same_but_for_case(a, b) <==> {
            &&& a.len() == b.len()
            &&& forall|i: int|
                #![trigger a[i], b[i]]
                0 <= i < a.len() ==> {
                    ||| a[i] == b[i]
                    ||| 65 <= a[i] as int <= 90 && b[i] as int == a[i] as int + 32
                    ||| 65 <= b[i] as int <= 90 && a[i] as int == b[i] as int + 32
                }
        },
{
    let x = lower_ascii(a);
    let y = lower_ascii(b);
    if a.len() == b.len() {
        assert forall|i: int| #![trigger a[i], b[i]] 0 <= i < a.len() implies (x[i] == y[i] <==> {
            ||| a[i] == b[i]
            ||| 65 <= a[i] as int <= 90 && b[i] as int == a[i] as int + 32
            ||| 65 <= b[i] as int <= 90 && a[i] as int == b[i] as int + 32
        }) by {
            crate::utf16::lemma_char_number(a[i]);
            crate::utf16::lemma_char_number(b[i]);
            crate::utf16::lemma_char_number(x[i]);
            crate::utf16::lemma_char_number(y[i]);
            law_ascii_lower(a[i]);
            law_ascii_lower(b[i]);
            assert(x[i] == ascii_lower(a[i]));
            assert(y[i] == ascii_lower(b[i]));
        }
        if x == y {
            assert forall|i: int| #![trigger a[i], b[i]] 0 <= i < a.len() implies x[i] == y[i] by {}
        }
        if forall|i: int|
            #![trigger a[i], b[i]]
            0 <= i < a.len() ==> {
                ||| a[i] == b[i]
                ||| 65 <= a[i] as int <= 90 && b[i] as int == a[i] as int + 32
                ||| 65 <= b[i] as int <= 90 && a[i] as int == b[i] as int + 32
            } {
            assert forall|i: int| 0 <= i < x.len() implies x[i] == y[i] by {
                assert(a[i] == a[i] && b[i] == b[i]);
            }
            assert(x =~= y);
        }
    } else {
        assert(x.len() == a.len() && y.len() == b.len());
    }
}

/// A text is one of ASCII characters exactly when every character has a number below 128.
pub proof fn law_all_ascii(s: Seq<char>)
    ensures
        all_ascii(s) <==> forall|i: int| 0 <= i < s.len() ==> (#[trigger] s[i] as int) < 128,
{
}

} // verus!
