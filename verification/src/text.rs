//! Text primitives shared by the line classifier, the completer and the renderer.
//!
//! Everything here is stated over `Seq<char>`, the view of `str` and `String`.

use vstd::prelude::*;

verus! {

/// Whether `c` is white space: whether it has the Unicode property `White_Space`, as
/// `char::is_whitespace` tells. These are the tab, the line feed, the vertical tab, the
/// form feed and the carriage return, the space, the next line, the no-break space, the
/// ogham space mark, the spaces from the en quad to the hair space, the line and the
/// paragraph separator, the narrow no-break space, the medium mathematical space and the
/// ideographic space.
pub open spec fn is_whitespace(c: char) -> bool {
    let code = c as u32;
    ||| 0x09 <= code <= 0x0D
    ||| code == 0x20
    ||| code == 0x85
    ||| code == 0xA0
    ||| code == 0x1680
    ||| 0x2000 <= code <= 0x200A
    ||| code == 0x2028
    ||| code == 0x2029
    ||| code == 0x202F
    ||| code == 0x205F
    ||| code == 0x3000
}

/// Whether every character of `s` is an ASCII character.
pub open spec fn is_ascii_text(s: Seq<char>) -> bool {
    forall|i: int| 0 <= i < s.len() ==> (#[trigger] s[i] as u32) < 128
}

/// The upper-case form of an ASCII character: the capital of a small letter, and any other
/// character itself.
pub open spec fn ascii_upper(c: char) -> char {
    if 0x61 <= c as u32 <= 0x7A {
        ((c as u32) - 32) as char
    } else {
        c
    }
}

/// The upper-case form of a text that holds a character beyond ASCII, as
/// `str::to_uppercase` gives it: the Unicode upper-case mapping, applied character by
/// character, which may change the number of characters.
pub uninterp spec fn unicode_uppercase(s: Seq<char>) -> Seq<char>;

/// The upper-case form of a text as `str::to_uppercase` gives it. In an ASCII text each
/// small letter becomes its capital and nothing else changes.
pub open spec fn uppercase(s: Seq<char>) -> Seq<char> {
    if is_ascii_text(s) {
        Seq::new(s.len(), |i: int| ascii_upper(s[i]))
    } else {
        unicode_uppercase(s)
    }
}

/// Whether `c` is white space.
pub fn char_is_whitespace(c: char) -> (r: bool)
    ensures
        r == is_whitespace(c),
{
    let code = c as u32;
    (0x09 <= code && code <= 0x0D) || code == 0x20 || code == 0x85 || code == 0xA0 || code
        == 0x1680 || (0x2000 <= code && code <= 0x200A) || code == 0x2028 || code == 0x2029
        || code == 0x202F || code == 0x205F || code == 0x3000
}

/// Calls `str::to_uppercase`. Trusted: the result is the Unicode upper-case form of `s`.
/// For a text beyond ASCII it is named `unicode_uppercase` in contracts; for an ASCII text
/// it is the text with each small letter replaced by its capital, since the Unicode
/// mapping of an ASCII character is its ASCII upper-case form.
#[verifier::external_body]
pub(crate) fn to_uppercase(s: &str) -> (r: String)
    ensures
        r@ == uppercase(s@),
        !is_ascii_text(s@) ==> r@ == unicode_uppercase(s@),
{
    s.to_uppercase()
}

/// The first index at or after `i` that holds no white space, or the length of `s`.
pub open spec fn skip_spaces(s: Seq<char>, i: int) -> int
    decreases s.len() - i,
{
    if 0 <= i < s.len() && is_whitespace(s[i]) {
        skip_spaces(s, i + 1)
    } else {
        i
    }
}

/// The first index at or after `i` that holds white space, or the length of `s`.
pub open spec fn skip_word(s: Seq<char>, i: int) -> int
    decreases s.len() - i,
{
    if 0 <= i < s.len() && !is_whitespace(s[i]) {
        skip_word(s, i + 1)
    } else {
        i
    }
}

/// The length of `s.take(n)` once the white space at its end is cut off.
pub open spec fn trim_end(s: Seq<char>, n: int) -> int
    decreases n,
{
    if 0 < n <= s.len() && is_whitespace(s[n - 1]) {
        trim_end(s, n - 1)
    } else {
        n
    }
}

/// `s` without the white space at its start and at its end.
pub open spec fn trimmed(s: Seq<char>) -> Seq<char> {
    let start = skip_spaces(s, 0);
    if start >= s.len() {
        Seq::empty()
    } else {
        s.subrange(start, trim_end(s, s.len() as int))
    }
}

/// `skip_spaces` stays within `s`, and everything it passes over is white space.
pub proof fn lemma_skip_spaces(s: Seq<char>, i: int)
    requires
        0 <= i <= s.len(),
    ensures
        i <= skip_spaces(s, i) <= s.len(),
        forall|k: int| i <= k < skip_spaces(s, i) ==> is_whitespace(#[trigger] s[k]),
        skip_spaces(s, i) < s.len() ==> !is_whitespace(s[skip_spaces(s, i)]),
    decreases s.len() - i,
{
    if i < s.len() && is_whitespace(s[i]) {
        lemma_skip_spaces(s, i + 1);
    }
}

/// `skip_word` stays within `s`, and nothing it passes over is white space.
pub proof fn lemma_skip_word(s: Seq<char>, i: int)
    requires
        0 <= i <= s.len(),
    ensures
        i <= skip_word(s, i) <= s.len(),
        forall|k: int| i <= k < skip_word(s, i) ==> !is_whitespace(#[trigger] s[k]),
        skip_word(s, i) < s.len() ==> is_whitespace(s[skip_word(s, i)]),
        i < s.len() && !is_whitespace(s[i]) ==> i < skip_word(s, i),
    decreases s.len() - i,
{
    if i < s.len() && !is_whitespace(s[i]) {
        lemma_skip_word(s, i + 1);
    }
}

/// `trim_end` stays within `s.take(n)`, passes over white space only, and stops behind
/// any character that is none.
pub proof fn lemma_trim_end(s: Seq<char>, n: int)
    requires
        0 <= n <= s.len(),
    ensures
        0 <= trim_end(s, n) <= n,
        forall|k: int| trim_end(s, n) <= k < n ==> is_whitespace(#[trigger] s[k]),
        trim_end(s, n) > 0 ==> !is_whitespace(s[trim_end(s, n) - 1]),
        forall|k: int| 0 <= k < n && !is_whitespace(#[trigger] s[k]) ==> k < trim_end(s, n),
    decreases n,
{
    if 0 < n && is_whitespace(s[n - 1]) {
        lemma_trim_end(s, n - 1);
    }
}

/// A trimmed text neither starts nor ends with white space.
pub proof fn lemma_trimmed_edges(s: Seq<char>)
    ensures
        trimmed(s).len() > 0 ==> !is_whitespace(trimmed(s)[0]) && !is_whitespace(
            trimmed(s).last(),
        ),
        trimmed(s).len() <= s.len(),
{
    let start = skip_spaces(s, 0);
    lemma_skip_spaces(s, 0);
    lemma_trim_end(s, s.len() as int);
}

/// Trimming a text that neither starts nor ends with white space changes nothing.
pub proof fn lemma_trimmed_fixed(s: Seq<char>)
    requires
        s.len() > 0 ==> !is_whitespace(s[0]) && !is_whitespace(s.last()),
    ensures
        trimmed(s) == s,
{
    if s.len() > 0 {
        assert(s.subrange(0, s.len() as int) =~= s);
    } else {
        assert(s =~= Seq::<char>::empty());
    }
}

/// A text without white space is one word.
pub proof fn lemma_one_word(s: Seq<char>)
    requires
        forall|i: int| 0 <= i < s.len() ==> !is_whitespace(#[trigger] s[i]),
    ensures
        skip_word(s, 0) == s.len(),
        skip_spaces(s, s.len() as int) == s.len(),
        trimmed(s) == s,
{
    lemma_skip_word(s, 0);
    lemma_trimmed_fixed(s);
}

/// The characters of `s`, in order.
pub fn chars_of(s: &str) -> (v: Vec<char>)
    ensures
        v@ == s@,
{
    let mut v: Vec<char> = Vec::new();
    for c in it: s.chars()
        invariant
            it.seq() == s@,
            v@ == it.seq().take(it.index() as int),
    {
        v.push(c);
    }
    assert(v@ == s@);
    v
}

/// Whether two texts hold the same characters.
pub fn str_eq(a: &str, b: &str) -> (r: bool)
    ensures
        r == (a@ == b@),
{
    let x = chars_of(a);
    let y = chars_of(b);
    if x.len() != y.len() {
        return false;
    }
    let mut i: usize = 0;
    while i < x.len()
        invariant
            i <= x.len(),
            x.len() == y.len(),
            x@ == a@,
            y@ == b@,
            forall|k: int| 0 <= k < i ==> x@[k] == y@[k],
        decreases x.len() - i,
    {
        if x[i] != y[i] {
            return false;
        }
        i = i + 1;
    }
    assert(x@ =~= y@);
    true
}

/// The first index at or after `i` that holds no white space, or the length of `v`.
pub fn spaces_end(v: &Vec<char>, i: usize) -> (r: usize)
    requires
        i <= v.len(),
    ensures
        r == skip_spaces(v@, i as int),
        i <= r <= v.len(),
{
    let mut j: usize = i;
    while j < v.len() && char_is_whitespace(v[j])
        invariant
            i <= j <= v.len(),
            skip_spaces(v@, j as int) == skip_spaces(v@, i as int),
        decreases v.len() - j,
    {
        j = j + 1;
    }
    j
}

/// The first index at or after `i` that holds white space, or the length of `v`.
pub fn word_end(v: &Vec<char>, i: usize) -> (r: usize)
    requires
        i <= v.len(),
    ensures
        r == skip_word(v@, i as int),
        i <= r <= v.len(),
{
    let mut j: usize = i;
    while j < v.len() && !char_is_whitespace(v[j])
        invariant
            i <= j <= v.len(),
            skip_word(v@, j as int) == skip_word(v@, i as int),
        decreases v.len() - j,
    {
        j = j + 1;
    }
    j
}

/// `s` without the white space at its start and at its end, as `str::trim` gives it.
pub fn trim(s: &str) -> (r: &str)
    ensures
        r@ == trimmed(s@),
{
    let v = chars_of(s);
    let n = v.len();
    let start = spaces_end(&v, 0);
    if start >= n {
        let r = s.substring_char(0, 0);
        assert(r@ =~= Seq::<char>::empty());
        return r;
    }
    let mut end: usize = n;
    while end > 0 && char_is_whitespace(v[end - 1])
        invariant
            end <= n,
            n == v@.len(),
            trim_end(v@, end as int) == trim_end(v@, n as int),
        decreases end,
    {
        end = end - 1;
    }
    proof {
        lemma_trim_end(v@, n as int);
        lemma_skip_spaces(v@, 0);
    }
    s.substring_char(start, end)
}

/// The character of a decimal digit.
pub open spec fn digit(d: nat) -> char {
    if d == 0 {
        '0'
    } else if d == 1 {
        '1'
    } else if d == 2 {
        '2'
    } else if d == 3 {
        '3'
    } else if d == 4 {
        '4'
    } else if d == 5 {
        '5'
    } else if d == 6 {
        '6'
    } else if d == 7 {
        '7'
    } else if d == 8 {
        '8'
    } else {
        '9'
    }
}

/// The decimal notation of a natural number, without leading zeros.
pub open spec fn decimal(n: nat) -> Seq<char>
    decreases n,
{
    if n < 10 {
        seq![digit(n)]
    } else {
        decimal(n / 10).push(digit(n % 10))
    }
}

/// The decimal notation of an integer, with a minus sign where it is negative.
pub open spec fn signed_decimal(n: int) -> Seq<char> {
    if n < 0 {
        seq!['-'] + decimal((-n) as nat)
    } else {
        decimal(n as nat)
    }
}

/// The text of one decimal digit.
fn digit_text(d: u64) -> (r: &'static str)
    requires
        d < 10,
    ensures
        r@ == seq![digit(d as nat)],
{
    proof {
        reveal_strlit("0");
        reveal_strlit("1");
        reveal_strlit("2");
        reveal_strlit("3");
        reveal_strlit("4");
        reveal_strlit("5");
        reveal_strlit("6");
        reveal_strlit("7");
        reveal_strlit("8");
        reveal_strlit("9");
    }
    let r = if d == 0 {
        "0"
    } else if d == 1 {
        "1"
    } else if d == 2 {
        "2"
    } else if d == 3 {
        "3"
    } else if d == 4 {
        "4"
    } else if d == 5 {
        "5"
    } else if d == 6 {
        "6"
    } else if d == 7 {
        "7"
    } else if d == 8 {
        "8"
    } else {
        "9"
    };
    assert(r@ =~= seq![digit(d as nat)]);
    r
}

/// The decimal notation of `n`.
pub fn u64_to_string(n: u64) -> (r: String)
    ensures
        r@ == decimal(n as nat),
    decreases n,
{
    if n < 10 {
        String::from_str(digit_text(n))
    } else {
        let mut r = u64_to_string(n / 10);
        r.append(digit_text(n % 10));
        assert(r@ =~= decimal((n / 10) as nat).push(digit((n % 10) as nat)));
        r
    }
}

/// The decimal notation of `n`, with a minus sign where it is negative.
pub fn i64_to_string(n: i64) -> (r: String)
    ensures
        r@ == signed_decimal(n as int),
{
    if n < 0 {
        let magnitude: u64 = ((-(n + 1)) as u64) + 1;
        proof {
            reveal_strlit("-");
        }
        let mut r = String::from_str("-");
        let digits = u64_to_string(magnitude);
        r.append(digits.as_str());
        assert(r@ =~= seq!['-'] + decimal((-n) as nat));
        r
    } else {
        u64_to_string(n as u64)
    }
}

/// The debug form of a list of texts as Rust's `{:?}` gives it: the texts in double
/// quotes with their special characters escaped, separated by commas, in square brackets.
pub uninterp spec fn debug_form(items: Seq<Seq<char>>) -> Seq<char>;

/// Formats a list of texts with `{:?}`. Trusted: the result is the debug form of the list,
/// named `debug_form` in contracts.
#[verifier::external_body]
pub(crate) fn debug_list(items: &Vec<String>) -> (r: String)
    ensures
        r@ == debug_form(items.deep_view()),
{
    format!("{:?}", items)
}

/// `n` blanks.
pub open spec fn blanks(n: nat) -> Seq<char> {
    Seq::new(n, |i: int| ' ')
}

/// `s` in a field of exactly `width` characters: followed by blanks where it is shorter,
/// cut to its first `width` characters where it is longer.
pub open spec fn fitted(s: Seq<char>, width: nat) -> Seq<char> {
    if s.len() >= width {
        s.take(width as int)
    } else {
        s + blanks((width - s.len()) as nat)
    }
}

/// `unit`, `n` times over.
pub open spec fn repeated(unit: Seq<char>, n: nat) -> Seq<char>
    decreases n,
{
    if n == 0 {
        Seq::empty()
    } else {
        repeated(unit, (n - 1) as nat) + unit
    }
}

/// The first `n` of `parts`, with `sep` between each two neighbours.
pub open spec fn joined_prefix(parts: Seq<Seq<char>>, sep: Seq<char>, n: int) -> Seq<char>
    decreases n,
{
    if n <= 0 || n > parts.len() {
        Seq::empty()
    } else if n == 1 {
        parts[0]
    } else {
        joined_prefix(parts, sep, n - 1) + sep + parts[n - 1]
    }
}

/// `parts` with `sep` between each two neighbours.
pub open spec fn joined(parts: Seq<Seq<char>>, sep: Seq<char>) -> Seq<char> {
    joined_prefix(parts, sep, parts.len() as int)
}

/// `s` in a field of exactly `width` characters.
pub fn fit(s: &str, width: usize) -> (r: String)
    ensures
        r@ == fitted(s@, width as nat),
{
    let n = s.unicode_len();
    if n >= width {
        String::from_str(s.substring_char(0, width))
    } else {
        let mut r = String::from_str(s);
        let mut k: usize = n;
        proof {
            reveal_strlit(" ");
            assert(r@ =~= s@ + blanks(0));
        }
        while k < width
            invariant
                n <= k <= width,
                n == s@.len(),
                r@ == s@ + blanks((k - n) as nat),
                " "@ == seq![' '],
            decreases width - k,
        {
            r.append(" ");
            assert(r@ =~= s@ + blanks((k + 1 - n) as nat));
            k = k + 1;
        }
        r
    }
}

/// `unit`, `n` times over.
pub fn repeat(unit: &str, n: usize) -> (r: String)
    ensures
        r@ == repeated(unit@, n as nat),
{
    let mut r = String::new();
    let mut k: usize = 0;
    while k < n
        invariant
            k <= n,
            r@ == repeated(unit@, k as nat),
        decreases n - k,
    {
        r.append(unit);
        k = k + 1;
    }
    r
}

/// `parts` with `sep` between each two neighbours, as `join` gives them.
pub fn join(parts: &Vec<String>, sep: &str) -> (r: String)
    ensures
        r@ == joined(parts.deep_view(), sep@),
{
    let mut r = String::new();
    let mut k: usize = 0;
    while k < parts.len()
        invariant
            k <= parts.len(),
            parts.deep_view().len() == parts.len(),
            r@ == joined_prefix(parts.deep_view(), sep@, k as int),
        decreases parts.len() - k,
    {
        assert(parts.deep_view()[k as int] == parts@[k as int]@);
        if k > 0 {
            r.append(sep);
        }
        r.append(parts[k].as_str());
        assert(r@ =~= joined_prefix(parts.deep_view(), sep@, k + 1));
        k = k + 1;
    }
    r
}

} // verus!
