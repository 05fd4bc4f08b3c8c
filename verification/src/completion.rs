//! Completion of the word under the cursor to the keywords of the session.

use vstd::prelude::*;
use vstd::string::StringSliceAdditionalSpecFns;
use vstd::utf8::{decode_utf8, encode_utf8};
use crate::cli::{Cli, lemma_definition_names, subcommand_names, subcommand_names_of};
use crate::text::{chars_of, to_uppercase, uppercase};

verus! {

/// Whether the text `a` stands before the text `b` in the order of `String`: at the first
/// place where they differ `a` has the lesser character, or `a` ends there and `b` does
/// not. `i` is the place to look from.
pub open spec fn less_from(a: Seq<char>, b: Seq<char>, i: int) -> bool
    decreases a.len() - i,
{
    if i < 0 || i >= b.len() {
        false
    } else if i >= a.len() {
        true
    } else if a[i] != b[i] {
        (a[i] as u32) < (b[i] as u32)
    } else {
        less_from(a, b, i + 1)
    }
}

/// Whether the text `a` stands before the text `b` in the order of `String`.
pub open spec fn text_less(a: Seq<char>, b: Seq<char>) -> bool {
    less_from(a, b, 0)
}

/// Each text stands before the next: the list is sorted and nothing occurs twice.
pub open spec fn strictly_sorted(words: Seq<Seq<char>>) -> bool {
    forall|i: int| 0 <= i && i + 1 < words.len() ==> text_less(#[trigger] words[i], words[i + 1])
}

/// The keywords that are no subcommands.
pub open spec fn extra_keywords() -> Seq<Seq<char>> {
    seq![
        "HELP"@,
        "USE"@,
        "EXIT"@,
        "QUIT"@,
        "MATCH"@,
        "INTERACTIVE"@,
        "QUERY"@,
        "RO-QUERY"@,
    ]
}

/// Everything that is a keyword: the names of the subcommands in upper case, and the
/// keywords that are no subcommands.
pub open spec fn keyword_candidates() -> Seq<Seq<char>> {
    Seq::new(subcommand_names().len(), |i: int| uppercase(subcommand_names()[i]))
        + extra_keywords()
}

/// The place where the word under the cursor starts in `before.take(n)`: behind its last
/// blank, or 0 where it has none.
pub open spec fn word_start(before: Seq<char>, n: int) -> int
    decreases n,
{
    if n <= 0 || n > before.len() {
        0
    } else if before[n - 1] == ' ' {
        n
    } else {
        word_start(before, n - 1)
    }
}

/// Those of the first `n` keywords that start with `prefix`, in order.
pub open spec fn matching(keywords: Seq<Seq<char>>, prefix: Seq<char>, n: int) -> Seq<Seq<char>>
    decreases n,
{
    if n <= 0 || n > keywords.len() {
        Seq::empty()
    } else if prefix.is_prefix_of(keywords[n - 1]) {
        matching(keywords, prefix, n - 1).push(keywords[n - 1])
    } else {
        matching(keywords, prefix, n - 1)
    }
}

/// Of two texts that differ from `i` on, one stands before the other.
proof fn lemma_less_total(a: Seq<char>, b: Seq<char>, i: int)
    requires
        0 <= i <= a.len(),
        i <= b.len(),
        a.skip(i) != b.skip(i),
    ensures
        less_from(a, b, i) || less_from(b, a, i),
    decreases a.len() - i,
{
    if i >= a.len() || i >= b.len() {
        if i >= a.len() && i >= b.len() {
            assert(a.skip(i) =~= b.skip(i));
        }
    } else if a[i] == b[i] {
        assert(a.skip(i + 1) != b.skip(i + 1)) by {
            if a.skip(i + 1) == b.skip(i + 1) {
                assert(a.skip(i) =~= seq![a[i]] + a.skip(i + 1));
                assert(b.skip(i) =~= seq![b[i]] + b.skip(i + 1));
            }
        }
        lemma_less_total(a, b, i + 1);
    } else {
        vstd::utf8::char_is_scalar(a[i]);
        vstd::utf8::char_is_scalar(b[i]);
        if (a[i] as u32) == (b[i] as u32) {
            vstd::utf8::char_u32_cast(a[i], a[i] as u32);
            vstd::utf8::char_u32_cast(b[i], b[i] as u32);
        }
    }
}

/// How two texts stand to each other from `i` on, where they agree before.
enum Order {
    Before,
    Same,
    After,
}

/// Compares two texts in the order of `String`.
fn compare(a: &Vec<char>, b: &Vec<char>) -> (r: Order)
    ensures
        match r {
            Order::Before => text_less(a@, b@),
            Order::Same => a@ == b@,
            Order::After => text_less(b@, a@),
        },
{
    let mut i: usize = 0;
    while i < a.len() && i < b.len()
        invariant
            i <= a.len(),
            i <= b.len(),
            less_from(a@, b@, i as int) == less_from(a@, b@, 0),
            less_from(b@, a@, i as int) == less_from(b@, a@, 0),
            a@.take(i as int) == b@.take(i as int),
        decreases a.len() - i,
    {
        if a[i] != b[i] {
            proof {
                assert(a@.skip(i as int) != b@.skip(i as int)) by {
                    assert(a@.skip(i as int)[0] == a@[i as int]);
                    assert(b@.skip(i as int)[0] == b@[i as int]);
                }
                lemma_less_total(a@, b@, i as int);
            }
            if (a[i] as u32) < (b[i] as u32) {
                return Order::Before;
            } else {
                return Order::After;
            }
        }
        assert(a@.take(i + 1) =~= a@.take(i as int).push(a@[i as int]));
        assert(b@.take(i + 1) =~= b@.take(i as int).push(b@[i as int]));
        i = i + 1;
    }
    if i < b.len() {
        Order::Before
    } else if i < a.len() {
        Order::After
    } else {
        assert(a@ =~= a@.take(i as int));
        assert(b@ =~= b@.take(i as int));
        Order::Same
    }
}

/// Puts `word` into the sorted list `keywords`, unless it is there already.
fn insert_sorted(keywords: &mut Vec<String>, word: String)
    requires
        strictly_sorted(old(keywords).deep_view()),
    ensures
        strictly_sorted(final(keywords).deep_view()),
        forall|s: Seq<char>|
            final(keywords).deep_view().contains(s) <==> (s == word@ || old(
                keywords,
            ).deep_view().contains(s)),
{
    let ghost before = keywords.deep_view();
    let w = chars_of(word.as_str());
    let mut p: usize = 0;
    let mut placed = false;
    while p < keywords.len() && !placed
        invariant
            p <= keywords.len(),
            keywords.deep_view() == before,
            *keywords == *old(keywords),
            strictly_sorted(before),
            before.len() == keywords.len(),
            w@ == word@,
            forall|i: int| 0 <= i < p ==> text_less(#[trigger] before[i], word@),
            placed ==> p < keywords.len() && text_less(word@, before[p as int]),
        decreases keywords.len() - p, if placed { 0int } else { 1int },
    {
        assert(before[p as int] == keywords@[p as int]@);
        let k = chars_of(keywords[p].as_str());
        match compare(&k, &w) {
            Order::Before => {
                p = p + 1;
            },
            Order::Same => {
                assert(before.contains(word@));
                return ;
            },
            Order::After => {
                placed = true;
            },
        }
    }
    assert(p < before.len() ==> text_less(word@, before[p as int]));
    assert(p > 0 ==> text_less(before[p - 1], word@));
    keywords.insert(p, word);
    proof {
        let after = keywords.deep_view();
        assert(after =~= before.insert(p as int, word@));
        lemma_insert_sorted(before, p as int, word@);
        assert forall|s: Seq<char>| after.contains(s) <==> (s == word@ || before.contains(s)) by {
            lemma_insert_contains(before, p as int, word@, s);
        }
    }
}

/// A sorted list stays sorted when a text is put between a lesser and a greater one.
proof fn lemma_insert_sorted(before: Seq<Seq<char>>, p: int, word: Seq<char>)
    requires
        strictly_sorted(before),
        0 <= p <= before.len(),
        p > 0 ==> text_less(before[p - 1], word),
        p < before.len() ==> text_less(word, before[p]),
    ensures
        strictly_sorted(before.insert(p, word)),
{
    let after = before.insert(p, word);
    assert forall|i: int| 0 <= i && i + 1 < after.len() implies text_less(
        #[trigger] after[i],
        after[i + 1],
    ) by {
        if i + 1 < p {
            assert(after[i] == before[i] && after[i + 1] == before[i + 1]);
            assert(text_less(before[i], before[i + 1]));
        } else if i + 1 == p {
            assert(after[i] == before[i]);
            assert(after[i + 1] == word);
        } else if i == p {
            assert(after[i] == word);
            assert(after[i + 1] == before[i]);
        } else {
            assert(after[i] == before[i - 1] && after[i + 1] == before[i]);
            assert(text_less(before[i - 1], before[i - 1 + 1]));
        }
    }
}

/// A list with a text put in holds that text and what it held before.
proof fn lemma_insert_contains(before: Seq<Seq<char>>, p: int, word: Seq<char>, s: Seq<char>)
    requires
        0 <= p <= before.len(),
    ensures
        before.insert(p, word).contains(s) <==> (s == word || before.contains(s)),
{
    let after = before.insert(p, word);
    if after.contains(s) {
        let j = choose|j: int| 0 <= j < after.len() && after[j] == s;
        if j < p {
            assert(before[j] == s);
        } else if j > p {
            assert(before[j - 1] == s);
        }
    }
    if before.contains(s) {
        let j = choose|j: int| 0 <= j < before.len() && before[j] == s;
        if j < p {
            assert(after[j] == s);
        } else {
            assert(after[j + 1] == s);
        }
    }
    assert(after[p] == word);
}

/// Completes the word under the cursor to keywords.
#[derive(Debug, Clone)]
pub struct SimpleCompleter {
    keywords: Vec<String>,
}

impl SimpleCompleter {
    /// The model of the keywords.
    pub closed spec fn words(&self) -> Seq<Seq<char>> {
        self.keywords.deep_view()
    }

    /// A completer that knows every keyword once: the names of the subcommands of the
    /// command line's definition in upper case, and the keywords that are no subcommands,
    /// sorted.
    pub fn new() -> (r: Self)
        ensures
            strictly_sorted(r.words()),
            forall|s: Seq<char>| r.words().contains(s) <==> keyword_candidates().contains(s),
    {
        let mut keywords: Vec<String> = Vec::new();
        let command = Cli::command();
        let names = subcommand_names_of(&command);
        proof {
            lemma_definition_names(command);
        }
        let ghost wanted = keyword_candidates();
        let mut k: usize = 0;
        while k < names.len()
            invariant
                k <= names.len(),
                names.deep_view() == subcommand_names(),
                names.len() == subcommand_names().len(),
                wanted == keyword_candidates(),
                strictly_sorted(keywords.deep_view()),
                forall|s: Seq<char>|
                    keywords.deep_view().contains(s) <==> wanted.take(k as int).contains(s),
            decreases names.len() - k,
        {
            assert(names.deep_view()[k as int] == names@[k as int]@);
            let upper = to_uppercase(names[k].as_str());
            let ghost earlier = keywords.deep_view();
            insert_sorted(&mut keywords, upper);
            proof {
                assert(wanted[k as int] == upper@);
                lemma_take_contains(wanted, k as int);
                let now = keywords.deep_view();
                assert forall|s: Seq<char>| now.contains(s) <==> wanted.take(k + 1).contains(
                    s,
                ) by {
                    assert(now.contains(s) <==> (s == upper@ || earlier.contains(s)));
                    assert(earlier.contains(s) <==> wanted.take(k as int).contains(s));
                }
            }
            k = k + 1;
        }
        let extras = ["HELP", "USE", "EXIT", "QUIT", "MATCH", "INTERACTIVE", "QUERY", "RO-QUERY"];
        let ghost base = names.len() as int;
        let mut e: usize = 0;
        while e < 8
            invariant
                e <= 8,
                base == subcommand_names().len(),
                extras@.len() == 8,
                forall|i: int| 0 <= i < 8 ==> (#[trigger] extras@[i])@ == extra_keywords()[i],
                extra_keywords().len() == 8,
                wanted == keyword_candidates(),
                wanted.len() == base + 8,
                strictly_sorted(keywords.deep_view()),
                forall|s: Seq<char>|
                    keywords.deep_view().contains(s) <==> wanted.take(base + e).contains(s),
            decreases 8 - e,
        {
            let ghost earlier = keywords.deep_view();
            let word = String::from_str(extras[e]);
            insert_sorted(&mut keywords, word);
            proof {
                assert(wanted[base + e] == extra_keywords()[e as int]);
                lemma_take_contains(wanted, base + e);
                let now = keywords.deep_view();
                assert forall|s: Seq<char>| now.contains(s) <==> wanted.take(
                    base + e + 1,
                ).contains(s) by {
                    assert(now.contains(s) <==> (s == word@ || earlier.contains(s)));
                    assert(earlier.contains(s) <==> wanted.take(base + e).contains(s));
                }
            }
            e = e + 1;
        }
        assert(wanted.take(base + 8) =~= wanted);
        SimpleCompleter { keywords }
    }

    /// The keywords, sorted.
    pub fn keywords(&self) -> (r: &Vec<String>)
        ensures
            r.deep_view() == self.words(),
    {
        &self.keywords
    }

    /// Completes the word that ends at the byte position `pos` of `line`. The word starts
    /// behind the last blank before `pos`. The result holds the byte position where the
    /// word starts, and the keywords that start with the word's upper-case form, in order.
    pub fn complete(&self, line: &str, pos: usize) -> (r: (usize, Vec<String>))
        requires
            vstd::utf8::is_char_boundary(line.spec_bytes(), pos as int),
        ensures
            ({
                let before = decode_utf8(line.spec_bytes().subrange(0, pos as int));
                let start = word_start(before, before.len() as int);
                &&& r.0 == encode_utf8(before.take(start)).len() as usize
                &&& r.1.deep_view() == matching(
                    self.words(),
                    uppercase(before.skip(start)),
                    self.words().len() as int,
                )
            }),
    {
        let (before, _) = line.split_at(pos);
        proof {
            vstd::utf8::encode_utf8_decode_utf8(before@);
            assert(before.spec_bytes() == encode_utf8(before@));
            assert(decode_utf8(line.spec_bytes().subrange(0, pos as int)) == before@);
        }
        let v = chars_of(before);
        let n = v.len();
        let mut start: usize = n;
        while start > 0 && v[start - 1] != ' '
            invariant
                start <= n,
                n == v@.len(),
                word_start(v@, start as int) == word_start(v@, n as int),
            decreases start,
        {
            start = start - 1;
        }
        assert(start as int == word_start(v@, start as int));
        let head = before.substring_char(0, start);
        let word = before.substring_char(start, n);
        assert(head@ =~= before@.take(start as int));
        assert(word@ =~= before@.skip(start as int));
        let upper = to_uppercase(word);
        let prefix = chars_of(upper.as_str());
        let ghost all = self.keywords.deep_view();
        let mut found: Vec<String> = Vec::new();
        let mut k: usize = 0;
        assert(found.deep_view() =~= matching(all, prefix@, 0));
        while k < self.keywords.len()
            invariant
                k <= self.keywords.len(),
                all == self.keywords.deep_view(),
                all.len() == self.keywords.len(),
                found.deep_view() == matching(all, prefix@, k as int),
            decreases self.keywords.len() - k,
        {
            assert(all[k as int] == self.keywords@[k as int]@);
            let keyword = chars_of(self.keywords[k].as_str());
            if starts_with(&keyword, &prefix) {
                let ghost earlier = found.deep_view();
                found.push(self.keywords[k].clone());
                assert(found.deep_view() =~= earlier.push(all[k as int]));
            }
            k = k + 1;
        }
        let at = head.len();
        assert(at == encode_utf8(before@.take(start as int)).len() as usize);
        assert(found.deep_view() == matching(all, uppercase(before@.skip(start as int)), all.len() as int));
        (at, found)
    }
}

/// Whether `text` starts with `prefix`.
fn starts_with(text: &Vec<char>, prefix: &Vec<char>) -> (r: bool)
    ensures
        r == prefix@.is_prefix_of(text@),
{
    if prefix.len() > text.len() {
        return false;
    }
    let mut i: usize = 0;
    while i < prefix.len()
        invariant
            i <= prefix.len(),
            prefix.len() <= text.len(),
            forall|j: int| 0 <= j < i ==> prefix@[j] == text@[j],
        decreases prefix.len() - i,
    {
        if prefix[i] != text[i] {
            assert(text@.subrange(0, prefix@.len() as int)[i as int] != prefix@[i as int]);
            return false;
        }
        i = i + 1;
    }
    assert(prefix@ =~= text@.subrange(0, prefix@.len() as int));
    true
}

/// What the first `n + 1` of `words` hold: what the first `n` hold, and the one at `n`.
proof fn lemma_take_contains(words: Seq<Seq<char>>, n: int)
    requires
        0 <= n < words.len(),
    ensures
        forall|s: Seq<char>|
            words.take(n + 1).contains(s) <==> (s == words[n] || words.take(n).contains(s)),
{
    let longer = words.take(n + 1);
    let shorter = words.take(n);
    assert forall|s: Seq<char>| longer.contains(s) <==> (s == words[n] || shorter.contains(s)) by {
        if longer.contains(s) {
            let j = choose|j: int| 0 <= j < longer.len() && longer[j] == s;
            if j < n {
                assert(shorter[j] == s);
            }
        }
        if shorter.contains(s) {
            let j = choose|j: int| 0 <= j < shorter.len() && shorter[j] == s;
            assert(longer[j] == s);
        }
        assert(longer[n] == words[n]);
    }
}

} // verus!
