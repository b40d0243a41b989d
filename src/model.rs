use vstd::prelude::*;

verus! {

/// A lookup table: pairs of key and value, searched front to back.
pub type Table = Seq<(Seq<char>, Seq<char>)>;

/// The value of the first entry of `t` whose key is `k`.
pub open spec fn lookup(t: Table, k: Seq<char>) -> Option<Seq<char>>
    decreases t.len(),
{
    if t.len() == 0 {
        None
    } else if t[0].0 == k {
        Some(t[0].1)
    } else {
        lookup(t.drop_first(), k)
    }
}

/// Whether `c` occurs in some key of `t`.
pub open spec fn in_some_key(t: Table, c: char) -> bool {
    exists|i: int, j: int| 0 <= i < t.len() && 0 <= j < t[i].0.len() && t[i].0[j] == c
}

pub open spec fn is_vowel(c: char) -> bool {
    c == 'a' || c == 'i' || c == 'u' || c == 'e' || c == 'o'
}

/// The apostrophe, which may separate segments and stands for nothing itself.
pub const SEPARATOR: char = '\'';

pub const SMALL_TSU: char = 'っ';

pub const MORAIC_N: char = 'ん';

/// `n` copies of `c`.
pub open spec fn repeat(c: char, n: nat) -> Seq<char> {
    Seq::new(n, |_i: int| c)
}

/// How many characters at the front of `s` are equal to `c`.
pub open spec fn lead_run(s: Seq<char>, c: char) -> nat
    decreases s.len(),
{
    if s.len() > 0 && s[0] == c {
        1 + lead_run(s.drop_first(), c)
    } else {
        0
    }
}

/// The marks for the repeated first letter of `s`, and how many letters they stand for.
/// A run of `k` letters `n` gives `k / 2` moraic nasals for `2 * (k / 2)` letters,
/// except that a single `n` followed by a consonant gives one moraic nasal for
/// itself. A run of `k` letters of another consonant gives `k - 1` small tsu for
/// `k - 1` letters.
pub open spec fn lead_marks(consonants: Seq<char>, s: Seq<char>) -> Option<(Seq<char>, nat)> {
    if s.len() == 0 {
        None
    } else {
        let c = s[0];
        let k = lead_run(s, c);
        if c == 'n' {
            if k == 1 && k < s.len() && consonants.contains(s[k as int]) {
                Some((repeat(MORAIC_N, 1), 1))
            } else {
                Some((repeat(MORAIC_N, k / 2), 2 * (k / 2)))
            }
        } else if consonants.contains(c) {
            Some((repeat(SMALL_TSU, (k - 1) as nat), (k - 1) as nat))
        } else {
            None
        }
    }
}

/// The kana for one segment of romaji. Short segments are looked up; a longer one
/// (or one of three or four letters that is no key) begins with a repeated letter,
/// whose marks come first and whose remainder is resolved in turn. A segment whose
/// first letter stands for nothing (not repeated) has no kana; nothing left over
/// resolves to nothing.
pub open spec fn resolve_segment(
    singles: Table,
    multis: Table,
    consonants: Seq<char>,
    s: Seq<char>,
) -> Option<Seq<char>>
    decreases s.len(),
{
    if s.len() == 0 {
        Some(Seq::empty())
    } else if s.len() == 1 {
        lookup(singles, s)
    } else if s.len() == 2 {
        lookup(multis, s)
    } else if s.len() <= 4 && lookup(multis, s).is_some() {
        lookup(multis, s)
    } else {
        match lead_marks(consonants, s) {
            None => None,
            Some((marks, used)) => {
                if used == 0 || used > s.len() {
                    None
                } else {
                    match resolve_segment(singles, multis, consonants, s.skip(used as int)) {
                        None => None,
                        Some(rest) => Some(marks + rest),
                    }
                }
            },
        }
    }
}

/// The length of the first segment of `s`: up to and including its first vowel,
/// up to (not including) its first separator, or all of it.
pub open spec fn segment_len(s: Seq<char>) -> nat
    decreases s.len(),
{
    if s.len() == 0 {
        0
    } else if is_vowel(s[0]) {
        1
    } else if s[0] == SEPARATOR {
        0
    } else {
        1 + segment_len(s.drop_first())
    }
}

/// The kana for a whole romaji text: its segments, each resolved, in order. A
/// separator ends a segment and gives no kana of its own.
pub open spec fn romaji_to_kana(
    singles: Table,
    multis: Table,
    consonants: Seq<char>,
    s: Seq<char>,
) -> Option<Seq<char>>
    decreases s.len(),
{
    if s.len() == 0 {
        Some(Seq::empty())
    } else if s[0] == SEPARATOR {
        romaji_to_kana(singles, multis, consonants, s.drop_first())
    } else {
        let n = segment_len(s);
        if n == 0 || n > s.len() {
            None
        } else {
            match resolve_segment(singles, multis, consonants, s.take(n as int)) {
                None => None,
                Some(head) => match romaji_to_kana(singles, multis, consonants, s.skip(n as int)) {
                    None => None,
                    Some(tail) => Some(head + tail),
                },
            }
        }
    }
}

/// `out` followed by what `r` holds, if it holds anything.
pub open spec fn prepend(out: Seq<char>, r: Option<Seq<char>>) -> Option<Seq<char>> {
    match r {
        None => None,
        Some(t) => Some(out + t),
    }
}

/// The romaji for kana `s`, with `prev` the kana held back so far and `pending`
/// the small tsu seen since the last emitted unit.
pub open spec fn kana_pass(
    kana: Table,
    second: Seq<char>,
    s: Seq<char>,
    prev: Option<char>,
    pending: nat,
) -> Option<Seq<char>>
    decreases s.len(),
{
    if s.len() == 0 {
        match prev {
            None => Some(Seq::empty()),
            Some(p) => match lookup(kana, seq![p]) {
                None => None,
                Some(v) => {
                    if pending > 0 && v.len() == 0 {
                        None
                    } else {
                        let lead = if pending > 0 { repeat(v[0], pending) } else { Seq::empty() };
                        Some(lead + v)
                    }
                },
            },
        }
    } else {
        let c = s[0];
        let rest = s.drop_first();
        match prev {
            None => kana_pass(kana, second, rest, Some(c), pending),
            Some(p) => {
                if p == SMALL_TSU {
                    kana_pass(kana, second, rest, Some(c), pending + 1)
                } else {
                    let pair = second.contains(c);
                    let key = if pair { seq![p, c] } else { seq![p] };
                    let next = if pair { None } else { Some(c) };
                    match lookup(kana, key) {
                        None => None,
                        Some(v) => {
                            if pending > 0 && v.len() == 0 {
                                None
                            } else {
                                let lead = if pending > 0 { repeat(v[0], pending) } else { Seq::empty() };
                                prepend(lead + v, kana_pass(kana, second, rest, next, 0))
                            }
                        },
                    }
                }
            },
        }
    }
}

/// The romaji for a kana text already in composed form.
pub open spec fn kana_to_romaji(kana: Table, second: Seq<char>, s: Seq<char>) -> Option<Seq<char>> {
    kana_pass(kana, second, s, None, 0)
}

/// Whether `c` is an ASCII letter or an apostrophe.
pub open spec fn romaji_char(c: char) -> bool {
    ('a' <= c && c <= 'z') || ('A' <= c && c <= 'Z') || c == '\''
}

/// Whether every character is an ASCII letter or an apostrophe.
pub open spec fn looks_like_romaji(s: Seq<char>) -> bool {
    forall|i: int| 0 <= i < s.len() ==> romaji_char(#[trigger] s[i])
}

/// The first segment of `s` ends at its first vowel, before its first separator,
/// or at its end.
pub proof fn lemma_segment_len(s: Seq<char>, j: int)
    requires
        0 <= j <= s.len(),
        forall|m: int| 0 <= m < j ==> !is_vowel(#[trigger] s[m]) && s[m] != SEPARATOR,
        j < s.len() ==> is_vowel(s[j]) || s[j] == SEPARATOR,
    ensures
        segment_len(s) == if j < s.len() && is_vowel(s[j]) { j + 1 } else { j },
    decreases j,
{
    if j > 0 {
        let t = s.drop_first();
        assert forall|m: int| 0 <= m < j - 1 implies !is_vowel(#[trigger] t[m]) && t[m] != SEPARATOR by {
            assert(t[m] == s[m + 1]);
        }
        lemma_segment_len(t, j - 1);
    }
}

/// A key that `lookup` finds is the key of some entry.
pub proof fn lemma_lookup_found(t: Table, k: Seq<char>)
    requires
        lookup(t, k) is Some,
    ensures
        exists|i: int| 0 <= i < t.len() && t[i].0 == k,
    decreases t.len(),
{
    if t[0].0 != k {
        lemma_lookup_found(t.drop_first(), k);
        let i = choose|i: int| 0 <= i < t.len() - 1 && t.drop_first()[i].0 == k;
        assert(t[i + 1].0 == k);
    }
}

/// A key holding `c` is not found in a table none of whose keys holds `c`.
pub proof fn lemma_lookup_unknown(t: Table, k: Seq<char>, c: char)
    requires
        k.contains(c),
        !in_some_key(t, c),
    ensures
        lookup(t, k) is None,
{
    if lookup(t, k) is Some {
        lemma_lookup_found(t, k);
        let i = choose|i: int| 0 <= i < t.len() && t[i].0 == k;
        let j = choose|j: int| 0 <= j < k.len() && k[j] == c;
        assert(t[i].0[j] == c);
    }
}

/// The run at the front of `s` lies within `s` and is made of `c`.
pub proof fn lemma_lead_run(s: Seq<char>, c: char)
    ensures
        lead_run(s, c) <= s.len(),
        forall|j: int| 0 <= j < lead_run(s, c) ==> s[j] == c,
    decreases s.len(),
{
    if s.len() > 0 && s[0] == c {
        let t = s.drop_first();
        lemma_lead_run(t, c);
        assert forall|j: int| 0 <= j < lead_run(s, c) implies s[j] == c by {
            if j > 0 {
                assert(s[j] == t[j - 1]);
            }
        }
    }
}

/// A segment holding a letter that no table knows has no kana.
pub proof fn lemma_segment_unknown(singles: Table, multis: Table, consonants: Seq<char>, s: Seq<char>, c: char)
    requires
        s.contains(c),
        !in_some_key(singles, c),
        !in_some_key(multis, c),
        !consonants.contains(c),
        consonants.contains('n'),
    ensures
        resolve_segment(singles, multis, consonants, s) is None,
    decreases s.len(),
{
    if s.len() == 1 {
        lemma_lookup_unknown(singles, s, c);
    } else if s.len() >= 2 {
        lemma_lookup_unknown(multis, s, c);
        match lead_marks(consonants, s) {
            None => {},
            Some((marks, used)) => {
                if used != 0 && used <= s.len() {
                    let h = s[0];
                    lemma_lead_run(s, h);
                    let j = choose|j: int| 0 <= j < s.len() && s[j] == c;
                    assert(h != c);
                    assert(used <= lead_run(s, h));
                    assert(j >= used) by {
                        if j < lead_run(s, h) {
                            assert(s[j] == h);
                        }
                    }
                    let rest = s.skip(used as int);
                    assert(rest[j - used] == c);
                    lemma_segment_unknown(singles, multis, consonants, rest, c);
                }
            },
        }
    }
}

/// A romaji text holding a letter that no table knows has no kana.
pub proof fn lemma_text_unknown(singles: Table, multis: Table, consonants: Seq<char>, s: Seq<char>, c: char)
    requires
        s.contains(c),
        !in_some_key(singles, c),
        !in_some_key(multis, c),
        !consonants.contains(c),
        consonants.contains('n'),
        c != SEPARATOR,
    ensures
        romaji_to_kana(singles, multis, consonants, s) is None,
    decreases s.len(),
{
    let n = segment_len(s);
    if s[0] == SEPARATOR {
        let j = choose|j: int| 0 <= j < s.len() && s[j] == c;
        assert(s.drop_first()[j - 1] == c);
        lemma_text_unknown(singles, multis, consonants, s.drop_first(), c);
    } else if n != 0 && n <= s.len() {
        let j = choose|j: int| 0 <= j < s.len() && s[j] == c;
        if j < n {
            assert(s.take(n as int)[j] == c);
            lemma_segment_unknown(singles, multis, consonants, s.take(n as int), c);
        } else {
            assert(s.skip(n as int)[j - n] == c);
            lemma_text_unknown(singles, multis, consonants, s.skip(n as int), c);
        }
    }
}

/// Kana holding a character that no key of the table holds has no romaji,
/// whatever kana is held back.
pub proof fn lemma_pass_unknown(kana: Table, second: Seq<char>, s: Seq<char>, prev: Option<char>, pending: nat, c: char)
    requires
        s.contains(c) || prev == Some(c),
        !in_some_key(kana, c),
        in_some_key(kana, SMALL_TSU),
    ensures
        kana_pass(kana, second, s, prev, pending) is None,
    decreases s.len(),
{
    if s.len() == 0 {
        assert(seq![c][0] == c);
        lemma_lookup_unknown(kana, seq![c], c);
    } else {
        let h = s[0];
        let rest = s.drop_first();
        assert(s.contains(c) && h != c ==> rest.contains(c)) by {
            if s.contains(c) && h != c {
                let j = choose|j: int| 0 <= j < s.len() && s[j] == c;
                assert(rest[j - 1] == c);
            }
        }
        match prev {
            None => {
                lemma_pass_unknown(kana, second, rest, Some(h), pending, c);
            },
            Some(p) => {
                if p == SMALL_TSU {
                    lemma_pass_unknown(kana, second, rest, Some(h), pending + 1, c);
                } else {
                    let pair = second.contains(h);
                    let key = if pair { seq![p, h] } else { seq![p] };
                    let next = if pair { None } else { Some(h) };
                    if p == c || (pair && h == c) {
                        assert(key.contains(c)) by {
                            if p == c {
                                assert(key[0] == c);
                            } else {
                                assert(key[1] == c);
                            }
                        }
                        lemma_lookup_unknown(kana, key, c);
                    } else {
                        lemma_pass_unknown(kana, second, rest, next, 0, c);
                    }
                }
            },
        }
    }
}

/// No two entries of `t` share a key.
pub open spec fn distinct_keys(t: Table) -> bool {
    forall|i: int, j: int| 0 <= i < j < t.len() ==> t[i].0 != t[j].0
}

/// Whether `a` comes before `b` in character order (a prefix comes first).
pub open spec fn key_less(a: Seq<char>, b: Seq<char>) -> bool
    decreases a.len(),
{
    if a.len() == 0 {
        b.len() > 0
    } else if b.len() == 0 {
        false
    } else if a[0] != b[0] {
        a[0] < b[0]
    } else {
        key_less(a.drop_first(), b.drop_first())
    }
}

/// Whether the keys of `t` come in strictly increasing order.
pub open spec fn sorted_keys(t: Table) -> bool {
    forall|i: int| 0 <= i < t.len() - 1 ==> key_less(#[trigger] t[i].0, t[i + 1].0)
}

pub proof fn lemma_key_less_trans(a: Seq<char>, b: Seq<char>, c: Seq<char>)
    requires
        key_less(a, b),
        key_less(b, c),
    ensures
        key_less(a, c),
    decreases a.len(),
{
    if a.len() > 0 && a[0] == b[0] && b[0] == c[0] {
        lemma_key_less_trans(a.drop_first(), b.drop_first(), c.drop_first());
    }
}

pub proof fn lemma_key_less_ne(a: Seq<char>, b: Seq<char>)
    requires
        key_less(a, b),
    ensures
        a != b,
    decreases a.len(),
{
    if a.len() > 0 && b.len() > 0 && a[0] == b[0] {
        lemma_key_less_ne(a.drop_first(), b.drop_first());
        if a == b {
            assert(a.drop_first() == b.drop_first());
        }
    }
}

proof fn lemma_sorted_less(t: Table, i: int, j: int)
    requires
        sorted_keys(t),
        0 <= i < j < t.len(),
    ensures
        key_less(t[i].0, t[j].0),
    decreases j - i,
{
    if j > i + 1 {
        lemma_sorted_less(t, i, j - 1);
        assert(key_less(t[j - 1].0, t[j].0));
        lemma_key_less_trans(t[i].0, t[j - 1].0, t[j].0);
    }
}

/// Keys in strictly increasing order are distinct.
pub proof fn lemma_sorted_distinct(t: Table)
    requires
        sorted_keys(t),
    ensures
        distinct_keys(t),
{
    assert forall|i: int, j: int| 0 <= i < j < t.len() implies t[i].0 != t[j].0 by {
        lemma_sorted_less(t, i, j);
        lemma_key_less_ne(t[i].0, t[j].0);
    }
}

/// Two sorted tables, the first ending below where the second begins, join sorted.
pub proof fn lemma_sorted_join(a: Table, b: Table)
    requires
        sorted_keys(a),
        sorted_keys(b),
        a.len() > 0,
        b.len() > 0,
        key_less(a[a.len() - 1].0, b[0].0),
    ensures
        sorted_keys(a + b),
{
    let t = a + b;
    assert forall|i: int| 0 <= i < t.len() - 1 implies key_less(#[trigger] t[i].0, t[i + 1].0) by {
        if i < a.len() - 1 {
            assert(t[i] == a[i] && t[i + 1] == a[i + 1]);
        } else if i == a.len() - 1 {
            assert(t[i] == a[i] && t[i + 1] == b[0]);
        } else {
            assert(t[i] == b[i - a.len()] && t[i + 1] == b[i - a.len() + 1]);
        }
    }
}

} // verus!
