use crate::model::{
    distinct_keys,
    in_some_key, is_vowel, kana_pass, kana_to_romaji, lead_marks, lead_run, lemma_pass_unknown,
    lemma_segment_len, lemma_text_unknown, looks_like_romaji, lookup, prepend, repeat,
    resolve_segment, romaji_char, romaji_to_kana, segment_len, Table, MORAIC_N, SEPARATOR, SMALL_TSU,
};
use crate::tables::{
    consonant_chars, consonant_set, kana_entries, kana_table, kana_table_2,
    lemma_kana_table_distinct, lemma_multi_table_distinct, lemma_single_table_distinct, multi_entries, multi_table,
    second_glyph_chars, second_glyph_set, single_entries, single_table,
};
use crate::text::{chars_of, compose, nfc_of, push_all, push_repeat, string_of};
use vstd::prelude::*;

verus! {

/// Entries of a table as pairs of key and value.
pub type Entries = Vec<(Vec<char>, Vec<char>)>;

/// The table that `t` holds.
pub open spec fn table_of(t: &Entries) -> Table {
    t@.map_values(|e: (Vec<char>, Vec<char>)| (e.0@, e.1@))
}

/// What an optional text holds, as characters.
pub open spec fn opt_chars(r: Option<String>) -> Option<Seq<char>> {
    match r {
        None => None,
        Some(s) => Some(s@),
    }
}

/// What an optional vector of characters holds.
pub open spec fn opt_vec(r: Option<Vec<char>>) -> Option<Seq<char>> {
    match r {
        None => None,
        Some(v) => Some(v@),
    }
}

/// Whether `k` equals `s[lo..hi]`.
fn key_matches(k: &Vec<char>, s: &Vec<char>, lo: usize, hi: usize) -> (r: bool)
    requires
        lo <= hi <= s@.len(),
    ensures
        r == (k@ == s@.subrange(lo as int, hi as int)),
{
    if k.len() != hi - lo {
        return false;
    }
    let mut j: usize = 0;
    while j < k.len()
        invariant
            k@.len() == hi - lo,
            lo <= hi <= s@.len(),
            j <= k@.len(),
            forall|m: int| 0 <= m < j ==> k@[m] == s@[lo + m],
        decreases k@.len() - j,
    {
        if k[j] != s[lo + j] {
            assert(k@[j as int] != s@.subrange(lo as int, hi as int)[j as int]);
            return false;
        }
        j = j + 1;
    }
    assert(k@ =~= s@.subrange(lo as int, hi as int));
    true
}

/// The value of the first entry of `t` whose key is `s[lo..hi]`.
fn find<'a>(t: &'a Entries, s: &Vec<char>, lo: usize, hi: usize) -> (r: Option<&'a Vec<char>>)
    requires
        lo <= hi <= s@.len(),
    ensures
        lookup(table_of(t), s@.subrange(lo as int, hi as int)) == match r {
            None => None,
            Some(v) => Some(v@),
        },
{
    let ghost key = s@.subrange(lo as int, hi as int);
    let ghost tv = table_of(t);
    let mut i: usize = 0;
    assert(tv.skip(0) =~= tv);
    while i < t.len()
        invariant
            tv == table_of(t),
            key == s@.subrange(lo as int, hi as int),
            lo <= hi <= s@.len(),
            i <= t@.len(),
            lookup(tv, key) == lookup(tv.skip(i as int), key),
        decreases t@.len() - i,
    {
        assert(tv.skip(i as int)[0] == tv[i as int]);
        assert(tv.skip(i as int).drop_first() =~= tv.skip(i + 1));
        if key_matches(&t[i].0, s, lo, hi) {
            return Some(&t[i].1);
        }
        i = i + 1;
    }
    assert(tv.skip(i as int).len() == 0);
    None
}

/// Whether `c` is one of `v`.
fn has_char(v: &Vec<char>, c: char) -> (r: bool)
    ensures
        r == v@.contains(c),
{
    let mut i: usize = 0;
    while i < v.len()
        invariant
            i <= v@.len(),
            forall|m: int| 0 <= m < i ==> v@[m] != c,
        decreases v@.len() - i,
    {
        if v[i] == c {
            return true;
        }
        i = i + 1;
    }
    false
}

/// How many characters of `s[lo..hi]`, from its front, equal `c`.
fn run_len(s: &Vec<char>, lo: usize, hi: usize, c: char) -> (k: usize)
    requires
        lo <= hi <= s@.len(),
    ensures
        k == lead_run(s@.subrange(lo as int, hi as int), c),
        k <= hi - lo,
{
    let mut j: usize = lo;
    while j < hi && s[j] == c
        invariant
            lo <= j <= hi <= s@.len(),
            lead_run(s@.subrange(lo as int, hi as int), c) == (j - lo) + lead_run(
                s@.subrange(j as int, hi as int),
                c,
            ),
        decreases hi - j,
    {
        assert(s@.subrange(j as int, hi as int).drop_first() =~= s@.subrange(j + 1, hi as int));
        j = j + 1;
    }
    j - lo
}

/// The transliteration engine: its tables, read-only once built.
#[derive(Debug)]
pub struct RomajiCvt {
    single_table: Entries,
    multi_table: Entries,
    kana_table: Entries,
    consonant_list: Vec<char>,
    second_glyph_list: Vec<char>,
}

impl RomajiCvt {
    /// Romaji of one letter (the vowels and `n`) to kana.
    pub closed spec fn singles(&self) -> Table {
        table_of(&self.single_table)
    }

    /// Romaji syllables of two to four letters to kana.
    pub closed spec fn multis(&self) -> Table {
        table_of(&self.multi_table)
    }

    /// Kana of one or two characters to romaji.
    pub closed spec fn kana(&self) -> Table {
        table_of(&self.kana_table)
    }

    /// The letters that may begin a syllable.
    pub closed spec fn consonants(&self) -> Seq<char> {
        self.consonant_list@
    }

    /// The kana that join the kana before them into one unit.
    pub closed spec fn second_glyphs(&self) -> Seq<char> {
        self.second_glyph_list@
    }

    /// Whether letter `c` stands in some romaji key or among the consonants.
    pub open spec fn knows_letter(&self, c: char) -> bool {
        in_some_key(self.singles(), c) || in_some_key(self.multis(), c) || self.consonants().contains(c)
    }

    /// Whether kana `c` stands in some key of the kana table.
    pub open spec fn knows_kana(&self, c: char) -> bool {
        in_some_key(self.kana(), c)
    }

    /// Romaji holding a letter that no table knows (other than the separator) has
    /// no kana.
    pub proof fn lemma_unknown_letter_has_no_kana(&self, s: Seq<char>, c: char)
        requires
            self.wf(),
            s.contains(c),
            c != SEPARATOR,
            !self.knows_letter(c),
        ensures
            self.kana_of(s) is None,
    {
        lemma_text_unknown(self.singles(), self.multis(), self.consonants(), s, c);
    }

    /// Kana whose composed form holds a character that no key of the kana table
    /// holds has no romaji.
    pub proof fn lemma_unknown_kana_has_no_romaji(&self, input: Seq<char>, c: char)
        requires
            self.wf(),
            nfc_of(input).contains(c),
            !self.knows_kana(c),
        ensures
            self.romaji_of(nfc_of(input)) is None,
    {
        lemma_pass_unknown(self.kana(), self.second_glyphs(), nfc_of(input), None, 0, c);
    }

    /// Two kana texts with the same composed form, such as a base kana followed by
    /// a combining voicing mark and the precomposed voiced kana, have the same romaji.
    pub proof fn lemma_composed_forms_agree(&self, a: Seq<char>, b: Seq<char>)
        requires
            nfc_of(a) == nfc_of(b),
        ensures
            self.romaji_of(nfc_of(a)) == self.romaji_of(nfc_of(b)),
    {
    }

    /// The kana for romaji `s` under this engine's tables.
    pub open spec fn kana_of(&self, s: Seq<char>) -> Option<Seq<char>> {
        romaji_to_kana(self.singles(), self.multis(), self.consonants(), s)
    }

    /// The kana for one segment of romaji under this engine's tables.
    pub open spec fn segment_kana(&self, s: Seq<char>) -> Option<Seq<char>> {
        resolve_segment(self.singles(), self.multis(), self.consonants(), s)
    }

    /// The romaji for kana `s`, taken as it stands (already composed).
    pub open spec fn romaji_of(&self, s: Seq<char>) -> Option<Seq<char>> {
        kana_to_romaji(self.kana(), self.second_glyphs(), s)
    }

    /// The tables hold what the conversions lean on: no table has two entries
    /// with one key, `n` is a consonant, and the small tsu has an entry of its own.
    pub closed spec fn wf(&self) -> bool {
        &&& distinct_keys(self.singles())
        &&& distinct_keys(self.multis())
        &&& distinct_keys(self.kana())
        &&& self.consonants().contains('n')
        &&& in_some_key(self.kana(), SMALL_TSU)
    }

    /// An engine with the built-in tables.
    pub fn new() -> (r: Self)
        ensures
            r.singles() == single_table(),
            r.multis() == multi_table(),
            r.kana() == kana_table(),
            r.consonants() == consonant_set(),
            r.second_glyphs() == second_glyph_set(),
            r.wf(),
    {
        let r = RomajiCvt {
            single_table: single_entries(),
            multi_table: multi_entries(),
            kana_table: kana_entries(),
            consonant_list: consonant_chars(),
            second_glyph_list: second_glyph_chars(),
        };
        proof {
            reveal_strlit("っ");
            assert(kana_table_2()[12].0 == seq![SMALL_TSU]);
            assert(r.kana()[52] == kana_table_2()[12]);
            assert(r.kana()[52].0[0] == SMALL_TSU);
            lemma_single_table_distinct();
            lemma_multi_table_distinct();
            lemma_kana_table_distinct();
            assert(r.consonants()[3] == 'n');
        }
        r
    }

    fn is_consonant(&self, c: char) -> (r: bool)
        ensures
            r == self.consonants().contains(c),
    {
        has_char(&self.consonant_list, c)
    }

    /// The marks for the repeated first letter of `s[lo..hi]`.
    fn lead_marks_at(&self, s: &Vec<char>, lo: usize, hi: usize) -> (r: Option<(Vec<char>, usize)>)
        requires
            lo <= hi <= s@.len(),
        ensures
            lead_marks(self.consonants(), s@.subrange(lo as int, hi as int)) == match r {
                None => None,
                Some(p) => Some((p.0@, p.1 as nat)),
            },
    {
        if lo == hi {
            return None;
        }
        let c = s[lo];
        let k = run_len(s, lo, hi, c);
        assert(s@.subrange(lo as int, hi as int)[0] == c);
        let mut marks: Vec<char> = Vec::new();
        if c == 'n' {
            if k == 1 && lo + k < hi && self.is_consonant(s[lo + k]) {
                assert(s@.subrange(lo as int, hi as int)[k as int] == s@[lo + k]);
                push_repeat(&mut marks, MORAIC_N, 1);
                assert(marks@ =~= repeat(MORAIC_N, 1));
                return Some((marks, 1));
            }
            assert(k < hi - lo ==> s@.subrange(lo as int, hi as int)[k as int] == s@[lo + k]);
            push_repeat(&mut marks, MORAIC_N, k / 2);
            assert(marks@ =~= repeat(MORAIC_N, (k / 2) as nat));
            Some((marks, 2 * (k / 2)))
        } else if self.is_consonant(c) {
            push_repeat(&mut marks, SMALL_TSU, k - 1);
            assert(marks@ =~= repeat(SMALL_TSU, (k - 1) as nat));
            Some((marks, k - 1))
        } else {
            None
        }
    }

    /// The marks for the repeated first letter of `s` (moraic nasals for a run of
    /// `n`, small tsu for a run of another consonant), and how many letters they
    /// stand for.
    pub fn convert_sokuonn_and_the_sound_of_the_kana_n(&self, s: &str) -> (r: Option<(String, usize)>)
        ensures
            lead_marks(self.consonants(), s@) == match r {
                None => None,
                Some(p) => Some((p.0@, p.1 as nat)),
            },
    {
        let v = chars_of(s);
        assert(v@.subrange(0, v@.len() as int) =~= v@);
        match self.lead_marks_at(&v, 0, v.len()) {
            None => None,
            Some((marks, used)) => Some((string_of(&marks), used)),
        }
    }

    /// The kana for the segment `s[lo..hi]`.
    fn from_romaji_impl(&self, s: &Vec<char>, lo: usize, hi: usize) -> (r: Option<Vec<char>>)
        requires
            lo <= hi <= s@.len(),
        ensures
            self.segment_kana(s@.subrange(lo as int, hi as int)) == opt_vec(r),
        decreases hi - lo,
    {
        let ghost seg = s@.subrange(lo as int, hi as int);
        let len = hi - lo;
        if len == 0 {
            return Some(Vec::new());
        }
        if len == 1 {
            return match find(&self.single_table, s, lo, hi) {
                None => None,
                Some(v) => Some(v.clone()),
            };
        }
        if len == 2 {
            return match find(&self.multi_table, s, lo, hi) {
                None => None,
                Some(v) => Some(v.clone()),
            };
        }
        if len <= 4 {
            if let Some(v) = find(&self.multi_table, s, lo, hi) {
                return Some(v.clone());
            }
        }
        match self.lead_marks_at(s, lo, hi) {
            None => None,
            Some((marks, used)) => {
                if used == 0 || used > len {
                    return None;
                }
                assert(seg.skip(used as int) =~= s@.subrange(lo + used, hi as int));
                match self.from_romaji_impl(s, lo + used, hi) {
                    None => None,
                    Some(rest) => {
                        let mut out = marks;
                        push_all(&mut out, &rest);
                        Some(out)
                    },
                }
            },
        }
    }

    /// Converts romaji to kana: `None` where some segment has no kana.
    pub fn from_romaji(&self, input: String) -> (r: Option<String>)
        ensures
            opt_chars(r) == self.kana_of(input@),
    {
        let s = chars_of(input.as_str());
        let ghost full = s@;
        let mut out: Vec<char> = Vec::new();
        let mut prev: usize = 0;
        let mut i: usize = 0;
        assert(full.skip(0) =~= full);
        while i < s.len()
            invariant
                full == s@,
                full == input@,
                prev <= i <= s@.len(),
                self.kana_of(full) == prepend(out@, self.kana_of(full.skip(prev as int))),
                forall|m: int| prev <= m < i ==> !is_vowel(#[trigger] full[m]) && full[m] != SEPARATOR,
            decreases s@.len() - i,
        {
            let c = s[i];
            let vowel = c == 'a' || c == 'i' || c == 'u' || c == 'e' || c == 'o';
            if vowel || c == SEPARATOR {
                let end: usize = if vowel { i + 1 } else { i };
                let ghost rest = full.skip(prev as int);
                proof {
                    assert forall|m: int| 0 <= m < i - prev implies !is_vowel(#[trigger] rest[m]) && rest[m] != SEPARATOR by {
                        assert(rest[m] == full[prev + m]);
                    }
                    assert(rest[i - prev] == c);
                    lemma_segment_len(rest, i - prev);
                }
                if end > prev {
                    proof {
                        assert(rest[0] == full[prev as int]);
                        assert(rest.take(end - prev) =~= full.subrange(prev as int, end as int));
                        assert(rest.skip(end - prev) =~= full.skip(end as int));
                    }
                    match self.from_romaji_impl(&s, prev, end) {
                        None => {
                            assert(self.kana_of(rest) is None);
                            return None;
                        },
                        Some(head) => {
                            let ghost before = out@;
                            push_all(&mut out, &head);
                            proof {
                                let tail = self.kana_of(full.skip(end as int));
                                if let Some(t) = tail {
                                    assert(before + (head@ + t) =~= out@ + t);
                                }
                            }
                            prev = end;
                        },
                    }
                }
                if !vowel {
                    assert(full.skip(i as int)[0] == SEPARATOR);
                    assert(full.skip(i as int).drop_first() =~= full.skip(i + 1));
                }
                prev = i + 1;
            }
            i = i + 1;
        }
        if prev != s.len() {
            let ghost rest = full.skip(prev as int);
            proof {
                assert forall|m: int| 0 <= m < rest.len() implies !is_vowel(#[trigger] rest[m]) && rest[m] != SEPARATOR by {
                    assert(rest[m] == full[prev + m]);
                }
                lemma_segment_len(rest, rest.len() as int);
                assert(rest[0] == full[prev as int]);
                assert(rest.take(rest.len() as int) =~= full.subrange(prev as int, s@.len() as int));
                assert(rest.skip(rest.len() as int) =~= Seq::<char>::empty());
            }
            assert(rest.len() > 0);
            match self.from_romaji_impl(&s, prev, s.len()) {
                None => {
                    assert(self.kana_of(rest) is None);
                    return None;
                },
                Some(head) => {
                    let ghost before = out@;
                    push_all(&mut out, &head);
                    assert(self.kana_of(Seq::<char>::empty()) == Some(Seq::<char>::empty()));
                    assert(self.kana_of(rest) == Some(head@ + Seq::<char>::empty()));
                    assert(before + (head@ + Seq::<char>::empty()) =~= out@);
                },
            }
        } else {
            assert(full.skip(prev as int) =~= Seq::<char>::empty());
            assert(out@ + Seq::<char>::empty() =~= out@);
        }
        Some(string_of(&out))
    }

    /// Converts kana to romaji: the input is first brought to composed form
    /// (NFC); `None` where some unit has no romaji.
    pub fn to_romaji(&self, input: String) -> (r: Option<String>)
        ensures
            opt_chars(r) == self.romaji_of(nfc_of(input@)),
    {
        let composed = compose(input.as_str());
        self.romaji_of_composed(composed.as_str())
    }

    /// Converts kana already in composed form to romaji: `None` where some unit
    /// has no romaji.
    pub fn romaji_of_composed(&self, input: &str) -> (r: Option<String>)
        ensures
            opt_chars(r) == self.romaji_of(input@),
    {
        let s = chars_of(input);
        let ghost full = s@;
        let mut out: Vec<char> = Vec::new();
        let mut prev: Option<char> = None;
        let mut pending: usize = 0;
        let mut i: usize = 0;
        assert(full.skip(0) =~= full);
        while i < s.len()
            invariant
                full == s@,
                full == input@,
                i <= s@.len(),
                pending <= i,
                self.romaji_of(full) == prepend(
                    out@,
                    kana_pass(self.kana(), self.second_glyphs(), full.skip(i as int), prev, pending as nat),
                ),
            decreases s@.len() - i,
        {
            let c = s[i];
            let ghost rest = full.skip(i as int);
            assert(rest[0] == c);
            assert(rest.drop_first() =~= full.skip(i + 1));
            match prev {
                None => {
                    prev = Some(c);
                },
                Some(p) => {
                    if p == SMALL_TSU {
                        prev = Some(c);
                        pending = pending + 1;
                    } else {
                        let pair = has_char(&self.second_glyph_list, c);
                        let key: Vec<char> = if pair {
                            vec![p, c]
                        } else {
                            vec![p]
                        };
                        let next = if pair {
                            None
                        } else {
                            Some(c)
                        };
                        assert(key@.subrange(0, key@.len() as int) =~= if pair {
                            seq![p, c]
                        } else {
                            seq![p]
                        });
                        assert(rest.len() > 0);
                        match find(&self.kana_table, &key, 0, key.len()) {
                            None => {
                                assert(kana_pass(self.kana(), self.second_glyphs(), rest, prev, pending as nat) is None);
                                return None;
                            },
                            Some(v) => {
                                let ghost before = out@;
                                if pending > 0 {
                                    if v.len() == 0 {
                                        return None;
                                    }
                                    push_repeat(&mut out, v[0], pending);
                                }
                                let ghost lead = out@.skip(before.len() as int);
                                assert(out@ =~= before + lead);
                                assert(lead =~= if pending > 0 { repeat(v@[0], pending as nat) } else { Seq::empty() });
                                push_all(&mut out, v);
                                proof {
                                    let tail = kana_pass(self.kana(), self.second_glyphs(), full.skip(i + 1), next, 0);
                                    if let Some(t) = tail {
                                        assert(before + (lead + v@ + t) =~= out@ + t);
                                    }
                                }
                                pending = 0;
                                prev = next;
                            },
                        }
                    }
                },
            }
            i = i + 1;
        }
        assert(full.skip(i as int) =~= Seq::<char>::empty());
        match prev {
            None => {
                assert(out@ + Seq::<char>::empty() =~= out@);
            },
            Some(p) => {
                let key: Vec<char> = vec![p];
                assert(key@.subrange(0, 1) =~= seq![p]);
                match find(&self.kana_table, &key, 0, 1) {
                    None => {
                        return None;
                    },
                    Some(v) => {
                        let ghost before = out@;
                        if pending > 0 {
                            if v.len() == 0 {
                                return None;
                            }
                            push_repeat(&mut out, v[0], pending);
                        }
                        let ghost lead = out@.skip(before.len() as int);
                        assert(out@ =~= before + lead);
                        assert(lead =~= if pending > 0 { repeat(v@[0], pending as nat) } else { Seq::empty() });
                        push_all(&mut out, v);
                        assert(before + (lead + v@) =~= out@);
                    },
                }
            },
        }
        Some(string_of(&out))
    }
}

/// Whether every character of `s` is an ASCII letter or an apostrophe.
fn is_romaji_text(s: &Vec<char>) -> (r: bool)
    ensures
        r == looks_like_romaji(s@),
{
    let mut i: usize = 0;
    while i < s.len()
        invariant
            i <= s@.len(),
            forall|m: int| 0 <= m < i ==> romaji_char(#[trigger] s@[m]),
        decreases s@.len() - i,
    {
        let c = s[i];
        if !(('a' <= c && c <= 'z') || ('A' <= c && c <= 'Z') || c == '\'') {
            assert(!romaji_char(s@[i as int]));
            return false;
        }
        i = i + 1;
    }
    true
}

/// Converts a text in whichever direction it reads: romaji to kana when every
/// character is an ASCII letter or an apostrophe, kana to romaji otherwise.
pub fn convert(cvt: &RomajiCvt, input: String) -> (r: Option<String>)
    ensures
        looks_like_romaji(input@) ==> opt_chars(r) == cvt.kana_of(input@),
        !looks_like_romaji(input@) ==> opt_chars(r) == cvt.romaji_of(nfc_of(input@)),
{
    let s = chars_of(input.as_str());
    if is_romaji_text(&s) {
        cvt.from_romaji(input)
    } else {
        cvt.to_romaji(input)
    }
}

} // verus!
