use crate::cvt::{table_of, Entries};
use crate::model::{
    distinct_keys, key_less, lemma_sorted_distinct, lemma_sorted_join, sorted_keys, Table,
};
use crate::text::chars_of;
use vstd::prelude::*;

verus! {

/// The one-letter romaji: the vowels and the moraic `n`.
pub open spec fn single_table() -> Table {
    seq![
        ("a"@, "あ"@),
        ("e"@, "え"@),
        ("i"@, "い"@),
        ("n"@, "ん"@),
        ("o"@, "お"@),
        ("u"@, "う"@),
    ]
}

/// Entries 0 to 19 of [`multi_table`].
pub open spec fn multi_table_0() -> Table {
    seq![
        ("ba"@, "ば"@),
        ("be"@, "べ"@),
        ("bi"@, "び"@),
        ("bo"@, "ぼ"@),
        ("bu"@, "ぶ"@),
        ("bya"@, "びゃ"@),
        ("byo"@, "びょ"@),
        ("byu"@, "びゅ"@),
        ("ca"@, "か"@),
        ("ce"@, "せ"@),
        ("cha"@, "ちゃ"@),
        ("chi"@, "ち"@),
        ("cho"@, "ちょ"@),
        ("chu"@, "ちゅ"@),
        ("ci"@, "し"@),
        ("co"@, "こ"@),
        ("cu"@, "く"@),
        ("cya"@, "ちゃ"@),
        ("cyo"@, "ちょ"@),
        ("cyu"@, "ちゅ"@),
    ]
}

/// Entries 20 to 39 of [`multi_table`].
pub open spec fn multi_table_1() -> Table {
    seq![
        ("da"@, "だ"@),
        ("de"@, "で"@),
        ("di"@, "ぢ"@),
        ("do"@, "ど"@),
        ("du"@, "づ"@),
        ("dya"@, "ぢゃ"@),
        ("dyo"@, "ぢょ"@),
        ("dyu"@, "ぢゅ"@),
        ("fa"@, "ふぁ"@),
        ("fe"@, "ふぇ"@),
        ("fi"@, "ふぃ"@),
        ("fo"@, "ふぉ"@),
        ("fu"@, "ふ"@),
        ("ga"@, "が"@),
        ("ge"@, "げ"@),
        ("gi"@, "ぎ"@),
        ("go"@, "ご"@),
        ("gu"@, "ぐ"@),
        ("gya"@, "ぎゃ"@),
        ("gyo"@, "ぎょ"@),
    ]
}

/// Entries 40 to 59 of [`multi_table`].
pub open spec fn multi_table_2() -> Table {
    seq![
        ("gyu"@, "ぎゅ"@),
        ("ha"@, "は"@),
        ("he"@, "へ"@),
        ("hi"@, "ひ"@),
        ("ho"@, "ほ"@),
        ("hu"@, "ふ"@),
        ("hya"@, "ひゃ"@),
        ("hyo"@, "ひょ"@),
        ("hyu"@, "ひゅ"@),
        ("ja"@, "じゃ"@),
        ("ji"@, "じ"@),
        ("jo"@, "じょ"@),
        ("ju"@, "じゅ"@),
        ("jya"@, "じゃ"@),
        ("jyo"@, "じょ"@),
        ("jyu"@, "じゅ"@),
        ("ka"@, "か"@),
        ("ke"@, "け"@),
        ("ki"@, "き"@),
        ("ko"@, "こ"@),
    ]
}

/// Entries 60 to 79 of [`multi_table`].
pub open spec fn multi_table_3() -> Table {
    seq![
        ("ku"@, "く"@),
        ("kya"@, "きゃ"@),
        ("kyo"@, "きょ"@),
        ("kyu"@, "きゅ"@),
        ("la"@, "ぁ"@),
        ("le"@, "ぇ"@),
        ("li"@, "ぃ"@),
        ("lo"@, "ぉ"@),
        ("ltsu"@, "っ"@),
        ("ltu"@, "っ"@),
        ("lu"@, "ぅ"@),
        ("lwa"@, "ゎ"@),
        ("lya"@, "ゃ"@),
        ("lyo"@, "ょ"@),
        ("lyu"@, "ゅ"@),
        ("ma"@, "ま"@),
        ("me"@, "め"@),
        ("mi"@, "み"@),
        ("mo"@, "も"@),
        ("mu"@, "む"@),
    ]
}

/// Entries 80 to 99 of [`multi_table`].
pub open spec fn multi_table_4() -> Table {
    seq![
        ("mya"@, "みゃ"@),
        ("myo"@, "みょ"@),
        ("myu"@, "みゅ"@),
        ("na"@, "な"@),
        ("ne"@, "ね"@),
        ("ni"@, "に"@),
        ("nn"@, "ん"@),
        ("no"@, "の"@),
        ("nu"@, "ぬ"@),
        ("nya"@, "にゃ"@),
        ("nyo"@, "にょ"@),
        ("nyu"@, "にゅ"@),
        ("pa"@, "ぱ"@),
        ("pe"@, "ぺ"@),
        ("pi"@, "ぴ"@),
        ("po"@, "ぽ"@),
        ("pu"@, "ぷ"@),
        ("pya"@, "ぴゃ"@),
        ("pyo"@, "ぴょ"@),
        ("pyu"@, "ぴゅ"@),
    ]
}

/// Entries 100 to 119 of [`multi_table`].
pub open spec fn multi_table_5() -> Table {
    seq![
        ("ra"@, "ら"@),
        ("re"@, "れ"@),
        ("ri"@, "り"@),
        ("ro"@, "ろ"@),
        ("ru"@, "る"@),
        ("rya"@, "りゃ"@),
        ("ryo"@, "りょ"@),
        ("ryu"@, "りゅ"@),
        ("sa"@, "さ"@),
        ("se"@, "せ"@),
        ("sha"@, "しゃ"@),
        ("shi"@, "し"@),
        ("sho"@, "しょ"@),
        ("shu"@, "しゅ"@),
        ("si"@, "し"@),
        ("so"@, "そ"@),
        ("su"@, "す"@),
        ("sya"@, "しゃ"@),
        ("syo"@, "しょ"@),
        ("syu"@, "しゅ"@),
    ]
}

/// Entries 120 to 139 of [`multi_table`].
pub open spec fn multi_table_6() -> Table {
    seq![
        ("ta"@, "た"@),
        ("te"@, "て"@),
        ("ti"@, "ち"@),
        ("to"@, "と"@),
        ("tsu"@, "つ"@),
        ("tu"@, "つ"@),
        ("tya"@, "ちゃ"@),
        ("tyo"@, "ちょ"@),
        ("tyu"@, "ちゅ"@),
        ("vu"@, "ゔ"@),
        ("wa"@, "わ"@),
        ("we"@, "うぇ"@),
        ("wi"@, "うぃ"@),
        ("wo"@, "を"@),
        ("xa"@, "ぁ"@),
        ("xe"@, "ぇ"@),
        ("xi"@, "ぃ"@),
        ("xn"@, "ん"@),
        ("xo"@, "ぉ"@),
        ("xtsu"@, "っ"@),
    ]
}

/// Entries 140 to 157 of [`multi_table`].
pub open spec fn multi_table_7() -> Table {
    seq![
        ("xtu"@, "っ"@),
        ("xu"@, "ぅ"@),
        ("xwa"@, "ゎ"@),
        ("xya"@, "ゃ"@),
        ("xyo"@, "ょ"@),
        ("xyu"@, "ゅ"@),
        ("ya"@, "や"@),
        ("ye"@, "いぇ"@),
        ("yo"@, "よ"@),
        ("yu"@, "ゆ"@),
        ("za"@, "ざ"@),
        ("ze"@, "ぜ"@),
        ("zi"@, "じ"@),
        ("zo"@, "ぞ"@),
        ("zu"@, "ず"@),
        ("zya"@, "じゃ"@),
        ("zyo"@, "じょ"@),
        ("zyu"@, "じゅ"@),
    ]
}

/// The romaji syllables of two to four letters, with their kana.
/// Written in parts of twenty entries, each built and checked on its own, in order of key.
pub open spec fn multi_table() -> Table {
    multi_table_0() + multi_table_1() + multi_table_2() + multi_table_3() + multi_table_4() + multi_table_5() + multi_table_6() + multi_table_7()
}

/// Entries 0 to 19 of [`kana_table`].
pub open spec fn kana_table_0() -> Table {
    seq![
        ("ぁ"@, "xa"@),
        ("あ"@, "a"@),
        ("ぃ"@, "xi"@),
        ("い"@, "i"@),
        ("ぅ"@, "xu"@),
        ("う"@, "u"@),
        ("ぇ"@, "xe"@),
        ("え"@, "e"@),
        ("ぉ"@, "xo"@),
        ("お"@, "o"@),
        ("か"@, "ka"@),
        ("が"@, "ga"@),
        ("き"@, "ki"@),
        ("きゃ"@, "kya"@),
        ("きゅ"@, "kyu"@),
        ("きょ"@, "kyo"@),
        ("ぎ"@, "gi"@),
        ("ぎゃ"@, "gya"@),
        ("ぎゅ"@, "gyu"@),
        ("ぎょ"@, "gyo"@),
    ]
}

/// Entries 20 to 39 of [`kana_table`].
pub open spec fn kana_table_1() -> Table {
    seq![
        ("く"@, "ku"@),
        ("ぐ"@, "gu"@),
        ("け"@, "ke"@),
        ("げ"@, "ge"@),
        ("こ"@, "ko"@),
        ("ご"@, "go"@),
        ("さ"@, "sa"@),
        ("ざ"@, "za"@),
        ("し"@, "si"@),
        ("しゃ"@, "sya"@),
        ("しゅ"@, "syu"@),
        ("しょ"@, "syo"@),
        ("じ"@, "zi"@),
        ("じゃ"@, "zya"@),
        ("じゅ"@, "zyu"@),
        ("じょ"@, "zyo"@),
        ("す"@, "su"@),
        ("ず"@, "zu"@),
        ("せ"@, "se"@),
        ("ぜ"@, "ze"@),
    ]
}

/// Entries 40 to 59 of [`kana_table`].
pub open spec fn kana_table_2() -> Table {
    seq![
        ("そ"@, "so"@),
        ("ぞ"@, "zo"@),
        ("た"@, "ta"@),
        ("だ"@, "da"@),
        ("ち"@, "ti"@),
        ("ちゃ"@, "tya"@),
        ("ちゅ"@, "tyu"@),
        ("ちょ"@, "tyo"@),
        ("ぢ"@, "di"@),
        ("ぢゃ"@, "dya"@),
        ("ぢゅ"@, "dyu"@),
        ("ぢょ"@, "dyo"@),
        ("っ"@, "xtu"@),
        ("つ"@, "tu"@),
        ("づ"@, "du"@),
        ("て"@, "te"@),
        ("で"@, "de"@),
        ("と"@, "to"@),
        ("ど"@, "do"@),
        ("な"@, "na"@),
    ]
}

/// Entries 60 to 79 of [`kana_table`].
pub open spec fn kana_table_3() -> Table {
    seq![
        ("に"@, "ni"@),
        ("にゃ"@, "nya"@),
        ("にゅ"@, "nyu"@),
        ("にょ"@, "nyo"@),
        ("ぬ"@, "nu"@),
        ("ね"@, "ne"@),
        ("の"@, "no"@),
        ("は"@, "ha"@),
        ("ば"@, "ba"@),
        ("ぱ"@, "pa"@),
        ("ひ"@, "hi"@),
        ("ひゃ"@, "hya"@),
        ("ひゅ"@, "hyu"@),
        ("ひょ"@, "hyo"@),
        ("び"@, "bi"@),
        ("びゃ"@, "bya"@),
        ("びゅ"@, "byu"@),
        ("びょ"@, "byo"@),
        ("ぴ"@, "pi"@),
        ("ぴゃ"@, "pya"@),
    ]
}

/// Entries 80 to 99 of [`kana_table`].
pub open spec fn kana_table_4() -> Table {
    seq![
        ("ぴゅ"@, "pyu"@),
        ("ぴょ"@, "pyo"@),
        ("ふ"@, "hu"@),
        ("ぶ"@, "bu"@),
        ("ぷ"@, "pu"@),
        ("へ"@, "he"@),
        ("べ"@, "be"@),
        ("ぺ"@, "pe"@),
        ("ほ"@, "ho"@),
        ("ぼ"@, "bo"@),
        ("ぽ"@, "po"@),
        ("ま"@, "ma"@),
        ("み"@, "mi"@),
        ("みゃ"@, "mya"@),
        ("みゅ"@, "myu"@),
        ("みょ"@, "myo"@),
        ("む"@, "mu"@),
        ("め"@, "me"@),
        ("も"@, "mo"@),
        ("ゃ"@, "xya"@),
    ]
}

/// Entries 100 to 117 of [`kana_table`].
pub open spec fn kana_table_5() -> Table {
    seq![
        ("や"@, "ya"@),
        ("ゅ"@, "xyu"@),
        ("ゆ"@, "yu"@),
        ("ょ"@, "xyo"@),
        ("よ"@, "yo"@),
        ("ら"@, "ra"@),
        ("り"@, "ri"@),
        ("りゃ"@, "rya"@),
        ("りゅ"@, "ryu"@),
        ("りょ"@, "ryo"@),
        ("る"@, "ru"@),
        ("れ"@, "re"@),
        ("ろ"@, "ro"@),
        ("ゎ"@, "xwa"@),
        ("わ"@, "wa"@),
        ("を"@, "wo"@),
        ("ん"@, "nn"@),
        ("ゔ"@, "vu"@),
    ]
}

/// Kana of one or two characters, with their romaji.
/// Written in parts of twenty entries, each built and checked on its own, in order of key.
pub open spec fn kana_table() -> Table {
    kana_table_0() + kana_table_1() + kana_table_2() + kana_table_3() + kana_table_4() + kana_table_5()
}

/// The letters that may begin a syllable.
pub open spec fn consonant_set() -> Seq<char> {
    seq!['k', 's', 't', 'n', 'h', 'm', 'y', 'r', 'w', 'z', 'j', 'p', 'b', 'c', 'g', 'f', 'd', 'v']
}

/// The small kana that join the kana before them: the small ya, yu and yo.
pub open spec fn second_glyph_set() -> Seq<char> {
    seq!['ゃ', 'ゅ', 'ょ']
}

/// Appends the entry from `k` to `v`.
fn put(t: &mut Entries, k: &str, v: &str)
    ensures
        table_of(final(t)) == table_of(old(t)).push((k@, v@)),
{
    let e = (chars_of(k), chars_of(v));
    t.push(e);
    assert(table_of(final(t)) =~= table_of(old(t)).push((k@, v@)));
}

pub(crate) fn single_entries() -> (t: Entries)
    ensures
        table_of(&t) == single_table(),
{
    let mut t: Entries = Vec::new();
    assert(table_of(&t) =~= Seq::empty());
    put(&mut t, "a", "あ");
    put(&mut t, "e", "え");
    put(&mut t, "i", "い");
    put(&mut t, "n", "ん");
    put(&mut t, "o", "お");
    put(&mut t, "u", "う");
    t
}

fn multi_entries_0(t: &mut Entries)
    ensures
        table_of(final(t)) == table_of(old(t)) + multi_table_0(),
{
    let ghost start = table_of(t);
    put(t, "ba", "ば");
    put(t, "be", "べ");
    put(t, "bi", "び");
    put(t, "bo", "ぼ");
    put(t, "bu", "ぶ");
    put(t, "bya", "びゃ");
    put(t, "byo", "びょ");
    put(t, "byu", "びゅ");
    put(t, "ca", "か");
    put(t, "ce", "せ");
    put(t, "cha", "ちゃ");
    put(t, "chi", "ち");
    put(t, "cho", "ちょ");
    put(t, "chu", "ちゅ");
    put(t, "ci", "し");
    put(t, "co", "こ");
    put(t, "cu", "く");
    put(t, "cya", "ちゃ");
    put(t, "cyo", "ちょ");
    put(t, "cyu", "ちゅ");
    assert(table_of(t) =~= start + multi_table_0());
}

fn multi_entries_1(t: &mut Entries)
    ensures
        table_of(final(t)) == table_of(old(t)) + multi_table_1(),
{
    let ghost start = table_of(t);
    put(t, "da", "だ");
    put(t, "de", "で");
    put(t, "di", "ぢ");
    put(t, "do", "ど");
    put(t, "du", "づ");
    put(t, "dya", "ぢゃ");
    put(t, "dyo", "ぢょ");
    put(t, "dyu", "ぢゅ");
    put(t, "fa", "ふぁ");
    put(t, "fe", "ふぇ");
    put(t, "fi", "ふぃ");
    put(t, "fo", "ふぉ");
    put(t, "fu", "ふ");
    put(t, "ga", "が");
    put(t, "ge", "げ");
    put(t, "gi", "ぎ");
    put(t, "go", "ご");
    put(t, "gu", "ぐ");
    put(t, "gya", "ぎゃ");
    put(t, "gyo", "ぎょ");
    assert(table_of(t) =~= start + multi_table_1());
}

fn multi_entries_2(t: &mut Entries)
    ensures
        table_of(final(t)) == table_of(old(t)) + multi_table_2(),
{
    let ghost start = table_of(t);
    put(t, "gyu", "ぎゅ");
    put(t, "ha", "は");
    put(t, "he", "へ");
    put(t, "hi", "ひ");
    put(t, "ho", "ほ");
    put(t, "hu", "ふ");
    put(t, "hya", "ひゃ");
    put(t, "hyo", "ひょ");
    put(t, "hyu", "ひゅ");
    put(t, "ja", "じゃ");
    put(t, "ji", "じ");
    put(t, "jo", "じょ");
    put(t, "ju", "じゅ");
    put(t, "jya", "じゃ");
    put(t, "jyo", "じょ");
    put(t, "jyu", "じゅ");
    put(t, "ka", "か");
    put(t, "ke", "け");
    put(t, "ki", "き");
    put(t, "ko", "こ");
    assert(table_of(t) =~= start + multi_table_2());
}

fn multi_entries_3(t: &mut Entries)
    ensures
        table_of(final(t)) == table_of(old(t)) + multi_table_3(),
{
    let ghost start = table_of(t);
    put(t, "ku", "く");
    put(t, "kya", "きゃ");
    put(t, "kyo", "きょ");
    put(t, "kyu", "きゅ");
    put(t, "la", "ぁ");
    put(t, "le", "ぇ");
    put(t, "li", "ぃ");
    put(t, "lo", "ぉ");
    put(t, "ltsu", "っ");
    put(t, "ltu", "っ");
    put(t, "lu", "ぅ");
    put(t, "lwa", "ゎ");
    put(t, "lya", "ゃ");
    put(t, "lyo", "ょ");
    put(t, "lyu", "ゅ");
    put(t, "ma", "ま");
    put(t, "me", "め");
    put(t, "mi", "み");
    put(t, "mo", "も");
    put(t, "mu", "む");
    assert(table_of(t) =~= start + multi_table_3());
}

fn multi_entries_4(t: &mut Entries)
    ensures
        table_of(final(t)) == table_of(old(t)) + multi_table_4(),
{
    let ghost start = table_of(t);
    put(t, "mya", "みゃ");
    put(t, "myo", "みょ");
    put(t, "myu", "みゅ");
    put(t, "na", "な");
    put(t, "ne", "ね");
    put(t, "ni", "に");
    put(t, "nn", "ん");
    put(t, "no", "の");
    put(t, "nu", "ぬ");
    put(t, "nya", "にゃ");
    put(t, "nyo", "にょ");
    put(t, "nyu", "にゅ");
    put(t, "pa", "ぱ");
    put(t, "pe", "ぺ");
    put(t, "pi", "ぴ");
    put(t, "po", "ぽ");
    put(t, "pu", "ぷ");
    put(t, "pya", "ぴゃ");
    put(t, "pyo", "ぴょ");
    put(t, "pyu", "ぴゅ");
    assert(table_of(t) =~= start + multi_table_4());
}

fn multi_entries_5(t: &mut Entries)
    ensures
        table_of(final(t)) == table_of(old(t)) + multi_table_5(),
{
    let ghost start = table_of(t);
    put(t, "ra", "ら");
    put(t, "re", "れ");
    put(t, "ri", "り");
    put(t, "ro", "ろ");
    put(t, "ru", "る");
    put(t, "rya", "りゃ");
    put(t, "ryo", "りょ");
    put(t, "ryu", "りゅ");
    put(t, "sa", "さ");
    put(t, "se", "せ");
    put(t, "sha", "しゃ");
    put(t, "shi", "し");
    put(t, "sho", "しょ");
    put(t, "shu", "しゅ");
    put(t, "si", "し");
    put(t, "so", "そ");
    put(t, "su", "す");
    put(t, "sya", "しゃ");
    put(t, "syo", "しょ");
    put(t, "syu", "しゅ");
    assert(table_of(t) =~= start + multi_table_5());
}

fn multi_entries_6(t: &mut Entries)
    ensures
        table_of(final(t)) == table_of(old(t)) + multi_table_6(),
{
    let ghost start = table_of(t);
    put(t, "ta", "た");
    put(t, "te", "て");
    put(t, "ti", "ち");
    put(t, "to", "と");
    put(t, "tsu", "つ");
    put(t, "tu", "つ");
    put(t, "tya", "ちゃ");
    put(t, "tyo", "ちょ");
    put(t, "tyu", "ちゅ");
    put(t, "vu", "ゔ");
    put(t, "wa", "わ");
    put(t, "we", "うぇ");
    put(t, "wi", "うぃ");
    put(t, "wo", "を");
    put(t, "xa", "ぁ");
    put(t, "xe", "ぇ");
    put(t, "xi", "ぃ");
    put(t, "xn", "ん");
    put(t, "xo", "ぉ");
    put(t, "xtsu", "っ");
    assert(table_of(t) =~= start + multi_table_6());
}

fn multi_entries_7(t: &mut Entries)
    ensures
        table_of(final(t)) == table_of(old(t)) + multi_table_7(),
{
    let ghost start = table_of(t);
    put(t, "xtu", "っ");
    put(t, "xu", "ぅ");
    put(t, "xwa", "ゎ");
    put(t, "xya", "ゃ");
    put(t, "xyo", "ょ");
    put(t, "xyu", "ゅ");
    put(t, "ya", "や");
    put(t, "ye", "いぇ");
    put(t, "yo", "よ");
    put(t, "yu", "ゆ");
    put(t, "za", "ざ");
    put(t, "ze", "ぜ");
    put(t, "zi", "じ");
    put(t, "zo", "ぞ");
    put(t, "zu", "ず");
    put(t, "zya", "じゃ");
    put(t, "zyo", "じょ");
    put(t, "zyu", "じゅ");
    assert(table_of(t) =~= start + multi_table_7());
}

pub(crate) fn multi_entries() -> (t: Entries)
    ensures
        table_of(&t) == multi_table(),
{
    let mut t: Entries = Vec::new();
    assert(table_of(&t) =~= Seq::empty());
    multi_entries_0(&mut t);
    assert(table_of(&t) =~= multi_table_0());
    multi_entries_1(&mut t);
    multi_entries_2(&mut t);
    multi_entries_3(&mut t);
    multi_entries_4(&mut t);
    multi_entries_5(&mut t);
    multi_entries_6(&mut t);
    multi_entries_7(&mut t);
    t
}

fn kana_entries_0(t: &mut Entries)
    ensures
        table_of(final(t)) == table_of(old(t)) + kana_table_0(),
{
    let ghost start = table_of(t);
    put(t, "ぁ", "xa");
    put(t, "あ", "a");
    put(t, "ぃ", "xi");
    put(t, "い", "i");
    put(t, "ぅ", "xu");
    put(t, "う", "u");
    put(t, "ぇ", "xe");
    put(t, "え", "e");
    put(t, "ぉ", "xo");
    put(t, "お", "o");
    put(t, "か", "ka");
    put(t, "が", "ga");
    put(t, "き", "ki");
    put(t, "きゃ", "kya");
    put(t, "きゅ", "kyu");
    put(t, "きょ", "kyo");
    put(t, "ぎ", "gi");
    put(t, "ぎゃ", "gya");
    put(t, "ぎゅ", "gyu");
    put(t, "ぎょ", "gyo");
    assert(table_of(t) =~= start + kana_table_0());
}

fn kana_entries_1(t: &mut Entries)
    ensures
        table_of(final(t)) == table_of(old(t)) + kana_table_1(),
{
    let ghost start = table_of(t);
    put(t, "く", "ku");
    put(t, "ぐ", "gu");
    put(t, "け", "ke");
    put(t, "げ", "ge");
    put(t, "こ", "ko");
    put(t, "ご", "go");
    put(t, "さ", "sa");
    put(t, "ざ", "za");
    put(t, "し", "si");
    put(t, "しゃ", "sya");
    put(t, "しゅ", "syu");
    put(t, "しょ", "syo");
    put(t, "じ", "zi");
    put(t, "じゃ", "zya");
    put(t, "じゅ", "zyu");
    put(t, "じょ", "zyo");
    put(t, "す", "su");
    put(t, "ず", "zu");
    put(t, "せ", "se");
    put(t, "ぜ", "ze");
    assert(table_of(t) =~= start + kana_table_1());
}

fn kana_entries_2(t: &mut Entries)
    ensures
        table_of(final(t)) == table_of(old(t)) + kana_table_2(),
{
    let ghost start = table_of(t);
    put(t, "そ", "so");
    put(t, "ぞ", "zo");
    put(t, "た", "ta");
    put(t, "だ", "da");
    put(t, "ち", "ti");
    put(t, "ちゃ", "tya");
    put(t, "ちゅ", "tyu");
    put(t, "ちょ", "tyo");
    put(t, "ぢ", "di");
    put(t, "ぢゃ", "dya");
    put(t, "ぢゅ", "dyu");
    put(t, "ぢょ", "dyo");
    put(t, "っ", "xtu");
    put(t, "つ", "tu");
    put(t, "づ", "du");
    put(t, "て", "te");
    put(t, "で", "de");
    put(t, "と", "to");
    put(t, "ど", "do");
    put(t, "な", "na");
    assert(table_of(t) =~= start + kana_table_2());
}

fn kana_entries_3(t: &mut Entries)
    ensures
        table_of(final(t)) == table_of(old(t)) + kana_table_3(),
{
    let ghost start = table_of(t);
    put(t, "に", "ni");
    put(t, "にゃ", "nya");
    put(t, "にゅ", "nyu");
    put(t, "にょ", "nyo");
    put(t, "ぬ", "nu");
    put(t, "ね", "ne");
    put(t, "の", "no");
    put(t, "は", "ha");
    put(t, "ば", "ba");
    put(t, "ぱ", "pa");
    put(t, "ひ", "hi");
    put(t, "ひゃ", "hya");
    put(t, "ひゅ", "hyu");
    put(t, "ひょ", "hyo");
    put(t, "び", "bi");
    put(t, "びゃ", "bya");
    put(t, "びゅ", "byu");
    put(t, "びょ", "byo");
    put(t, "ぴ", "pi");
    put(t, "ぴゃ", "pya");
    assert(table_of(t) =~= start + kana_table_3());
}

fn kana_entries_4(t: &mut Entries)
    ensures
        table_of(final(t)) == table_of(old(t)) + kana_table_4(),
{
    let ghost start = table_of(t);
    put(t, "ぴゅ", "pyu");
    put(t, "ぴょ", "pyo");
    put(t, "ふ", "hu");
    put(t, "ぶ", "bu");
    put(t, "ぷ", "pu");
    put(t, "へ", "he");
    put(t, "べ", "be");
    put(t, "ぺ", "pe");
    put(t, "ほ", "ho");
    put(t, "ぼ", "bo");
    put(t, "ぽ", "po");
    put(t, "ま", "ma");
    put(t, "み", "mi");
    put(t, "みゃ", "mya");
    put(t, "みゅ", "myu");
    put(t, "みょ", "myo");
    put(t, "む", "mu");
    put(t, "め", "me");
    put(t, "も", "mo");
    put(t, "ゃ", "xya");
    assert(table_of(t) =~= start + kana_table_4());
}

fn kana_entries_5(t: &mut Entries)
    ensures
        table_of(final(t)) == table_of(old(t)) + kana_table_5(),
{
    let ghost start = table_of(t);
    put(t, "や", "ya");
    put(t, "ゅ", "xyu");
    put(t, "ゆ", "yu");
    put(t, "ょ", "xyo");
    put(t, "よ", "yo");
    put(t, "ら", "ra");
    put(t, "り", "ri");
    put(t, "りゃ", "rya");
    put(t, "りゅ", "ryu");
    put(t, "りょ", "ryo");
    put(t, "る", "ru");
    put(t, "れ", "re");
    put(t, "ろ", "ro");
    put(t, "ゎ", "xwa");
    put(t, "わ", "wa");
    put(t, "を", "wo");
    put(t, "ん", "nn");
    put(t, "ゔ", "vu");
    assert(table_of(t) =~= start + kana_table_5());
}

pub(crate) fn kana_entries() -> (t: Entries)
    ensures
        table_of(&t) == kana_table(),
{
    let mut t: Entries = Vec::new();
    assert(table_of(&t) =~= Seq::empty());
    kana_entries_0(&mut t);
    assert(table_of(&t) =~= kana_table_0());
    kana_entries_1(&mut t);
    kana_entries_2(&mut t);
    kana_entries_3(&mut t);
    kana_entries_4(&mut t);
    kana_entries_5(&mut t);
    t
}

proof fn lemma_single_table_sorted()
    ensures
        sorted_keys(single_table()),
{
    reveal_with_fuel(key_less, 5);
    reveal_strlit("a");
    reveal_strlit("e");
    reveal_strlit("i");
    reveal_strlit("n");
    reveal_strlit("o");
    reveal_strlit("u");
}

/// No two entries of [`single_table`] share a key.
pub proof fn lemma_single_table_distinct()
    ensures
        distinct_keys(single_table()),
{
    lemma_single_table_sorted();
    lemma_sorted_distinct(single_table());
}

proof fn lemma_multi_table_0_sorted()
    ensures
        sorted_keys(multi_table_0()),
{
    reveal_with_fuel(key_less, 5);
    reveal_strlit("ba");
    reveal_strlit("be");
    reveal_strlit("bi");
    reveal_strlit("bo");
    reveal_strlit("bu");
    reveal_strlit("bya");
    reveal_strlit("byo");
    reveal_strlit("byu");
    reveal_strlit("ca");
    reveal_strlit("ce");
    reveal_strlit("cha");
    reveal_strlit("chi");
    reveal_strlit("cho");
    reveal_strlit("chu");
    reveal_strlit("ci");
    reveal_strlit("co");
    reveal_strlit("cu");
    reveal_strlit("cya");
    reveal_strlit("cyo");
    reveal_strlit("cyu");
}

proof fn lemma_multi_table_1_sorted()
    ensures
        sorted_keys(multi_table_1()),
{
    reveal_with_fuel(key_less, 5);
    reveal_strlit("da");
    reveal_strlit("de");
    reveal_strlit("di");
    reveal_strlit("do");
    reveal_strlit("du");
    reveal_strlit("dya");
    reveal_strlit("dyo");
    reveal_strlit("dyu");
    reveal_strlit("fa");
    reveal_strlit("fe");
    reveal_strlit("fi");
    reveal_strlit("fo");
    reveal_strlit("fu");
    reveal_strlit("ga");
    reveal_strlit("ge");
    reveal_strlit("gi");
    reveal_strlit("go");
    reveal_strlit("gu");
    reveal_strlit("gya");
    reveal_strlit("gyo");
}

proof fn lemma_multi_table_2_sorted()
    ensures
        sorted_keys(multi_table_2()),
{
    reveal_with_fuel(key_less, 5);
    reveal_strlit("gyu");
    reveal_strlit("ha");
    reveal_strlit("he");
    reveal_strlit("hi");
    reveal_strlit("ho");
    reveal_strlit("hu");
    reveal_strlit("hya");
    reveal_strlit("hyo");
    reveal_strlit("hyu");
    reveal_strlit("ja");
    reveal_strlit("ji");
    reveal_strlit("jo");
    reveal_strlit("ju");
    reveal_strlit("jya");
    reveal_strlit("jyo");
    reveal_strlit("jyu");
    reveal_strlit("ka");
    reveal_strlit("ke");
    reveal_strlit("ki");
    reveal_strlit("ko");
}

proof fn lemma_multi_table_3_sorted()
    ensures
        sorted_keys(multi_table_3()),
{
    reveal_with_fuel(key_less, 5);
    reveal_strlit("ku");
    reveal_strlit("kya");
    reveal_strlit("kyo");
    reveal_strlit("kyu");
    reveal_strlit("la");
    reveal_strlit("le");
    reveal_strlit("li");
    reveal_strlit("lo");
    reveal_strlit("ltsu");
    reveal_strlit("ltu");
    reveal_strlit("lu");
    reveal_strlit("lwa");
    reveal_strlit("lya");
    reveal_strlit("lyo");
    reveal_strlit("lyu");
    reveal_strlit("ma");
    reveal_strlit("me");
    reveal_strlit("mi");
    reveal_strlit("mo");
    reveal_strlit("mu");
}

proof fn lemma_multi_table_4_sorted()
    ensures
        sorted_keys(multi_table_4()),
{
    reveal_with_fuel(key_less, 5);
    reveal_strlit("mya");
    reveal_strlit("myo");
    reveal_strlit("myu");
    reveal_strlit("na");
    reveal_strlit("ne");
    reveal_strlit("ni");
    reveal_strlit("nn");
    reveal_strlit("no");
    reveal_strlit("nu");
    reveal_strlit("nya");
    reveal_strlit("nyo");
    reveal_strlit("nyu");
    reveal_strlit("pa");
    reveal_strlit("pe");
    reveal_strlit("pi");
    reveal_strlit("po");
    reveal_strlit("pu");
    reveal_strlit("pya");
    reveal_strlit("pyo");
    reveal_strlit("pyu");
}

proof fn lemma_multi_table_5_sorted()
    ensures
        sorted_keys(multi_table_5()),
{
    reveal_with_fuel(key_less, 5);
    reveal_strlit("ra");
    reveal_strlit("re");
    reveal_strlit("ri");
    reveal_strlit("ro");
    reveal_strlit("ru");
    reveal_strlit("rya");
    reveal_strlit("ryo");
    reveal_strlit("ryu");
    reveal_strlit("sa");
    reveal_strlit("se");
    reveal_strlit("sha");
    reveal_strlit("shi");
    reveal_strlit("sho");
    reveal_strlit("shu");
    reveal_strlit("si");
    reveal_strlit("so");
    reveal_strlit("su");
    reveal_strlit("sya");
    reveal_strlit("syo");
    reveal_strlit("syu");
}

proof fn lemma_multi_table_6_sorted()
    ensures
        sorted_keys(multi_table_6()),
{
    reveal_with_fuel(key_less, 5);
    reveal_strlit("ta");
    reveal_strlit("te");
    reveal_strlit("ti");
    reveal_strlit("to");
    reveal_strlit("tsu");
    reveal_strlit("tu");
    reveal_strlit("tya");
    reveal_strlit("tyo");
    reveal_strlit("tyu");
    reveal_strlit("vu");
    reveal_strlit("wa");
    reveal_strlit("we");
    reveal_strlit("wi");
    reveal_strlit("wo");
    reveal_strlit("xa");
    reveal_strlit("xe");
    reveal_strlit("xi");
    reveal_strlit("xn");
    reveal_strlit("xo");
    reveal_strlit("xtsu");
}

proof fn lemma_multi_table_7_sorted()
    ensures
        sorted_keys(multi_table_7()),
{
    reveal_with_fuel(key_less, 5);
    reveal_strlit("xtu");
    reveal_strlit("xu");
    reveal_strlit("xwa");
    reveal_strlit("xya");
    reveal_strlit("xyo");
    reveal_strlit("xyu");
    reveal_strlit("ya");
    reveal_strlit("ye");
    reveal_strlit("yo");
    reveal_strlit("yu");
    reveal_strlit("za");
    reveal_strlit("ze");
    reveal_strlit("zi");
    reveal_strlit("zo");
    reveal_strlit("zu");
    reveal_strlit("zya");
    reveal_strlit("zyo");
    reveal_strlit("zyu");
}

/// No two entries of [`multi_table`] share a key.
pub proof fn lemma_multi_table_distinct()
    ensures
        distinct_keys(multi_table()),
{
    reveal_with_fuel(key_less, 5);
    lemma_multi_table_0_sorted();
    lemma_multi_table_1_sorted();
    lemma_multi_table_2_sorted();
    lemma_multi_table_3_sorted();
    lemma_multi_table_4_sorted();
    lemma_multi_table_5_sorted();
    lemma_multi_table_6_sorted();
    lemma_multi_table_7_sorted();
    reveal_strlit("cyu");
    reveal_strlit("da");
    assert((multi_table_0())[(multi_table_0()).len() - 1] == multi_table_0()[19]);
    lemma_sorted_join(multi_table_0(), multi_table_1());
    reveal_strlit("gyo");
    reveal_strlit("gyu");
    assert((multi_table_0() + multi_table_1())[(multi_table_0() + multi_table_1()).len() - 1] == multi_table_1()[19]);
    lemma_sorted_join(multi_table_0() + multi_table_1(), multi_table_2());
    reveal_strlit("ko");
    reveal_strlit("ku");
    assert((multi_table_0() + multi_table_1() + multi_table_2())[(multi_table_0() + multi_table_1() + multi_table_2()).len() - 1] == multi_table_2()[19]);
    lemma_sorted_join(multi_table_0() + multi_table_1() + multi_table_2(), multi_table_3());
    reveal_strlit("mu");
    reveal_strlit("mya");
    assert((multi_table_0() + multi_table_1() + multi_table_2() + multi_table_3())[(multi_table_0() + multi_table_1() + multi_table_2() + multi_table_3()).len() - 1] == multi_table_3()[19]);
    lemma_sorted_join(multi_table_0() + multi_table_1() + multi_table_2() + multi_table_3(), multi_table_4());
    reveal_strlit("pyu");
    reveal_strlit("ra");
    assert((multi_table_0() + multi_table_1() + multi_table_2() + multi_table_3() + multi_table_4())[(multi_table_0() + multi_table_1() + multi_table_2() + multi_table_3() + multi_table_4()).len() - 1] == multi_table_4()[19]);
    lemma_sorted_join(multi_table_0() + multi_table_1() + multi_table_2() + multi_table_3() + multi_table_4(), multi_table_5());
    reveal_strlit("syu");
    reveal_strlit("ta");
    assert((multi_table_0() + multi_table_1() + multi_table_2() + multi_table_3() + multi_table_4() + multi_table_5())[(multi_table_0() + multi_table_1() + multi_table_2() + multi_table_3() + multi_table_4() + multi_table_5()).len() - 1] == multi_table_5()[19]);
    lemma_sorted_join(multi_table_0() + multi_table_1() + multi_table_2() + multi_table_3() + multi_table_4() + multi_table_5(), multi_table_6());
    reveal_strlit("xtsu");
    reveal_strlit("xtu");
    assert((multi_table_0() + multi_table_1() + multi_table_2() + multi_table_3() + multi_table_4() + multi_table_5() + multi_table_6())[(multi_table_0() + multi_table_1() + multi_table_2() + multi_table_3() + multi_table_4() + multi_table_5() + multi_table_6()).len() - 1] == multi_table_6()[19]);
    lemma_sorted_join(multi_table_0() + multi_table_1() + multi_table_2() + multi_table_3() + multi_table_4() + multi_table_5() + multi_table_6(), multi_table_7());
    lemma_sorted_distinct(multi_table());
}

proof fn lemma_kana_table_0_sorted()
    ensures
        sorted_keys(kana_table_0()),
{
    reveal_with_fuel(key_less, 5);
    reveal_strlit("ぁ");
    reveal_strlit("あ");
    reveal_strlit("ぃ");
    reveal_strlit("い");
    reveal_strlit("ぅ");
    reveal_strlit("う");
    reveal_strlit("ぇ");
    reveal_strlit("え");
    reveal_strlit("ぉ");
    reveal_strlit("お");
    reveal_strlit("か");
    reveal_strlit("が");
    reveal_strlit("き");
    reveal_strlit("きゃ");
    reveal_strlit("きゅ");
    reveal_strlit("きょ");
    reveal_strlit("ぎ");
    reveal_strlit("ぎゃ");
    reveal_strlit("ぎゅ");
    reveal_strlit("ぎょ");
}

proof fn lemma_kana_table_1_sorted()
    ensures
        sorted_keys(kana_table_1()),
{
    reveal_with_fuel(key_less, 5);
    reveal_strlit("く");
    reveal_strlit("ぐ");
    reveal_strlit("け");
    reveal_strlit("げ");
    reveal_strlit("こ");
    reveal_strlit("ご");
    reveal_strlit("さ");
    reveal_strlit("ざ");
    reveal_strlit("し");
    reveal_strlit("しゃ");
    reveal_strlit("しゅ");
    reveal_strlit("しょ");
    reveal_strlit("じ");
    reveal_strlit("じゃ");
    reveal_strlit("じゅ");
    reveal_strlit("じょ");
    reveal_strlit("す");
    reveal_strlit("ず");
    reveal_strlit("せ");
    reveal_strlit("ぜ");
}

proof fn lemma_kana_table_2_sorted()
    ensures
        sorted_keys(kana_table_2()),
{
    reveal_with_fuel(key_less, 5);
    reveal_strlit("そ");
    reveal_strlit("ぞ");
    reveal_strlit("た");
    reveal_strlit("だ");
    reveal_strlit("ち");
    reveal_strlit("ちゃ");
    reveal_strlit("ちゅ");
    reveal_strlit("ちょ");
    reveal_strlit("ぢ");
    reveal_strlit("ぢゃ");
    reveal_strlit("ぢゅ");
    reveal_strlit("ぢょ");
    reveal_strlit("っ");
    reveal_strlit("つ");
    reveal_strlit("づ");
    reveal_strlit("て");
    reveal_strlit("で");
    reveal_strlit("と");
    reveal_strlit("ど");
    reveal_strlit("な");
}

proof fn lemma_kana_table_3_sorted()
    ensures
        sorted_keys(kana_table_3()),
{
    reveal_with_fuel(key_less, 5);
    reveal_strlit("に");
    reveal_strlit("にゃ");
    reveal_strlit("にゅ");
    reveal_strlit("にょ");
    reveal_strlit("ぬ");
    reveal_strlit("ね");
    reveal_strlit("の");
    reveal_strlit("は");
    reveal_strlit("ば");
    reveal_strlit("ぱ");
    reveal_strlit("ひ");
    reveal_strlit("ひゃ");
    reveal_strlit("ひゅ");
    reveal_strlit("ひょ");
    reveal_strlit("び");
    reveal_strlit("びゃ");
    reveal_strlit("びゅ");
    reveal_strlit("びょ");
    reveal_strlit("ぴ");
    reveal_strlit("ぴゃ");
}

proof fn lemma_kana_table_4_sorted()
    ensures
        sorted_keys(kana_table_4()),
{
    reveal_with_fuel(key_less, 5);
    reveal_strlit("ぴゅ");
    reveal_strlit("ぴょ");
    reveal_strlit("ふ");
    reveal_strlit("ぶ");
    reveal_strlit("ぷ");
    reveal_strlit("へ");
    reveal_strlit("べ");
    reveal_strlit("ぺ");
    reveal_strlit("ほ");
    reveal_strlit("ぼ");
    reveal_strlit("ぽ");
    reveal_strlit("ま");
    reveal_strlit("み");
    reveal_strlit("みゃ");
    reveal_strlit("みゅ");
    reveal_strlit("みょ");
    reveal_strlit("む");
    reveal_strlit("め");
    reveal_strlit("も");
    reveal_strlit("ゃ");
}

proof fn lemma_kana_table_5_sorted()
    ensures
        sorted_keys(kana_table_5()),
{
    reveal_with_fuel(key_less, 5);
    reveal_strlit("や");
    reveal_strlit("ゅ");
    reveal_strlit("ゆ");
    reveal_strlit("ょ");
    reveal_strlit("よ");
    reveal_strlit("ら");
    reveal_strlit("り");
    reveal_strlit("りゃ");
    reveal_strlit("りゅ");
    reveal_strlit("りょ");
    reveal_strlit("る");
    reveal_strlit("れ");
    reveal_strlit("ろ");
    reveal_strlit("ゎ");
    reveal_strlit("わ");
    reveal_strlit("を");
    reveal_strlit("ん");
    reveal_strlit("ゔ");
}

/// No two entries of [`kana_table`] share a key.
pub proof fn lemma_kana_table_distinct()
    ensures
        distinct_keys(kana_table()),
{
    reveal_with_fuel(key_less, 5);
    lemma_kana_table_0_sorted();
    lemma_kana_table_1_sorted();
    lemma_kana_table_2_sorted();
    lemma_kana_table_3_sorted();
    lemma_kana_table_4_sorted();
    lemma_kana_table_5_sorted();
    reveal_strlit("ぎょ");
    reveal_strlit("く");
    assert((kana_table_0())[(kana_table_0()).len() - 1] == kana_table_0()[19]);
    lemma_sorted_join(kana_table_0(), kana_table_1());
    reveal_strlit("ぜ");
    reveal_strlit("そ");
    assert((kana_table_0() + kana_table_1())[(kana_table_0() + kana_table_1()).len() - 1] == kana_table_1()[19]);
    lemma_sorted_join(kana_table_0() + kana_table_1(), kana_table_2());
    reveal_strlit("な");
    reveal_strlit("に");
    assert((kana_table_0() + kana_table_1() + kana_table_2())[(kana_table_0() + kana_table_1() + kana_table_2()).len() - 1] == kana_table_2()[19]);
    lemma_sorted_join(kana_table_0() + kana_table_1() + kana_table_2(), kana_table_3());
    reveal_strlit("ぴゃ");
    reveal_strlit("ぴゅ");
    assert((kana_table_0() + kana_table_1() + kana_table_2() + kana_table_3())[(kana_table_0() + kana_table_1() + kana_table_2() + kana_table_3()).len() - 1] == kana_table_3()[19]);
    lemma_sorted_join(kana_table_0() + kana_table_1() + kana_table_2() + kana_table_3(), kana_table_4());
    reveal_strlit("ゃ");
    reveal_strlit("や");
    assert((kana_table_0() + kana_table_1() + kana_table_2() + kana_table_3() + kana_table_4())[(kana_table_0() + kana_table_1() + kana_table_2() + kana_table_3() + kana_table_4()).len() - 1] == kana_table_4()[19]);
    lemma_sorted_join(kana_table_0() + kana_table_1() + kana_table_2() + kana_table_3() + kana_table_4(), kana_table_5());
    lemma_sorted_distinct(kana_table());
}

pub(crate) fn consonant_chars() -> (v: Vec<char>)
    ensures
        v@ == consonant_set(),
{
    vec!['k', 's', 't', 'n', 'h', 'm', 'y', 'r', 'w', 'z', 'j', 'p', 'b', 'c', 'g', 'f', 'd', 'v']
}

pub(crate) fn second_glyph_chars() -> (v: Vec<char>)
    ensures
        v@ == second_glyph_set(),
{
    vec!['ゃ', 'ゅ', 'ょ']
}

} // verus!
