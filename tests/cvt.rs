use romaji_cvt::{convert, RomajiCvt};

#[test]
fn convert_sokuonn_and_the_sound_of_the_kana_n() {
    let cvt = RomajiCvt::new();
    assert_eq!(Some(("ん".to_string(), 2)), cvt.convert_sokuonn_and_the_sound_of_the_kana_n("nnna"));
    assert_eq!(Some(("っっ".to_string(), 2)), cvt.convert_sokuonn_and_the_sound_of_the_kana_n("kkkoro"));
}

#[test]
fn from_romaji() {
    let cvt = RomajiCvt::new();
    assert_eq!(Some("ありきたり".to_string()), cvt.from_romaji("arikitari".to_string()));
    assert_eq!(Some("んなばかな".to_string()), cvt.from_romaji("nnnabakana".to_string()));
    assert_eq!(Some("なんてこったい".to_string()), cvt.from_romaji("nanntekottai".to_string()));
    assert_eq!(Some("しったこっちゃない".to_string()), cvt.from_romaji("sittakottyanai".to_string()));
    assert_eq!(Some("むっ".to_string()), cvt.from_romaji("muxtu".to_string()));
    assert_eq!(Some("くっっころ".to_string()), cvt.from_romaji("kukkkoro".to_string()));
}

#[test]
fn to_romaji() {
    let cvt = RomajiCvt::new();
    assert_eq!(Some("arikitari".to_string()), cvt.to_romaji("ありきたり".to_string()));
    assert_eq!(Some("nnnabakana".to_string()), cvt.to_romaji("んなばかな".to_string()));
    assert_eq!(Some("nanntekottai".to_string()), cvt.to_romaji("なんてこったい".to_string()));
    assert_eq!(Some("sittakottyanai".to_string()), cvt.to_romaji("しったこっちゃない".to_string()));
    assert_eq!(Some("muxtu".to_string()), cvt.to_romaji("むっ".to_string()));
    assert_eq!(Some("kukkkoro".to_string()), cvt.to_romaji("くっっころ".to_string()));
}

#[test]
fn lead_marks_edges() {
    let cvt = RomajiCvt::new();
    assert_eq!(Some(("んん".to_string(), 4)), cvt.convert_sokuonn_and_the_sound_of_the_kana_n("nnnna"));
    assert_eq!(Some(("".to_string(), 0)), cvt.convert_sokuonn_and_the_sound_of_the_kana_n("na"));
    assert_eq!(Some(("".to_string(), 0)), cvt.convert_sokuonn_and_the_sound_of_the_kana_n("ka"));
    assert_eq!(None, cvt.convert_sokuonn_and_the_sound_of_the_kana_n("aa"));
    assert_eq!(None, cvt.convert_sokuonn_and_the_sound_of_the_kana_n(""));
}

#[test]
fn empty_texts() {
    let cvt = RomajiCvt::new();
    assert_eq!(Some(String::new()), cvt.from_romaji(String::new()));
    assert_eq!(Some(String::new()), cvt.to_romaji(String::new()));
}

#[test]
fn trailing_moraic_nasals() {
    let cvt = RomajiCvt::new();
    assert_eq!(Some("かん".to_string()), cvt.from_romaji("kan".to_string()));
    assert_eq!(Some("かん".to_string()), cvt.from_romaji("kann".to_string()));
    assert_eq!(Some("かんん".to_string()), cvt.from_romaji("kannn".to_string()));
    assert_eq!(Some("かんん".to_string()), cvt.from_romaji("kannnn".to_string()));
}

#[test]
fn gemination_runs() {
    let cvt = RomajiCvt::new();
    assert_eq!(Some("かっか".to_string()), cvt.from_romaji("kakka".to_string()));
    assert_eq!(Some("っっっっぱ".to_string()), cvt.from_romaji("pppppa".to_string()));
    assert_eq!(Some("kukkkoro".to_string()), cvt.to_romaji("くっっころ".to_string()));
}

#[test]
fn digraph_syllables() {
    let cvt = RomajiCvt::new();
    assert_eq!(Some("きょうと".to_string()), cvt.from_romaji("kyouto".to_string()));
    assert_eq!(Some("kyouto".to_string()), cvt.to_romaji("きょうと".to_string()));
    assert_eq!(Some("しゃしん".to_string()), cvt.from_romaji("shashin".to_string()));
}

#[test]
fn unknown_characters_fail() {
    let cvt = RomajiCvt::new();
    assert_eq!(None, cvt.from_romaji("ka1".to_string()));
    assert_eq!(None, cvt.from_romaji("ka-ki".to_string()));
    assert_eq!(None, cvt.from_romaji("kqa".to_string()));
    assert_eq!(None, cvt.from_romaji("qa".to_string()));
    assert_eq!(None, cvt.to_romaji("か1".to_string()));
    assert_eq!(None, cvt.to_romaji("カ".to_string()));
}

#[test]
fn decomposed_kana_compose() {
    let cvt = RomajiCvt::new();
    assert_eq!(Some("de".to_string()), cvt.to_romaji("で".to_string()));
    assert_eq!(Some("de".to_string()), cvt.to_romaji("て\u{3099}".to_string()));
    assert_eq!(
        cvt.to_romaji("なんでこった".to_string()),
        cvt.to_romaji("なんて\u{3099}こった".to_string())
    );
}

#[test]
fn round_trips_on_examples() {
    let cvt = RomajiCvt::new();
    for kana in ["ありきたり", "んなばかな", "しったこっちゃない", "むっ", "くっっころ", "きょうと"] {
        let romaji = cvt.to_romaji(kana.to_string()).unwrap();
        assert_eq!(Some(kana.to_string()), cvt.from_romaji(romaji));
    }
    for romaji in ["arikitari", "nnnabakana", "nanntekottai", "sittakottyanai", "muxtu", "kukkkoro"] {
        let kana = cvt.from_romaji(romaji.to_string()).unwrap();
        assert_eq!(Some(romaji.to_string()), cvt.to_romaji(kana));
    }
}

#[test]
fn convert_picks_direction() {
    let cvt = RomajiCvt::new();
    assert_eq!(Some("かな".to_string()), convert(&cvt, "kana".to_string()));
    assert_eq!(Some("kana".to_string()), convert(&cvt, "かな".to_string()));
    assert_eq!(None, convert(&cvt, "ka na".to_string()));
}

#[test]
fn small_tsu_before_the_last_kana() {
    let cvt = RomajiCvt::new();
    assert_eq!(Some("かっこ".to_string()), cvt.from_romaji("kakko".to_string()));
    assert_eq!(Some("kakko".to_string()), cvt.to_romaji("かっこ".to_string()));
    assert_eq!(Some("katta".to_string()), cvt.to_romaji("かった".to_string()));
    assert_eq!(Some("かった".to_string()), cvt.from_romaji("katta".to_string()));
    assert_eq!(Some("kakkko".to_string()), cvt.to_romaji("かっっこ".to_string()));
    assert_eq!(Some("si".to_string()), cvt.to_romaji("し".to_string()));
    assert_eq!(Some("し".to_string()), cvt.from_romaji("shi".to_string()));
}

#[test]
fn moraic_nasal_before_a_consonant() {
    let cvt = RomajiCvt::new();
    assert_eq!(Some("かんぱい".to_string()), cvt.from_romaji("kanpai".to_string()));
    assert_eq!(Some("んんぱ".to_string()), cvt.from_romaji("nnnpa".to_string()));
    assert_eq!(Some("んきゃ".to_string()), cvt.from_romaji("nkya".to_string()));
    assert_eq!(Some(("ん".to_string(), 1)), cvt.convert_sokuonn_and_the_sound_of_the_kana_n("npa"));
    assert_eq!(Some(("ん".to_string(), 2)), cvt.convert_sokuonn_and_the_sound_of_the_kana_n("nnnpa"));
    assert_eq!(Some(("ん".to_string(), 2)), cvt.convert_sokuonn_and_the_sound_of_the_kana_n("nnnya"));
    assert_eq!(Some("んにゃ".to_string()), cvt.from_romaji("nnnya".to_string()));
    assert_eq!(Some("nnnya".to_string()), cvt.to_romaji("んにゃ".to_string()));
    assert_eq!(Some("んにゅう".to_string()), cvt.from_romaji("nnnyuu".to_string()));
}

#[test]
fn apostrophe_separates() {
    let cvt = RomajiCvt::new();
    assert_eq!(Some("かんい".to_string()), cvt.from_romaji("kan'i".to_string()));
    assert_eq!(Some("かにゃ".to_string()), cvt.from_romaji("kanya".to_string()));
    assert_eq!(Some("かんや".to_string()), cvt.from_romaji("kan'ya".to_string()));
    assert_eq!(Some(String::new()), cvt.from_romaji("'".to_string()));
}

#[test]
fn composed_kana_to_romaji() {
    let cvt = RomajiCvt::new();
    assert_eq!(Some("de".to_string()), cvt.romaji_of_composed("で"));
    assert_eq!(None, cvt.romaji_of_composed("て\u{3099}"));
    assert_eq!(Some("kakko".to_string()), cvt.romaji_of_composed("かっこ"));
}
