use josa::Josa::{EulReul, Eu, EunNeun, GwaWa, IGa, I};
use josa::{select, Error, Josa, JosaExt};

const ALL: [Josa; 6] = [EunNeun, IGa, EulReul, GwaWa, I, Eu];

fn pushed(noun: &str, josa: Josa) -> String {
    let mut s = noun.to_owned();
    s.push_josa(josa);
    s
}

#[test]
fn basic() {
    let mut user = "유진".to_owned();
    let mut mackerel = "고등어".to_owned();

    user.push_josa(EunNeun);
    mackerel.push_josa(IGa);

    let sentence = format!("{} {} 먹고싶다", user, mackerel);

    assert_eq!(sentence, "유진은 고등어가 먹고싶다");
}

#[test]
fn select_after_open_syllable() {
    assert_eq!(select("나", EunNeun), Ok("는"));
    assert_eq!(select("나", IGa), Ok("가"));
    assert_eq!(select("나", EulReul), Ok("를"));
    assert_eq!(select("나", GwaWa), Ok("와"));
    assert_eq!(select("나", I), Ok(""));
    assert_eq!(select("나", Eu), Ok(""));
}

#[test]
fn select_after_rieul_syllable() {
    assert_eq!(select("달", EunNeun), Ok("은"));
    assert_eq!(select("달", IGa), Ok("이"));
    assert_eq!(select("달", EulReul), Ok("을"));
    assert_eq!(select("달", GwaWa), Ok("과"));
    assert_eq!(select("달", I), Ok("이"));
    assert_eq!(select("달", Eu), Ok(""));
}

#[test]
fn select_after_closed_syllable() {
    assert_eq!(select("손", EunNeun), Ok("은"));
    assert_eq!(select("손", IGa), Ok("이"));
    assert_eq!(select("손", EulReul), Ok("을"));
    assert_eq!(select("손", GwaWa), Ok("과"));
    assert_eq!(select("손", I), Ok("이"));
    assert_eq!(select("손", Eu), Ok("으"));
}

#[test]
fn select_on_each_slot_of_a_block() {
    // The 28 syllables from 가 on share leading consonant and vowel and run
    // through the trailing consonants in order.
    for block in [0u32, 1, 250, 398] {
        for slot in 0u32..28 {
            let c = char::from_u32(0xAC00 + 28 * block + slot).unwrap();
            let noun = format!("x{}", c);
            let (eun_neun, i, eu) = match slot {
                0 => ("는", "", ""),
                8 => ("은", "이", ""),
                _ => ("은", "이", "으"),
            };
            assert_eq!(select(&noun, EunNeun), Ok(eun_neun));
            assert_eq!(select(&noun, I), Ok(i));
            assert_eq!(select(&noun, Eu), Ok(eu));
            assert_eq!(EunNeun.select(c), Ok(eun_neun));
        }
    }
}

#[test]
fn select_at_the_ends_of_the_block() {
    assert_eq!(select("가", IGa), Ok("가"));
    assert_eq!(select("힣", IGa), Ok("이"));
    // The characters next to the block on either side.
    assert_eq!(select("\u{ABFF}", IGa), Err(Error::ParseSyllable('\u{ABFF}')));
    assert_eq!(select("\u{D7A4}", IGa), Err(Error::ParseSyllable('\u{D7A4}')));
}

#[test]
fn select_on_empty_string() {
    for josa in ALL {
        assert_eq!(select("", josa), Err(Error::EmptyStr));
    }
}

#[test]
fn select_after_other_characters() {
    for josa in ALL {
        assert_eq!(select("curry", josa), Err(Error::ParseSyllable('y')));
        assert_eq!(select("고양이>", josa), Err(Error::ParseSyllable('>')));
        assert_eq!(select("京", josa), Err(Error::ParseSyllable('京')));
        // A lone jamo is no composed syllable.
        assert_eq!(select("ㄹ", josa), Err(Error::ParseSyllable('ㄹ')));
        assert_eq!(select("나 ", josa), Err(Error::ParseSyllable(' ')));
    }
}

#[test]
fn select_reads_only_the_last_character() {
    assert_eq!(select("abc나", EulReul), Ok("를"));
    assert_eq!(select("손나", EulReul), Ok("를"));
    assert_eq!(select("나손", EulReul), Ok("을"));
}

#[test]
fn select_cat() {
    assert_eq!(select("고양이", IGa), Ok("가"));
}

#[test]
fn select_hunter() {
    assert_eq!(select("사냥꾼", EunNeun), Ok("은"));
}

#[test]
fn select_for_markup() {
    let pick = "곡괭이";
    assert_eq!(
        format!("<span>{}</span>{}로 채취하세요.", pick, select(pick, Eu).unwrap()),
        "<span>곡괭이</span>로 채취하세요."
    );
    let hand = "손";
    assert_eq!(
        format!("<span>{}</span>{}로 채취하세요.", hand, select(hand, Eu).unwrap()),
        "<span>손</span>으로 채취하세요."
    );
}

#[test]
fn rieul_differs_from_closed_only_for_eu() {
    assert_eq!(select("물", I), Ok("이"));
    assert_eq!(select("물", Eu), Ok(""));
    assert_eq!(select("묵", Eu), Ok("으"));
    for josa in [EunNeun, IGa, EulReul, GwaWa, I] {
        assert_eq!(josa.rieul(), josa.closed());
    }
    assert_ne!(Eu.rieul(), Eu.closed());
}

#[test]
fn table_rows() {
    let open: Vec<&str> = ALL.iter().map(|j| j.open()).collect();
    let rieul: Vec<&str> = ALL.iter().map(|j| j.rieul()).collect();
    let closed: Vec<&str> = ALL.iter().map(|j| j.closed()).collect();
    let both: Vec<&str> = ALL.iter().map(|j| j.both()).collect();
    assert_eq!(open, vec!["는", "가", "를", "와", "", ""]);
    assert_eq!(rieul, vec!["은", "이", "을", "과", "이", ""]);
    assert_eq!(closed, vec!["은", "이", "을", "과", "이", "으"]);
    assert_eq!(both, vec!["은(는)", "이(가)", "을(를)", "와(과)", "(이)", "(으)"]);
}

#[test]
fn select_on_a_character() {
    assert_eq!(IGa.select('이'), Ok("가"));
    assert_eq!(IGa.select('꾼'), Ok("이"));
    assert_eq!(I.select('말'), Ok("이"));
    assert_eq!(Eu.select('말'), Ok(""));
    assert_eq!(Eu.select('닭'), Ok("으"));
    assert_eq!(IGa.select('か'), Err(Error::ParseSyllable('か')));
}

#[test]
fn push_josa_me() {
    assert_eq!(pushed("나", EulReul), "나를");
}

#[test]
fn push_josa_you() {
    assert_eq!(pushed("님", EunNeun), "님은");
}

#[test]
fn push_josa_on_empty_string() {
    assert_eq!(pushed("", IGa), "");
    for josa in ALL {
        assert_eq!(pushed("", josa), "");
    }
}

#[test]
fn push_josa_after_other_characters() {
    assert_eq!(pushed("curry", IGa), "curry이(가)");
    assert_eq!(pushed("pioneer", Eu), "pioneer(으)");
    assert_eq!(pushed("curry", EunNeun), "curry은(는)");
    assert_eq!(pushed("curry", EulReul), "curry을(를)");
    assert_eq!(pushed("curry", GwaWa), "curry와(과)");
    assert_eq!(pushed("curry", I), "curry(이)");
}

#[test]
fn push_josa_twice_follows_the_new_end() {
    // 를 ends with ㄹ, so the second josa is the one after a consonant.
    assert_eq!(pushed(&pushed("나", EulReul), EulReul), "나를을");
    // 은 is closed although 고등어 is open.
    assert_eq!(pushed(&pushed("유진", EunNeun), IGa), "유진은이");
    assert_eq!(pushed(&pushed("고등어", IGa), IGa), "고등어가가");
    // Both forms end with a bracket.
    assert_eq!(pushed(&pushed("curry", IGa), IGa), "curry이(가)이(가)");
}

#[test]
fn push_josa_twice_may_add_once() {
    // 이 ends with a vowel, after which this josa is not written.
    assert_eq!(pushed(&pushed("김", I), I), "김이");
    assert_eq!(pushed(&pushed("손", Eu), Eu), "손으");
    assert_eq!(pushed(&pushed("나", I), I), "나");
}

#[test]
fn plus_appends() {
    let user = "유진".to_owned();
    let mackerel = "고등어".to_owned();
    assert_eq!(
        format!("{} {} 먹고싶다", user + EunNeun, mackerel + IGa),
        "유진은 고등어가 먹고싶다"
    );
    assert_eq!("".to_owned() + IGa, "");
    assert_eq!("curry".to_owned() + IGa, "curry이(가)");
}

#[test]
fn plus_assign_appends() {
    let mut s = "물".to_owned();
    s += Eu;
    assert_eq!(s, "물");
    s += GwaWa;
    assert_eq!(s, "물과");
    let mut t = "tea".to_owned();
    t += GwaWa;
    assert_eq!(t, "tea와(과)");
    let mut e = String::new();
    e += Eu;
    assert_eq!(e, "");
}

#[test]
fn error_text() {
    assert_eq!(Error::EmptyStr.to_string(), "Empty string given to josa selector");
    assert_eq!(Error::ParseSyllable('y').to_string(), "y is not a Hangul Syllable");
    assert_eq!(
        select("京", IGa).unwrap_err().to_string(),
        "京 is not a Hangul Syllable"
    );
}

#[test]
fn error_from_the_decomposition() {
    let e = hangul::ParseSyllableError('Ж');
    assert_eq!(Error::from(e), Error::ParseSyllable('Ж'));
}
