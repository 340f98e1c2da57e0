use athena_voice::skills::duration::parse_fr_duration;

#[test]
fn parses_digit_amounts() {
    assert_eq!(parse_fr_duration("5 minutes"), Some(300));
    assert_eq!(parse_fr_duration("2 secondes"), Some(2));
    assert_eq!(parse_fr_duration("1 heure"), Some(3600));
}

#[test]
fn parses_word_amounts() {
    assert_eq!(parse_fr_duration("deux secondes"), Some(2));
    assert_eq!(parse_fr_duration("une heure"), Some(3600));
    assert_eq!(parse_fr_duration("un minute"), Some(60));
    assert_eq!(parse_fr_duration("trois minutes"), Some(180));
    assert_eq!(parse_fr_duration("quatre secondes"), Some(4));
    assert_eq!(parse_fr_duration("cinq secondes"), Some(5));
    assert_eq!(parse_fr_duration("six secondes"), Some(6));
    assert_eq!(parse_fr_duration("sept secondes"), Some(7));
    assert_eq!(parse_fr_duration("huit secondes"), Some(8));
    assert_eq!(parse_fr_duration("neuf secondes"), Some(9));
    assert_eq!(parse_fr_duration("dix secondes"), Some(10));
}

#[test]
fn parses_all_units() {
    assert_eq!(parse_fr_duration("deux secondes"), Some(2));
    assert_eq!(parse_fr_duration("deux minutes"), Some(120));
    assert_eq!(parse_fr_duration("deux heures"), Some(7200));
}

#[test]
fn rejects_unknown_words() {
    assert_eq!(parse_fr_duration("beaucoup de secondes"), None);
    assert_eq!(parse_fr_duration("deux jours"), None);
    assert_eq!(parse_fr_duration("deux"), None);
    assert_eq!(parse_fr_duration(""), None);
}

#[test]
fn amounts_and_units_ignore_letter_case_and_spacing() {
    assert_eq!(parse_fr_duration("  Deux   MINUTES "), Some(120));
    assert_eq!(parse_fr_duration("+7 secondes"), Some(7));
}
