use aspeak::parse::{is_float_text, parse_pitch, parse_rate, ParseError, Prosody};

#[test]
fn float_texts_are_what_the_standard_parser_accepts() {
    let samples = [
        "", "0", "1", "-1", "+1", "1.", ".5", ".", "+.", "-.5", "1.5", "01.50", "1e5", "1E5", "1e+5",
        "1e-5", "1e", "1e+", "e5", ".e5", "1.e5", ".5e5", "1.5e", "1..5", "1.5.5", "--1", "+-1",
        "1-", "1e5.5", "1e5e5", "inf", "INF", "Inf", "-inf", "+infinity", "infinit", "Infinity",
        "infinityy", "nan", "NaN", "-nan", "nanx", "in", "1f", "1 ", " 1", "1_000", "0x10", "１",
        "1,5", "٣", "1e٣", "+", "-", "e", "E1", "1E+05", "00", "1e0000000000000000000005",
        "123456789012345678901234567890123456789012345678901234567890", "1e99999", "infx", " nan",
    ];
    for sample in samples {
        assert_eq!(
            is_float_text(sample),
            sample.parse::<f32>().is_ok(),
            "{:?} is judged wrongly",
            sample
        );
    }
}

#[test]
fn float_texts_of_up_to_four_characters_agree_with_the_standard_parser() {
    let alphabet = ['0', '7', '.', 'e', 'E', '+', '-', 'n', 'a', 'i', 'f', 'x'];
    let mut texts = vec![String::new()];
    for _ in 0..4 {
        let mut next = Vec::new();
        for text in &texts {
            for c in alphabet {
                let mut longer = text.clone();
                longer.push(c);
                next.push(longer);
            }
        }
        for text in &next {
            assert_eq!(is_float_text(text), text.parse::<f32>().is_ok(), "{:?}", text);
        }
        texts = next;
    }
}

#[test]
fn pitch_with_unit_or_word_stands_as_it_is() {
    for pitch in
        ["300Hz", "-20Hz", "+2.5Hz", "20%", "-10%", "+2st", "-0.5st", "default", "x-low", "low",
        "medium", "high", "x-high"]
    {
        assert_eq!(parse_pitch(pitch).unwrap(), Prosody::Verbatim(pitch));
    }
}

#[test]
fn bare_number_is_a_fraction_pitch() {
    for pitch in ["0.5", "-1", "2", "+.25", "1e-1", "nan"] {
        assert_eq!(parse_pitch(pitch).unwrap(), Prosody::Fraction(pitch));
    }
}

#[test]
fn other_texts_are_no_pitch() {
    for pitch in ["", "2st", "Hz", "%", "st", "+st", "fast", "x-slow", "20 %", "2f", "loud", "+2ST"] {
        let error = parse_pitch(pitch).unwrap_err();
        assert_eq!(
            error.reason,
            format!(
                "Invalid pitch: {}. Please read the documentation for possible values of pitch.",
                pitch
            )
        );
    }
}

#[test]
fn rate_with_percent_or_word_stands_as_it_is() {
    for rate in ["20%", "-20%", "+.5%", "default", "x-slow", "slow", "medium", "fast", "x-fast"] {
        assert_eq!(parse_rate(rate).unwrap(), Prosody::Verbatim(rate));
    }
}

#[test]
fn rate_with_f_stands_without_the_f() {
    assert_eq!(parse_rate("2f").unwrap(), Prosody::Verbatim("2"));
    assert_eq!(parse_rate("0.5f").unwrap(), Prosody::Verbatim("0.5"));
    assert_eq!(parse_rate("-1e2f").unwrap(), Prosody::Verbatim("-1e2"));
    assert_eq!(parse_rate("inf").unwrap(), Prosody::Fraction("inf"));
    assert_eq!(parse_rate("nanf").unwrap(), Prosody::Verbatim("nan"));
}

#[test]
fn bare_number_is_a_fraction_rate() {
    for rate in ["0.5", "-1", "2", "nan"] {
        assert_eq!(parse_rate(rate).unwrap(), Prosody::Fraction(rate));
    }
}

#[test]
fn other_texts_are_no_rate() {
    for rate in ["", "f", "%", "300Hz", "+2st", "low", "high", "x-low", "2ff", "quick"] {
        let error = parse_rate(rate).unwrap_err();
        assert_eq!(
            error.reason,
            format!(
                "Invalid rate: {}. Please read the documentation for possible values of rate.",
                rate
            )
        );
    }
}

#[test]
fn parse_error_message() {
    let error = ParseError::new("no good".to_string());
    assert_eq!(error.reason, "no good");
    assert_eq!(error.message(), "parse error: no good");
}
