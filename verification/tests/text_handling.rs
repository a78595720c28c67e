use mandingo_forge::text::{
    blank, chars_of, decimal_string, parse_u16_chars, replace_text, split_words, trim_chars,
    white_space,
};

#[test]
fn white_space_matches_std_for_every_char() {
    for u in 0u32..=0x10FFFF {
        if let Some(c) = char::from_u32(u) {
            assert_eq!(white_space(c), c.is_whitespace(), "char {:x}", u);
        }
    }
}

#[test]
fn trim_matches_std() {
    let samples = [
        "", " ", "\t\n", "abc", "  abc  ", "\u{3000}x y\u{85}", "a\u{200B}", " \u{A0}8188 ",
        "\u{2028}\u{2029}", "x\ty",
    ];
    for s in samples {
        let t: String = trim_chars(&chars_of(s)).into_iter().collect();
        assert_eq!(t, s.trim());
        assert_eq!(blank(s), s.trim().is_empty());
    }
}

#[test]
fn split_words_matches_std() {
    let samples = [
        "", "   ", "--cuda-device 0 --force-fp16", "  a  b\tc\n", "one", "x\u{3000}y",
    ];
    for s in samples {
        let expected: Vec<String> = s.split_whitespace().map(|w| w.to_string()).collect();
        assert_eq!(split_words(s), expected);
    }
}

#[test]
fn decimal_string_matches_to_string() {
    for n in [0u64, 7, 10, 99, 100, 8188, 65535, 4294967295, u64::MAX] {
        assert_eq!(decimal_string(n), n.to_string());
    }
}

#[test]
fn parse_matches_std_parse() {
    let samples = [
        "", "+", "-", "0", "8188", "+8188", "-1", "65535", "65536", "0065535", "99999999999",
        "12a", "++1", " 1", "1 ", "+0", "١٢",
    ];
    for s in samples {
        assert_eq!(parse_u16_chars(&chars_of(s)), s.parse::<u16>().ok(), "input {:?}", s);
    }
    for n in 0u32..=70000 {
        let s = n.to_string();
        assert_eq!(parse_u16_chars(&chars_of(&s)), s.parse::<u16>().ok());
    }
}

#[test]
fn replace_matches_std_replace() {
    let samples = ["a.png", "a.png.png", "noext", ".pngpng", "x.PNG", "a..png", ""];
    for s in samples {
        assert_eq!(replace_text(s, ".png", ".json"), s.replace(".png", ".json"));
    }
}
