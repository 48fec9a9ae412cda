use galahad_encoder::text;

#[test]
fn white_space_is_that_of_char() {
    for c in '\0'..=char::MAX {
        assert_eq!(text::space(c), c.is_whitespace(), "{:?}", c);
    }
}

#[test]
fn trims_like_str() {
    for s in ["", " ", " a b\t", "\u{3000}x\u{a0}", "x", "\r\nhost\r\n", "a\u{200b}"] {
        assert_eq!(text::trim(s), s.trim());
        assert_eq!(text::trim_start(s), s.trim_start());
        assert_eq!(text::trim(text::trim(s)), text::trim(s));
    }
}

#[test]
fn splits_lines_like_str() {
    for s in ["", "\n", "a", "a\n", "a\r\nb", "a\n\nb\r", "\r\n\r\n", "x\ry\r\r\nz\n"] {
        let expected: Vec<&str> = s.lines().collect();
        assert_eq!(text::lines(s), expected, "{:?}", s);
    }
}

#[test]
fn splits_words_like_str() {
    for s in ["", "  ", "a", " a  b ", "V....D h264_nvenc\tNVIDIA", "\u{2003}x\u{2003}"] {
        let expected: Vec<&str> = s.split_whitespace().collect();
        assert_eq!(text::words(s), expected, "{:?}", s);
    }
}

#[test]
fn searches_like_str() {
    let texts = ["", "a", "://", "srt://x", "aab", "preview.m3u8", "é://"];
    let patterns = ["", "a", "://", "ab", ".m3u8", "zzzzzzzzzzzzzzzzz"];
    for s in texts {
        for p in patterns {
            assert_eq!(text::contains(s, p), s.contains(p), "{s} {p}");
            assert_eq!(text::starts_with(s, p), s.starts_with(p), "{s} {p}");
            assert_eq!(text::ends_with(s, p), s.ends_with(p), "{s} {p}");
            assert_eq!(
                text::rest_after(s, p),
                s.split_once(p).map(|(_, rest)| rest),
                "{s} {p}"
            );
        }
    }
    assert_eq!(text::trim_leading("//a/b", '/'), "a/b");
    assert_eq!(text::trim_leading("///", '/'), "");
}

#[test]
fn orders_texts_like_str() {
    let texts = ["", "a", "ab", "b", "é", "z", "\u{ffff}", "\u{10000}", "cs2.exe", "chrome.exe"];
    for a in texts {
        for b in texts {
            assert_eq!(text::not_after(a, b), a <= b, "{a} {b}");
        }
    }
}

#[test]
fn writes_numbers_in_decimal() {
    for n in [0u64, 7, 10, 99, 100, 1316, 65535, 4294967295, u64::MAX] {
        assert_eq!(text::number(n), n.to_string());
    }
}

#[test]
fn reads_numbers_like_u32() {
    for s in ["", "+", "-1", "0", "007", "+19041", "++1", "19041", "4294967295", "4294967296",
        "99999999999999999999", "12a", " 1", "１"]
    {
        assert_eq!(text::parse_u32(s), s.parse::<u32>().ok(), "{s}");
    }
}

#[test]
fn joins_like_slice() {
    for parts in [vec![], vec!["a"], vec!["a", "", "c"]] {
        let owned: Vec<String> = parts.iter().map(|s| s.to_string()).collect();
        assert_eq!(text::join(&owned, "; "), parts.join("; "));
    }
}
