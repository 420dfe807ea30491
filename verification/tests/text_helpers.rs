use video_clipper::response::ApiResponse;
use video_clipper::text::{chars_of, contains_chars, lines_of, replace_chars, split_chars, string_of, trim_chars, words_of};

fn s(v: &[char]) -> String {
    v.iter().collect()
}

fn all(v: &[Vec<char>]) -> Vec<String> {
    v.iter().map(|x| s(x)).collect()
}

#[test]
fn lines_like_std() {
    for text in ["", "a", "a\n", "a\nb", "a\r\nb\r\n", "\n\n", "a\r", "x\ry\n", "a\n\nb\n"] {
        let got = all(&lines_of(&chars_of(text)));
        let want: Vec<String> = text.lines().map(|l| l.to_string()).collect();
        assert_eq!(got, want, "lines of {:?}", text);
    }
}

#[test]
fn words_like_std() {
    for text in ["", "  ", "a b", " a\tb \n c ", "x\u{a0}y", "one"] {
        let got = all(&words_of(&chars_of(text)));
        let want: Vec<String> = text.split_whitespace().map(|w| w.to_string()).collect();
        assert_eq!(got, want, "words of {:?}", text);
    }
}

#[test]
fn split_trim_replace_like_std() {
    for text in ["", "a:b", ":a::", "no"] {
        let got = all(&split_chars(&chars_of(text), ':'));
        let want: Vec<String> = text.split(':').map(|w| w.to_string()).collect();
        assert_eq!(got, want);
    }
    for text in ["", "  a b  ", "\u{3000}x\n"] {
        assert_eq!(s(&trim_chars(&chars_of(text))), text.trim());
    }
    for text in ["a.b.c", "...", "none"] {
        assert_eq!(s(&replace_chars(&chars_of(text), &['.'], &['_', '_'])), text.replace('.', "__"));
    }
    assert_eq!(s(&replace_chars(&chars_of("aaa"), &['a', 'a'], &['b'])), "aaa".replace("aa", "b"));
    assert!(contains_chars(&chars_of("hello"), &chars_of("ll")));
    assert!(!contains_chars(&chars_of("hello"), &chars_of("lo!")));
    assert!(contains_chars(&chars_of("x"), &[]));
    assert_eq!(string_of(&['a', 'b']), "ab");
}

#[test]
fn answers_are_consistent() {
    let f = ApiResponse::failure_str("bad");
    assert!(!f.success && f.error.is_some() && f.message.is_empty() && f.data.is_none());
    let ok = ApiResponse::success("m".to_string(), Some("d".to_string()));
    assert!(ok.success && ok.error.is_none());
}
