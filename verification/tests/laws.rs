use no_std_path::{OsStr, OsString};
use std::cmp::Ordering;

#[test]
fn law_str_round_trip() {
    for text in ["", "a", "/usr/lib", "ünï©ødé", "🦀 crab"] {
        assert_eq!(OsStr::new(text).to_str(), Some(text));
        match OsString::from_string(String::from(text)).into_string() {
            Ok(s) => assert_eq!(s, text),
            Err(_) => panic!("round trip failed"),
        }
    }
}

#[test]
fn law_bytes_round_trip() {
    let s = OsStr::from_encoded_bytes_unchecked("día".as_bytes());
    let text = s.to_str().unwrap();
    assert!(OsStr::new(text) == s);
}

#[test]
fn law_push_valid_utf8() {
    let mut s = OsString::from("añ");
    s.push("ø");
    assert_eq!(s.as_os_str().to_str(), Some("añø"));
}

#[test]
fn law_truncate_undoes_push() {
    let mut s = OsString::from("base");
    let n = s.len();
    s.push("/extra");
    s.truncate(n);
    assert_eq!(s.as_encoded_bytes(), b"base");
}

#[test]
fn law_push_assoc() {
    let mut a = OsString::from("x");
    a.push("y");
    a.push("z");
    let mut b = OsString::from("x");
    b.push("yz");
    assert!(a == b);
}

#[test]
fn law_case_last_wins() {
    let mut a = OsStr::new("AbC");
    a.make_ascii_uppercase();
    a.make_ascii_lowercase();
    let mut b = OsStr::new("AbC");
    b.make_ascii_lowercase();
    assert!(a == b);
}

#[test]
fn law_case_keeps_utf8() {
    let mut s = OsStr::new("ÀÉÎ straße");
    s.make_ascii_uppercase();
    assert_eq!(s.to_str(), Some("ÀÉÎ STRAßE"));
}

#[test]
fn law_lossy_agrees_with_to_str() {
    let s = OsStr::new("valid ✓");
    assert_eq!(s.to_string_lossy(), s.to_str().unwrap());
}

#[test]
fn law_ordering_reverses() {
    let words = ["", "a", "ab", "b", "ba"];
    for x in words {
        for y in words {
            let a = OsStr::new(x);
            let b = OsStr::new(y);
            let ab = a.partial_cmp(&b).unwrap();
            let ba = b.partial_cmp(&a).unwrap();
            assert_eq!(ab, ba.reverse());
            assert_eq!(ab == Ordering::Equal, x == y);
        }
    }
}

#[test]
fn law_ordering_transitive() {
    let a = OsStr::new("a");
    let b = OsStr::new("ab");
    let c = OsStr::new("b");
    assert!(a <= b && b <= c && a <= c);
}

#[test]
fn law_byte_escape_injective() {
    let mut seen = std::collections::HashSet::new();
    for b in 0x80u8..=0xff {
        let s = OsStr::from_encoded_bytes_unchecked(&[b]);
        assert!(seen.insert(s.debug_string()));
    }
}
