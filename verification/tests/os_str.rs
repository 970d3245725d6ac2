use no_std_path::{OsStr, OsString, NO_STD_IMPL};
use std::borrow::Borrow;
use std::cmp::Ordering;

#[test]
fn sentinel_is_set() {
    assert!(NO_STD_IMPL);
}

#[test]
fn new_holds_the_str_bytes() {
    let s = OsStr::new("file.txt");
    assert_eq!(s.as_encoded_bytes(), b"file.txt");
    assert_eq!(s.len(), 8);
    assert!(!s.is_empty());
    assert!(OsStr::new("").is_empty());
}

#[test]
fn new_from_string_and_os_types() {
    let owned = String::from("héllo");
    let a = OsStr::new(&owned);
    assert_eq!(a.as_encoded_bytes(), "héllo".as_bytes());
    assert_eq!(a.len(), 6);
    let b = OsStr::new(&a);
    assert!(a == b);
    let o = OsString::from("x/y");
    assert_eq!(OsStr::new(&o).as_encoded_bytes(), b"x/y");
}

#[test]
fn from_encoded_bytes_keeps_any_bytes() {
    let s = OsStr::from_encoded_bytes_unchecked(&[0xff, 0x00, 0x41]);
    assert_eq!(s.as_encoded_bytes(), &[0xff, 0x00, 0x41]);
}

#[test]
fn to_str_on_valid_utf8() {
    let s = OsStr::new("home/ünïcode");
    assert_eq!(s.to_str(), Some("home/ünïcode"));
}

#[test]
fn to_str_on_invalid_utf8() {
    let s = OsStr::from_encoded_bytes_unchecked(&[b'a', 0xff, b'b']);
    assert_eq!(s.to_str(), None);
    let truncated = OsStr::from_encoded_bytes_unchecked(&[0xc3]);
    assert_eq!(truncated.to_str(), None);
}

#[test]
fn to_string_lossy_replaces_invalid() {
    let s = OsStr::from_encoded_bytes_unchecked(&[b'a', 0xff, b'b']);
    assert_eq!(s.to_string_lossy(), "a\u{FFFD}b");
    let ok = OsStr::new("readme.md");
    assert_eq!(ok.to_string_lossy(), "readme.md");
}

#[test]
fn to_string_lossy_one_replacement_per_invalid_part() {
    let two = OsStr::from_encoded_bytes_unchecked(&[0xff, 0xfe]);
    assert_eq!(two.to_string_lossy(), "\u{FFFD}\u{FFFD}");
    let cut = OsStr::from_encoded_bytes_unchecked(&[b'a', 0xe2, 0x82, b'b']);
    assert_eq!(cut.to_string_lossy(), "a\u{FFFD}b");
    let tail = OsStr::from_encoded_bytes_unchecked(&[b'z', 0xf0, 0x9f]);
    assert_eq!(tail.to_string_lossy(), "z\u{FFFD}");
}

#[test]
fn capacity_is_bounded() {
    let s = OsString::from("abc");
    assert!(s.capacity() >= 3);
    assert!(s.capacity() <= isize::MAX as usize);
}

#[test]
fn display_shows_lossy_text() {
    let s = OsStr::from_encoded_bytes_unchecked(&[b'x', 0x80]);
    assert_eq!(s.display().to_string(), "x\u{FFFD}");
    assert_eq!(s.to_string(), "x\u{FFFD}");
    let o = OsString::from("plain");
    assert_eq!(o.to_string(), "plain");
}

#[test]
fn debug_escapes_and_quotes() {
    let s = OsStr::from_encoded_bytes_unchecked(b"a\xffb\n\"");
    assert_eq!(s.debug_string(), "\"a\\xffb\\n\\\"\"");
    assert_eq!(s.display().debug_string(), "\"a\\xffb\\n\\\"\"");
    let plain = OsString::from("abc");
    assert_eq!(plain.debug_string(), "\"abc\"");
}

#[test]
fn debug_hex_is_two_lowercase_digits() {
    let s = OsStr::from_encoded_bytes_unchecked(&[0x80, 0xfe]);
    assert_eq!(s.debug_string(), "\"\\x80\\xfe\"");
}

#[test]
fn debug_matches_std_for_valid_text() {
    let text = "tab\there 'q' \\ é";
    let s = OsStr::new(text);
    let escaped: String = text.chars().flat_map(|c| c.escape_debug()).collect();
    assert_eq!(s.debug_string(), format!("\"{}\"", escaped));
}

#[test]
fn ascii_case_mapping() {
    let mut s = OsStr::new("HeLLo-Ä.TXT");
    s.make_ascii_lowercase();
    assert_eq!(s.as_encoded_bytes(), "hello-Ä.txt".as_bytes());
    s.make_ascii_uppercase();
    assert_eq!(s.as_encoded_bytes(), "HELLO-Ä.TXT".as_bytes());
}

#[test]
fn ascii_lowercase_is_idempotent() {
    let mut a = OsStr::new("MiXeD");
    a.make_ascii_lowercase();
    let once = a.clone();
    a.make_ascii_lowercase();
    assert!(a == once);
}

#[test]
fn to_os_string_and_to_owned_copy() {
    let s = OsStr::new("abc");
    let o = s.to_os_string();
    assert_eq!(o.as_encoded_bytes(), b"abc");
    let p = s.to_owned();
    assert!(o == p);
}

#[test]
fn clone_into_replaces_target() {
    let s = OsStr::new("new");
    let mut target = OsString::from("old contents");
    s.clone_into(&mut target);
    assert_eq!(target.as_encoded_bytes(), b"new");
}

#[test]
fn eq_with_str() {
    let s = OsStr::new("abc");
    assert!(s.eq_str("abc"));
    assert!(!s.eq_str("abd"));
    assert!(!s.eq_str("ab"));
}

#[test]
fn equality_is_bytewise() {
    assert!(OsStr::new("a") == OsStr::new("a"));
    assert!(OsStr::new("a") != OsStr::new("b"));
    assert!(OsString::from("xy") == OsString::from("xy"));
    assert!(OsString::from("xy") != OsString::from("x"));
}

#[test]
fn ordering_is_lexicographic() {
    let abc = OsStr::new("abc");
    let abd = OsStr::new("abd");
    let ab = OsStr::new("ab");
    assert_eq!(abc.partial_cmp(&abd), Some(Ordering::Less));
    assert_eq!(abd.partial_cmp(&abc), Some(Ordering::Greater));
    assert_eq!(ab.partial_cmp(&abc), Some(Ordering::Less));
    assert_eq!(abc.partial_cmp(&abc), Some(Ordering::Equal));
    assert!(ab < abc);
    assert_eq!(abc.cmp(&abd), Ordering::Less);
    let hi = OsStr::from_encoded_bytes_unchecked(&[0xff]);
    assert!(abc < hi);
}

#[test]
fn ordering_of_os_strings() {
    let a = OsString::from("b");
    let b = OsString::from("ba");
    assert_eq!(a.partial_cmp(&b), Some(Ordering::Less));
    assert_eq!(b.partial_cmp(&a), Some(Ordering::Greater));
    let mut v = vec![OsString::from("c"), OsString::from("a"), OsString::from("b")];
    v.sort();
    assert_eq!(v[0].as_encoded_bytes(), b"a");
    assert_eq!(v[2].as_encoded_bytes(), b"c");
}

#[test]
fn os_string_new_and_push() {
    let mut s = OsString::new();
    assert!(s.is_empty());
    s.push("/home");
    s.push(&String::from("/user"));
    s.push(&OsStr::new("/docs"));
    assert_eq!(s.as_encoded_bytes(), b"/home/user/docs");
    assert_eq!(s.len(), 15);
}

#[test]
fn with_capacity_is_empty_with_room() {
    let s = OsString::with_capacity(32);
    assert!(s.is_empty());
    assert!(s.capacity() >= 32);
}

#[test]
fn into_string_valid() {
    let s = OsString::from("ok ✓");
    match s.into_string() {
        Ok(t) => assert_eq!(t, "ok ✓"),
        Err(_) => panic!("valid UTF-8 was refused"),
    }
}

#[test]
fn into_string_invalid_gives_bytes_back() {
    let mut s = OsString::new();
    s.extend_from_slice_unchecked(&[b'a', 0xfe]);
    match s.into_string() {
        Ok(_) => panic!("invalid UTF-8 was accepted"),
        Err(o) => assert_eq!(o.as_encoded_bytes(), &[b'a', 0xfe]),
    }
}

#[test]
fn truncate_and_clear() {
    let mut s = OsString::from("abcdef");
    s.truncate(10);
    assert_eq!(s.as_encoded_bytes(), b"abcdef");
    s.truncate(3);
    assert_eq!(s.as_encoded_bytes(), b"abc");
    s.clear();
    assert!(s.is_empty());
}

#[test]
fn capacity_operations_keep_contents() {
    let mut s = OsString::from("keep");
    s.reserve(100);
    assert!(s.capacity() >= 104);
    s.reserve_exact(10);
    assert!(s.try_reserve(8).is_ok());
    assert!(s.try_reserve_exact(8).is_ok());
    s.shrink_to(6);
    assert!(s.capacity() >= 6);
    s.shrink_to_fit();
    assert!(s.capacity() >= 4);
    assert_eq!(s.as_encoded_bytes(), b"keep");
}

#[test]
fn try_reserve_too_much_fails_and_keeps_contents() {
    let mut s = OsString::from("keep");
    assert!(s.try_reserve(usize::MAX).is_err());
    assert!(s.try_reserve_exact(usize::MAX).is_err());
    assert!(s.try_reserve_exact(isize::MAX as usize).is_err());
    assert_eq!(s.as_encoded_bytes(), b"keep");
}

#[test]
fn as_os_str_and_as_mut_os_str() {
    let mut s = OsString::from("Path");
    assert_eq!(s.as_os_str().as_encoded_bytes(), b"Path");
    s.as_mut_os_str().make_ascii_uppercase();
    assert_eq!(s.as_encoded_bytes(), b"PATH");
}

#[test]
fn deref_to_os_str() {
    let s = OsString::from("deref");
    let r: &OsStr = &s;
    assert_eq!(r.len(), 5);
}

#[test]
fn boxing_discards_spare_capacity() {
    let mut s = OsString::from("boxed");
    s.reserve(100);
    let back = OsString::from(s.into_boxed_os_str());
    assert_eq!(back.as_encoded_bytes(), b"boxed");
    assert_eq!(back.capacity(), back.len());
}

#[test]
fn boxes_and_leaks() {
    let s = OsString::from("boxed");
    let b = s.into_boxed_os_str();
    assert_eq!(b.as_encoded_bytes(), b"boxed");
    let back = OsString::from_boxed_os_str(b);
    assert_eq!(back.as_encoded_bytes(), b"boxed");
    let leaked: &mut OsStr = back.leak();
    leaked.make_ascii_uppercase();
    assert_eq!(leaked.as_encoded_bytes(), b"BOXED");
}

#[test]
fn from_conversions() {
    let a = OsString::from(String::from("s"));
    let b = OsString::from("s");
    let c = OsString::from_string(String::from("s"));
    let d = OsString::from_str_slice("s");
    assert!(a == b && b == c && c == d);
    let e = OsString::from(OsStr::new("t").to_os_string().into_boxed_os_str());
    assert_eq!(e.as_encoded_bytes(), b"t");
    let arc: std::sync::Arc<OsStr> = OsString::from("arc").into();
    assert_eq!(arc.as_encoded_bytes(), b"arc");
    let rc: std::rc::Rc<OsStr> = OsString::from("rc").into();
    assert_eq!(rc.len(), 2);
}

#[test]
fn default_is_empty() {
    assert!(OsString::default().is_empty());
    assert!(OsStr::default().is_empty());
}

#[test]
fn borrow_gives_the_bytes() {
    let s = OsString::from("borrowed");
    let b: &OsStr = s.borrow();
    assert_eq!(b.as_encoded_bytes(), b"borrowed");
}

#[test]
fn clone_keeps_bytes() {
    let s = OsString::from("clone me");
    let t = s.clone();
    assert!(s == t);
}

#[test]
fn compare_with_str() {
    let s = OsStr::new("abc");
    assert!(s == *"abc");
    assert!(*"abc" == s);
    assert!(s != *"ab");
}

#[test]
fn full_range_index() {
    let s = OsStr::new("whole");
    let t: &OsStr = &s[..];
    assert!(*t == s);
}

#[test]
fn deref_mut_reaches_os_str() {
    let mut s = OsString::from("lower");
    s.make_ascii_uppercase();
    assert_eq!(s.as_encoded_bytes(), b"LOWER");
}

#[test]
fn shared_pointers_from_borrowed() {
    let s = OsStr::new("shared");
    let a: std::sync::Arc<OsStr> = std::sync::Arc::from(&s);
    let r: std::rc::Rc<OsStr> = std::rc::Rc::from(&s);
    assert!(*a == s);
    assert!(*r == s);
}
