use rpassword::{zero_bytes, SafeString, SafeVec, ZeroOnDrop};

#[test]
fn zero_bytes_wipes_every_byte() {
    let mut bytes = b"hunter2-secret".to_vec();
    zero_bytes(&mut bytes);
    assert_eq!(bytes.len(), 14);
    assert!(bytes.iter().all(|b| *b == 0));
}

#[test]
fn zero_bytes_on_empty() {
    let mut bytes: Vec<u8> = Vec::new();
    zero_bytes(&mut bytes);
    assert!(bytes.is_empty());
}

#[test]
fn safe_string_round_trip() {
    assert_eq!(SafeString::new().into_inner(), "");
    let s = SafeString::from_string(String::from("blabla"));
    assert_eq!(s.as_str(), "blabla");
    assert_eq!(s.into_inner(), "blabla");
}

#[test]
fn safe_string_compares_by_content() {
    assert_eq!(
        SafeString::from_string(String::from("blabla")),
        SafeString::from_string(String::from("blabla"))
    );
    assert_ne!(
        SafeString::from_string(String::from("blabla")),
        SafeString::from_string(String::from("other"))
    );
}

#[test]
fn safe_vec_changes_in_place() {
    let mut v = SafeVec::new(vec![1, 2, 3]);
    v.inner_mut().push(4);
    assert_eq!(v.inner, vec![1, 2, 3, 4]);
}

#[test]
fn zero_on_drop_round_trip() {
    assert_eq!(ZeroOnDrop::new().into_inner(), "");
}

#[test]
fn zero_on_drop_is_filled_in_place() {
    let mut z = ZeroOnDrop::new();
    z.push_str("secret");
    assert_eq!(z.as_str(), "secret");
    assert_eq!(z.into_inner(), "secret");
}

#[test]
fn safe_string_is_filled_in_place() {
    let mut s = SafeString::new();
    s.push_str("abc");
    assert_eq!(s.len(), 3);
    assert_eq!(s.into_inner(), "abc");
}

#[test]
fn safe_vec_derefs_to_its_bytes() {
    let mut v = SafeVec::new(vec![1, 2, 3]);
    v[0] = 9;
    assert_eq!(&v[..], &[9, 2, 3]);
}

#[test]
fn safe_string_from_string() {
    let s: SafeString = String::from("blabla").into();
    assert_eq!(s.as_str(), "blabla");
    assert_eq!(SafeString::from(String::from("x")).into_inner(), "x");
}

#[test]
fn dropping_filled_buffers_is_quiet() {
    let mut s = SafeString::new();
    s.reserve(64);
    s.push_str("päss\u{15}word");
    drop(s);
    let mut v = SafeVec::new(Vec::with_capacity(32));
    v.inner_mut().extend_from_slice(b"secret");
    drop(v);
    let mut z = ZeroOnDrop::new();
    z.push_str("secret");
    drop(z);
}

#[test]
fn safe_string_from_str() {
    let s: SafeString = "pässword".into();
    assert_eq!(s.as_str(), "pässword");
    assert_eq!(SafeString::from("x").into_inner(), "x");
}
