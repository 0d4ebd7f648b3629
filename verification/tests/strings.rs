use std::borrow::Cow;
use std::ops::Deref;

use argon::compiler::strings::{
    decimal_string, inline_str_as_str, inline_str_try_from, str_eq, CowStr, Encoding, Endianness,
};
use pulldown_cmark::InlineStr;

fn variant_eq<T>(a: &T, b: &T) -> bool {
    core::mem::discriminant(a) == core::mem::discriminant(b)
}

#[test]
fn inlinestr_ascii() {
    let s: InlineStr = 'a'.into();
    assert_eq!("a", s.deref());
}

#[test]
fn inlinestr_unicode() {
    let s: InlineStr = '🍔'.into();
    assert_eq!("🍔", s.deref());
}

#[test]
fn cowstr_char_to_string() {
    let c = '藏';
    let smort: CowStr = CowStr::from_char(c);
    let owned: String = smort.to_string();
    let expected = "藏".to_owned();
    assert_eq!(expected, owned);
}

#[test]
fn inlinestr_fits_twentytwo() {
    if core::mem::size_of::<usize>() == 8 {
        let s = "0123456789abcdefghijkl";
        let stack_str = inline_str_try_from(s).unwrap();
        assert_eq!(inline_str_as_str(&stack_str), s);
    }
}

#[test]
fn inlinestr_not_fits_twentythree() {
    if core::mem::size_of::<usize>() == 8 {
        let s = "0123456789abcdefghijklm";
        assert!(inline_str_try_from(s).is_none());
    }
}

#[test]
fn small_boxed_str_clones_to_stack() {
    if core::mem::size_of::<usize>() == 8 {
        let s = "0123456789abcde".to_owned();
        let smort: CowStr = s.into();
        let smort_clone = smort.clone();

        if let CowStr::Inlined(..) = smort_clone {
        } else {
            panic!("Expected a Inlined variant!");
        }
    }
}

#[test]
fn cow_to_cow_str() {
    let s = "some text";
    let cow = Cow::Borrowed(s);
    let actual = CowStr::from(cow);
    let expected = CowStr::Borrowed(s);
    assert_eq!(actual, expected);
    assert!(variant_eq(&actual, &expected));

    let s = "some text".to_string();
    let cow: Cow<str> = Cow::Owned(s.clone());
    let actual = CowStr::from(cow);
    let expected = CowStr::Owned(s);
    assert_eq!(actual, expected);
    assert!(variant_eq(&actual, &expected));
}

#[test]
fn cow_str_to_cow() {
    let s = "some text";
    let cow_str = CowStr::Borrowed(s);
    let actual = cow_str.into_cow();
    let expected = Cow::Borrowed(s);
    assert_eq!(actual, expected);
    assert!(variant_eq(&actual, &expected));

    let s = "s";
    let inline_str: InlineStr = InlineStr::try_from(s).unwrap();
    let cow_str = CowStr::Inlined(inline_str);
    let actual = cow_str.into_cow();
    let expected: Cow<str> = Cow::Owned(s.to_string());
    assert_eq!(actual, expected);
    assert!(variant_eq(&actual, &expected));

    let s = "s";
    let cow_str = CowStr::Owned(s.to_string());
    let actual = cow_str.into_cow();
    let expected: Cow<str> = Cow::Owned(s.to_string());
    assert_eq!(actual, expected);
    assert!(variant_eq(&actual, &expected));
}

#[test]
fn cow_str_to_string() {
    let s = "some text";
    let cow_str = CowStr::Borrowed(s);
    let actual = cow_str.into_string();
    let expected = String::from("some text");
    assert_eq!(actual, expected);

    let s = "s";
    let inline_str: InlineStr = InlineStr::try_from(s).unwrap();
    let cow_str = CowStr::Inlined(inline_str);
    let actual = cow_str.into_string();
    let expected = String::from("s");
    assert_eq!(actual, expected);

    let s = "s";
    let cow_str = CowStr::Owned(s.to_string());
    let actual = cow_str.into_string();
    let expected = String::from("s");
    assert_eq!(actual, expected);
}

#[test]
fn cow_char_to_cow_str() {
    let c = 'c';
    let cow: Cow<char> = Cow::Owned(c);
    let actual = CowStr::from_cow_char(cow);
    let expected = CowStr::Inlined(InlineStr::from(c));
    assert_eq!(actual, expected);
    assert!(variant_eq(&actual, &expected));

    let c = 'c';
    let cow: Cow<char> = Cow::Borrowed(&c);
    let actual = CowStr::from_cow_char(cow);
    let expected = CowStr::Inlined(InlineStr::from(c));
    assert_eq!(actual, expected);
    assert!(variant_eq(&actual, &expected));
}

#[test]
fn cow_str_len_counts_utf8_bytes() {
    assert_eq!(CowStr::Borrowed("藏a").len(), 4);
    assert_eq!(CowStr::Owned(String::new()).len(), 0);
}

#[test]
fn cow_str_into_static_inlines_short_borrowed_text() {
    let s = String::from("short");
    let c = CowStr::Borrowed(s.as_str()).into_static();
    assert!(matches!(c, CowStr::Inlined(_)));
    assert_eq!(c.as_str(), "short");
    let long = String::from("this text is longer than twenty-two bytes");
    let c = CowStr::Borrowed(long.as_str()).into_static();
    assert!(matches!(c, CowStr::Owned(_)));
    assert_eq!(c.as_str(), "this text is longer than twenty-two bytes");
}

#[test]
fn encodings_are_named_with_their_byte_order() {
    assert_eq!(Encoding::UTF8.as_str(), "UTF-8");
    assert_eq!(Encoding::UTF16(Endianness::BigEndian).as_str(), "UTF-16BE");
    assert_eq!(Encoding::UTF16(Endianness::LittleEndian).to_string(), "UTF-16LE");
}

#[test]
fn encoding_names_parse() {
    assert_eq!(Encoding::from_str("UTF8"), Ok(Encoding::UTF8));
    assert_eq!(Encoding::from_str("utf-16le"), Ok(Encoding::UTF16(Endianness::LittleEndian)));
    assert_eq!(Encoding::from_str("UTF-16be"), Ok(Encoding::UTF16(Endianness::BigEndian)));
    assert!(Encoding::from_str("latin1").is_err());
}

#[test]
fn decimal_string_writes_digits() {
    assert_eq!(decimal_string(0), "0");
    assert_eq!(decimal_string(7), "7");
    assert_eq!(decimal_string(1205), "1205");
}

#[test]
fn str_eq_compares_characters() {
    assert!(str_eq("abc", "abc"));
    assert!(!str_eq("abc", "abd"));
}

#[test]
fn cowstr_derefs_to_its_text() {
    let s = CowStr::Borrowed("ab");
    assert_eq!(s.deref(), "ab");
    assert_eq!(&*CowStr::Owned("cd".to_string()), "cd");
}
