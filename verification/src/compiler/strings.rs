use vstd::prelude::*;
use vstd::string::StringSliceAdditionalSpecFns;

verus! {

broadcast use vstd::string::group_string_axioms;

/// Equality of two string slices, character for character.
pub assume_specification[ <std::primitive::str as PartialEq>::eq ](a: &std::primitive::str, b: &std::primitive::str) -> (r: bool)
    ensures
        r == (a@ == b@),
;

/// No two entries of a table share a name, so that the table reads as a map from names.
pub open spec fn names_unique<V>(entries: Seq<(String, V)>) -> bool {
    forall|i: int, j: int| 0 <= i < j < entries.len() ==> (#[trigger] entries[i]).0@ != (#[trigger] entries[j]).0@
}

/// Compares two string slices.
pub fn str_eq(a: &str, b: &str) -> (r: bool)
    ensures
        r == (a@ == b@),
{
    <std::primitive::str as PartialEq>::eq(a, b)
}

/// A file-system path, carried through the library unchanged.
#[verifier::external_type_specification]
#[verifier::external_body]
pub struct ExPathBuf(std::path::PathBuf);

/// `PathBuf::clone` gives back the same path.
pub assume_specification[ <std::path::PathBuf as Clone>::clone ](p: &std::path::PathBuf) -> (r: std::path::PathBuf)
    ensures
        r == *p,
;



pub type Location = tree_sitter::Range;

/// Types that know the byte range they cover.
pub trait ByteRangeProviding {
    spec fn spec_byte_range(&self) -> (usize, usize);

    fn byte_range(&self) -> (r: std::ops::Range<usize>)
        ensures
            (r.start, r.end) == self.spec_byte_range(),
    ;
}

impl ByteRangeProviding for Location {
    open spec fn spec_byte_range(&self) -> (usize, usize) {
        (self.start_byte, self.end_byte)
    }

    fn byte_range(&self) -> (r: std::ops::Range<usize>) {
        self.start_byte..self.end_byte
    }
}

/// Byte order of a UTF-16 text.
#[derive(Clone, Copy, Debug, PartialEq, Eq, Structural)]
pub enum Endianness {
    BigEndian,
    LittleEndian,
}

/// Text encoding of a source file or a manifest.
#[derive(Clone, Copy, Debug, PartialEq, Eq, Structural)]
pub enum Encoding {
    UTF8,
    UTF16(Endianness),
}

pub struct EncodingStrUnknown;

/// Reads two bytes as a `u16` in the byte order of the machine (`u16::from_ne_bytes`).
/// Which of the two orders applies depends on the machine; the contract states only that it
/// is one of them.
#[verifier::external_body]
fn u16_from_native_bytes(bytes: [u8; 2]) -> (r: u16)
    ensures
        r == bytes[0] as int * 256 + bytes[1] as int || r == bytes[1] as int * 256
            + bytes[0] as int,
{
    u16::from_ne_bytes(bytes)
}

impl Endianness {
    /// The byte order of the machine this runs on.
    pub fn system() -> (r: Self) {
        if u16_from_native_bytes([0u8, 1u8]) == 1 {
            Endianness::BigEndian
        } else {
            Endianness::LittleEndian
        }
    }
}

impl Default for Encoding {
    fn default() -> (r: Self)
        ensures
            r == Encoding::UTF8,
    {
        Encoding::UTF8
    }
}

pub open spec fn is_utf8_name(s: Seq<char>) -> bool {
    s == "UTF8"@ || s == "utf8"@ || s == "UTF-8"@ || s == "utf-8"@
}

pub open spec fn is_utf16_name(s: Seq<char>) -> bool {
    s == "UTF16"@ || s == "utf16"@ || s == "UTF-16"@ || s == "utf-16"@
}

pub open spec fn is_utf16le_name(s: Seq<char>) -> bool {
    s == "UTF16LE"@ || s == "utf16le"@ || s == "UTF-16le"@ || s == "utf-16le"@
}

pub open spec fn is_utf16be_name(s: Seq<char>) -> bool {
    s == "UTF16BE"@ || s == "utf16be"@ || s == "UTF-16be"@ || s == "utf-16be"@
}

/// Concatenates three string pieces into a new `String`.
pub fn concat3(a: &str, b: &str, c: &str) -> (r: String)
    ensures
        r@ == a@ + b@ + c@,
{
    let mut s = String::from_str(a);
    s.append(b);
    s.append(c);
    s
}

/// The four families of encoding names share no name.
proof fn lemma_encoding_names_disjoint(s: Seq<char>)
    ensures
        is_utf8_name(s) ==> !is_utf16_name(s) && !is_utf16le_name(s) && !is_utf16be_name(s),
        is_utf16_name(s) ==> !is_utf16le_name(s) && !is_utf16be_name(s),
        is_utf16le_name(s) ==> !is_utf16be_name(s),
{

    reveal_strlit("UTF8");
    reveal_strlit("utf8");
    reveal_strlit("UTF-8");
    reveal_strlit("utf-8");
    reveal_strlit("UTF16");
    reveal_strlit("utf16");
    reveal_strlit("UTF-16");
    reveal_strlit("utf-16");
    reveal_strlit("UTF16LE");
    reveal_strlit("utf16le");
    reveal_strlit("UTF-16le");
    reveal_strlit("utf-16le");
    reveal_strlit("UTF16BE");
    reveal_strlit("utf16be");
    reveal_strlit("UTF-16be");
    reveal_strlit("utf-16be");
    // The names of each kind end alike, and differently from those of the other kinds.
    assert(is_utf8_name(s) ==> s.last() == '8');
    assert(is_utf16_name(s) ==> s.last() == '6');
    assert(is_utf16le_name(s) ==> (s.last() == 'e' || s.last() == 'E') && (s[s.len() - 2] == 'l' || s[s.len() - 2] == 'L'));
    assert(is_utf16be_name(s) ==> (s.last() == 'e' || s.last() == 'E') && (s[s.len() - 2] == 'b' || s[s.len() - 2] == 'B'));
}

/// The name of an encoding, as it is written out.
pub open spec fn spec_encoding_name(e: Encoding) -> Seq<char> {
    match e {
        Encoding::UTF8 => "UTF-8"@,
        Encoding::UTF16(Endianness::BigEndian) => "UTF-16BE"@,
        Encoding::UTF16(Endianness::LittleEndian) => "UTF-16LE"@,
    }
}

impl Encoding {
    /// The name of the encoding, with the byte order of UTF-16 spelled out.
    pub fn as_str(&self) -> (r: &'static str)
        ensures
            r@ == spec_encoding_name(*self),
    {
        match self {
            Encoding::UTF8 => "UTF-8",
            Encoding::UTF16(Endianness::BigEndian) => "UTF-16BE",
            Encoding::UTF16(Endianness::LittleEndian) => "UTF-16LE",
        }
    }

    /// The name of the encoding, as a `String`.
    pub fn to_string(&self) -> (r: String)
        ensures
            r@ == spec_encoding_name(*self),
    {
        String::from_str(self.as_str())
    }

    /// Parses an encoding name.
    pub fn from_str(s: &str) -> (r: Result<Self, String>)
        ensures
            is_utf8_name(s@) ==> r == Ok::<Encoding, String>(Encoding::UTF8),
            is_utf16_name(s@) ==> r is Ok && r->Ok_0 is UTF16,
            is_utf16le_name(s@) ==> r == Ok::<Encoding, String>(Encoding::UTF16(Endianness::LittleEndian)),
            is_utf16be_name(s@) ==> r == Ok::<Encoding, String>(Encoding::UTF16(Endianness::BigEndian)),
            !is_utf8_name(s@) && !is_utf16_name(s@) && !is_utf16le_name(s@) && !is_utf16be_name(s@)
                ==> r is Err && r->Err_0@ == "Unknown encoding '"@ + s@ + "'"@,
    {
        proof {
            lemma_encoding_names_disjoint(s@);
        }
        if str_eq(s, "UTF8") || str_eq(s, "utf8") || str_eq(s, "UTF-8") || str_eq(s, "utf-8") {
            Ok(Encoding::UTF8)
        } else if str_eq(s, "UTF16") || str_eq(s, "utf16") || str_eq(s, "UTF-16") || str_eq(s, "utf-16") {
            Ok(Encoding::UTF16(Endianness::system()))
        } else if str_eq(s, "UTF16LE") || str_eq(s, "utf16le") || str_eq(s, "UTF-16le") || str_eq(s, "utf-16le") {
            Ok(Encoding::UTF16(Endianness::LittleEndian))
        } else if str_eq(s, "UTF16BE") || str_eq(s, "utf16be") || str_eq(s, "UTF-16be") || str_eq(s, "utf-16be") {
            Ok(Encoding::UTF16(Endianness::BigEndian))
        } else {
            Err(concat3("Unknown encoding '", s, "'"))
        }
    }
}

} // verus!

verus! {

/// A short string stored inline, from `pulldown_cmark`.
#[verifier::external_type_specification]
#[verifier::external_body]
pub struct ExInlineStr(pulldown_cmark::InlineStr);

/// The characters that an `InlineStr` holds.
pub uninterp spec fn inline_str_chars(s: pulldown_cmark::InlineStr) -> Seq<char>;

/// The number of bytes an `InlineStr` can hold: three machine words less two bytes.
pub open spec fn max_inline_str_len() -> int {
    3 * (usize::BITS / 8) as int - 2
}

/// `InlineStr::try_from(&str)`: succeeds exactly when the string's UTF-8 bytes fit inline, and
/// then holds the string's characters. The error (`StringTooLongError`, which carries nothing)
/// becomes `None`.
#[verifier::external_body]
pub fn inline_str_try_from(s: &str) -> (r: Option<pulldown_cmark::InlineStr>)
    ensures
        r is Some <==> s.spec_bytes().len() <= max_inline_str_len(),
        r matches Some(i) ==> inline_str_chars(i) == s@,
{
    pulldown_cmark::InlineStr::try_from(s).ok()
}

/// `InlineStr::from(char)`: holds that one character, which always fits.
#[verifier::external_body]
pub fn inline_str_from_char(c: char) -> (r: pulldown_cmark::InlineStr)
    ensures
        inline_str_chars(r) == seq![c],
{
    pulldown_cmark::InlineStr::from(c)
}

/// `InlineStr`'s `Deref`: the characters it holds, as a string slice.
#[verifier::external_body]
pub fn inline_str_as_str(s: &pulldown_cmark::InlineStr) -> (r: &str)
    ensures
        r@ == inline_str_chars(*s),
{
    s
}

/// A copy-on-write string that can be owned, borrowed or inlined.
#[derive(Debug)]
pub enum CowStr<'a> {
    /// An owned string
    Owned(String),
    /// Static string
    Static(&'static str),
    /// A borrowed string
    Borrowed(&'a str),
    /// A short inline string
    Inlined(pulldown_cmark::InlineStr),
}

impl<'a> View for CowStr<'a> {
    type V = Seq<char>;

    open spec fn view(&self) -> Seq<char> {
        match self {
            CowStr::Owned(s) => s@,
            CowStr::Static(s) => s@,
            CowStr::Borrowed(s) => s@,
            CowStr::Inlined(s) => inline_str_chars(*s),
        }
    }
}

impl<'a> CowStr<'a> {
    /// The string's characters as a slice.
    pub fn as_str(&self) -> (r: &str)
        ensures
            r@ == self@,
    {
        match self {
            CowStr::Owned(b) => b.as_str(),
            CowStr::Static(b) => b,
            CowStr::Borrowed(b) => b,
            CowStr::Inlined(s) => inline_str_as_str(s),
        }
    }

    /// Turns the string into an owned `String`.
    pub fn into_string(self) -> (r: String)
        ensures
            r@ == self@,
    {
        match self {
            CowStr::Owned(b) => b,
            CowStr::Borrowed(b) => (*b).to_owned(),
            CowStr::Static(b) => (*b).to_owned(),
            CowStr::Inlined(s) => inline_str_as_str(&s).to_owned(),
        }
    }

    /// A new owned `String` with the same characters.
    pub fn string(&self) -> (r: String)
        ensures
            r@ == self@,
    {
        match self {
            CowStr::Owned(b) => b.clone(),
            CowStr::Static(b) => (*b).to_owned(),
            CowStr::Borrowed(b) => (*b).to_owned(),
            CowStr::Inlined(s) => inline_str_as_str(s).to_owned(),
        }
    }

    /// Same as `string`, under the name that `Display` would give it.
    pub fn to_string(&self) -> (r: String)
        ensures
            r@ == self@,
    {
        self.string()
    }

    /// The length in bytes of the string's UTF-8 encoding.
    pub fn len(&self) -> (r: usize)
        ensures
            r == vstd::utf8::encode_utf8(self@).len() as usize,
    {
        self.as_str().len()
    }

    /// The same string, with a borrowed string replaced by an inlined or owned copy.
    pub fn into_static(self) -> (r: CowStr<'static>)
        ensures
            r@ == self@,
            self is Owned ==> r is Owned,
            self is Static ==> r is Static,
            self is Inlined ==> r is Inlined,
            self is Borrowed ==> (r is Inlined <==> vstd::utf8::encode_utf8(self@).len()
                <= max_inline_str_len()),
            self is Borrowed ==> (r is Inlined || r is Owned),
    {
        match self {
            CowStr::Owned(b) => CowStr::Owned(b),
            CowStr::Static(b) => CowStr::Static(b),
            CowStr::Borrowed(b) => match inline_str_try_from(b) {
                Some(inline) => CowStr::Inlined(inline),
                None => CowStr::Owned(b.to_owned()),
            },
            CowStr::Inlined(s) => CowStr::Inlined(s),
        }
    }

    /// A copy of the string; a short owned string is copied inline.
    pub fn clone_str(&self) -> (r: CowStr<'a>)
        ensures
            is_clone_of(*self, r),
    {
        match self {
            CowStr::Owned(s) => match inline_str_try_from(s.as_str()) {
                Some(inline) => CowStr::Inlined(inline),
                None => CowStr::Owned(s.clone()),
            },
            CowStr::Static(s) => CowStr::Static(s),
            CowStr::Borrowed(s) => CowStr::Borrowed(s),
            CowStr::Inlined(s) => CowStr::Inlined(*s),
        }
    }
}

impl<'a> std::ops::Deref for CowStr<'a> {
    type Target = str;

    /// The text, as a string slice.
    fn deref(&self) -> (r: &str)
        ensures
            r@ == self@,
    {
        self.as_str()
    }
}

/// `r` is a clone of `s`: the same text; an owned string short enough to fit inline becomes
/// inline, a longer one stays owned, and the other forms are kept.
pub open spec fn is_clone_of<'a>(s: CowStr<'a>, r: CowStr<'a>) -> bool {
    &&& r@ == s@
    &&& s is Owned ==> (r is Inlined <==> vstd::utf8::encode_utf8(s@).len() <= max_inline_str_len())
    &&& s is Owned ==> (r is Inlined || r is Owned)
    &&& s is Static ==> r is Static
    &&& s is Borrowed ==> r is Borrowed
    &&& s is Inlined ==> r is Inlined
}

impl<'a> Clone for CowStr<'a> {
    fn clone(&self) -> (r: Self)
        ensures
            is_clone_of(*self, r),
    {
        self.clone_str()
    }
}

impl<'a> PartialEq for CowStr<'a> {
    fn eq(&self, other: &Self) -> (r: bool) {
        str_eq(self.as_str(), other.as_str())
    }
}

impl<'a> vstd::std_specs::cmp::PartialEqSpecImpl for CowStr<'a> {
    open spec fn obeys_eq_spec() -> bool {
        true
    }

    open spec fn eq_spec(&self, other: &Self) -> bool {
        self@ == other@
    }
}

impl<'a> Eq for CowStr<'a> {}

impl<'a> From<&'a str> for CowStr<'a> {
    fn from(s: &'a str) -> (r: Self) {
        CowStr::Borrowed(s)
    }
}

impl<'a> vstd::std_specs::convert::FromSpecImpl<&'a str> for CowStr<'a> {
    open spec fn obeys_from_spec() -> bool {
        true
    }

    open spec fn from_spec(s: &'a str) -> Self {
        CowStr::Borrowed(s)
    }
}

impl<'a> From<String> for CowStr<'a> {
    fn from(s: String) -> (r: Self) {
        CowStr::Owned(s)
    }
}

impl<'a> vstd::std_specs::convert::FromSpecImpl<String> for CowStr<'a> {
    open spec fn obeys_from_spec() -> bool {
        true
    }

    open spec fn from_spec(s: String) -> Self {
        CowStr::Owned(s)
    }
}

impl<'a> From<std::borrow::Cow<'a, str>> for CowStr<'a> {
    fn from(s: std::borrow::Cow<'a, str>) -> (r: Self) {
        match s {
            std::borrow::Cow::Borrowed(s) => CowStr::Borrowed(s),
            std::borrow::Cow::Owned(s) => CowStr::Owned(s),
        }
    }
}

impl<'a> vstd::std_specs::convert::FromSpecImpl<std::borrow::Cow<'a, str>> for CowStr<'a> {
    open spec fn obeys_from_spec() -> bool {
        true
    }

    open spec fn from_spec(s: std::borrow::Cow<'a, str>) -> Self {
        match s {
            std::borrow::Cow::Borrowed(s) => CowStr::Borrowed(s),
            std::borrow::Cow::Owned(s) => CowStr::Owned(s),
        }
    }
}

/// The decimal digit character of `d`.
pub open spec fn digit_char(d: nat) -> char {
    if d == 0 { '0' } else if d == 1 { '1' } else if d == 2 { '2' } else if d == 3 { '3' }
    else if d == 4 { '4' } else if d == 5 { '5' } else if d == 6 { '6' } else if d == 7 { '7' }
    else if d == 8 { '8' } else { '9' }
}

/// The decimal notation of `n`, without leading zeros.
pub open spec fn decimal(n: nat) -> Seq<char>
    decreases n,
{
    if n < 10 {
        seq![digit_char(n)]
    } else {
        decimal(n / 10).push(digit_char(n % 10))
    }
}

fn digit_str(d: usize) -> (r: &'static str)
    requires
        d < 10,
    ensures
        r@ == seq![digit_char(d as nat)],
{
    proof {
        reveal_strlit("0");
        reveal_strlit("1");
        reveal_strlit("2");
        reveal_strlit("3");
        reveal_strlit("4");
        reveal_strlit("5");
        reveal_strlit("6");
        reveal_strlit("7");
        reveal_strlit("8");
        reveal_strlit("9");
    }
    if d == 0 { "0" } else if d == 1 { "1" } else if d == 2 { "2" } else if d == 3 { "3" }
    else if d == 4 { "4" } else if d == 5 { "5" } else if d == 6 { "6" } else if d == 7 { "7" }
    else if d == 8 { "8" } else { "9" }
}

/// The decimal notation of a number, as `to_string` writes it.
pub fn decimal_string(n: usize) -> (r: String)
    ensures
        r@ == decimal(n as nat),
    decreases n,
{
    if n < 10 {
        String::from_str(digit_str(n))
    } else {
        let mut s = decimal_string(n / 10);
        s.append(digit_str(n % 10));
        s
    }
}

impl<'a> CowStr<'a> {
    /// The one character, inlined.
    pub fn from_char(c: char) -> (r: CowStr<'a>)
        ensures
            r is Inlined,
            r@ == seq![c],
    {
        CowStr::Inlined(inline_str_from_char(c))
    }

    /// The character a copy-on-write character holds, inlined.
    pub fn from_cow_char(c: std::borrow::Cow<'a, char>) -> (r: CowStr<'a>)
        ensures
            r is Inlined,
            r@ == seq![match c {
                std::borrow::Cow::Borrowed(b) => *b,
                std::borrow::Cow::Owned(o) => o,
            }],
    {
        let ch = match c {
            std::borrow::Cow::Borrowed(b) => *b,
            std::borrow::Cow::Owned(o) => o,
        };
        CowStr::Inlined(inline_str_from_char(ch))
    }

    /// The string as a standard copy-on-write string: borrowed where it was borrowed or static,
    /// owned otherwise.
    pub fn into_cow(self) -> (r: std::borrow::Cow<'a, str>)
        ensures
            (self is Borrowed || self is Static) <==> r is Borrowed,
            match r {
                std::borrow::Cow::Borrowed(b) => b@ == self@,
                std::borrow::Cow::Owned(o) => o@ == self@,
            },
    {
        match self {
            CowStr::Owned(s) => std::borrow::Cow::Owned(s),
            CowStr::Inlined(s) => std::borrow::Cow::Owned(inline_str_as_str(&s).to_owned()),
            CowStr::Static(s) => std::borrow::Cow::Borrowed(s),
            CowStr::Borrowed(s) => std::borrow::Cow::Borrowed(s),
        }
    }
}

} // verus!
