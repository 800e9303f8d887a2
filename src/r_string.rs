//! String objects: the typed overlay, the header layout that selects inline
//! or heap storage, encoding checks, text views and interning.

use vstd::prelude::*;
use vstd::slice::slice_to_vec;
use vstd::utf8::*;

use crate::call::RuntimeCall;
use crate::class::Ruby;
use crate::error::{protect, protected_spec, EncodingFault, Error, ProtectOutcome, TypeFault};
use crate::value::{NonZeroValue, Value, ValueType};

verus! {

broadcast use {encode_utf8_valid_utf8, encode_utf8_decode_utf8};

/// Header flag: the bytes live in a separate heap buffer.
pub const RSTRING_NOEMBED: u64 = 0x2000;

/// Header bits that hold the length of an inline ("embedded") string.
pub const RSTRING_EMBED_LEN_MASK: u64 = 0x7c000;

/// Shift that brings the inline length down from the header bits.
pub const RSTRING_EMBED_LEN_SHIFT: u64 = 14;

/// Header flag: the string is interned (frozen, never collected).
pub const RSTRING_FSTR: u64 = 0x2000_0000;

/// The header bits of string objects, which differ between runtime versions.
#[derive(Clone, Copy, PartialEq, Eq, Structural, Debug)]
pub struct StringLayout {
    pub noembed: u64,
    pub embed_len_mask: u64,
    pub embed_len_shift: u64,
    pub fstr: u64,
}

impl StringLayout {
    /// A layout is usable when its shift is below the word size.
    pub open spec fn wf(self) -> bool {
        self.embed_len_shift < 64
    }

    /// The header layout of the runtime versions that keep the inline
    /// length in the flag word.
    pub fn flag_embedded_len() -> (r: StringLayout)
        ensures
            r.wf(),
            r.noembed == RSTRING_NOEMBED,
            r.embed_len_mask == RSTRING_EMBED_LEN_MASK,
            r.embed_len_shift == RSTRING_EMBED_LEN_SHIFT,
            r.fstr == RSTRING_FSTR,
    {
        StringLayout {
            noembed: RSTRING_NOEMBED,
            embed_len_mask: RSTRING_EMBED_LEN_MASK,
            embed_len_shift: RSTRING_EMBED_LEN_SHIFT,
            fstr: RSTRING_FSTR,
        }
    }
}

/// Where a string's bytes are, as its header says.
#[derive(Clone, Copy, PartialEq, Eq, Structural, Debug)]
pub enum Storage {
    /// Inline in the object, this many bytes long.
    Embedded { len: u64 },
    /// In the heap buffer whose pointer and length the object holds.
    Heap,
}

/// The storage that header `flags` selects under `layout`.
pub open spec fn storage_spec(flags: u64, layout: StringLayout) -> Storage {
    if flags & layout.noembed != 0 {
        Storage::Heap
    } else {
        Storage::Embedded { len: (flags & layout.embed_len_mask) >> layout.embed_len_shift }
    }
}

/// The text that `bytes` hold, or the encoding error when they are not
/// well-formed UTF-8.
pub open spec fn text_spec(bytes: Seq<u8>) -> Result<Seq<char>, Error> {
    if valid_utf8(bytes) {
        Ok(decode_utf8(bytes))
    } else {
        Err(Error::Encoding(EncodingFault::InvalidBytes))
    }
}

/// Whether an encoding index labels UTF-8 or its subset US-ASCII.
pub open spec fn utf8_compatible_spec(enc_index: i32, ruby: Ruby) -> bool {
    enc_index == ruby.utf8_index() || enc_index == ruby.usascii_index()
}

/// The borrowed text of a string: its label must be UTF-8 compatible, and
/// its bytes must then be well-formed too.
pub open spec fn as_str_spec(bytes: Seq<u8>, enc_index: i32, ruby: Ruby) -> Result<
    Seq<char>,
    Error,
> {
    if !utf8_compatible_spec(enc_index, ruby) {
        Err(Error::Encoding(EncodingFault::NotUtf8Label { enc_index }))
    } else {
        text_spec(bytes)
    }
}

/// The owned text of a string: its own bytes when the label is UTF-8
/// compatible, else the outcome of re-encoding it to UTF-8; then validated.
pub open spec fn to_string_spec(
    bytes: Seq<u8>,
    enc_index: i32,
    ruby: Ruby,
    converted: Option<Result<Seq<u8>, Error>>,
) -> Result<Seq<char>, Error> {
    if utf8_compatible_spec(enc_index, ruby) {
        text_spec(bytes)
    } else {
        match converted {
            Some(Ok(b)) => text_spec(b),
            Some(Err(e)) => Err(e),
            None => Err(Error::Encoding(EncodingFault::NotUtf8Label { enc_index })),
        }
    }
}

/// The single character of a string, or why it has none.
pub open spec fn to_char_spec(
    bytes: Seq<u8>,
    enc_index: i32,
    ruby: Ruby,
    converted: Option<Result<Seq<u8>, Error>>,
) -> Result<char, Error> {
    match to_string_spec(bytes, enc_index, ruby, converted) {
        Err(e) => Err(e),
        Ok(t) => if t.len() == 1 {
            Ok(t[0])
        } else {
            Err(Error::Type(TypeFault::NotSingleChar { chars: t.len() as usize }))
        },
    }
}

/// Names what `String::from_utf8_lossy` makes of a byte sequence.
pub uninterp spec fn lossy_utf8(bytes: Seq<u8>) -> Seq<char>;

/// Relies on `std::str::from_utf8`: it accepts exactly the well-formed UTF-8
/// sequences and views them as the text they encode.
#[verifier::external_body]
fn utf8_view(bytes: &[u8]) -> (r: Option<&str>)
    ensures
        r.is_some() <==> valid_utf8(bytes@),
        r matches Some(s) ==> s@ == decode_utf8(bytes@),
{
    std::str::from_utf8(bytes).ok()
}

/// Relies on `String::from_utf8_lossy`: well-formed input comes back as its
/// text; each ill-formed sequence becomes U+FFFD.
#[verifier::external_body]
pub(crate) fn lossy_text(bytes: &[u8]) -> (r: String)
    ensures
        r@ == lossy_utf8(bytes@),
        valid_utf8(bytes@) ==> r@ == decode_utf8(bytes@),
{
    String::from_utf8_lossy(bytes).into_owned()
}

/// Relies on `char::to_string`: the text of one character.
#[verifier::external_body]
fn char_text(c: char) -> (r: String)
    ensures
        r@ == seq![c],
{
    c.to_string()
}

/// The encoding that a newly created string is labelled with.
#[derive(Clone, Copy, PartialEq, Eq, Structural, Debug)]
pub enum NewEncoding {
    Utf8,
    Binary,
}

/// A request that creates a string object.
pub enum StringRequest {
    /// A string holding exactly `bytes`.
    New { bytes: Vec<u8>, encoding: NewEncoding },
    /// An empty string with room for `capacity` bytes.
    Buffer { capacity: i64, encoding: NewEncoding },
}

/// The bytes and label of the string that a request creates: the given
/// bytes, or none for an empty buffer.
pub open spec fn created_spec(req: StringRequest) -> (Seq<u8>, NewEncoding) {
    match req {
        StringRequest::New { bytes, encoding } => (bytes@, encoding),
        StringRequest::Buffer { encoding, .. } => (Seq::empty(), encoding),
    }
}

/// The encoding index of a created string's label; binary strings carry
/// the runtime's binary index, which is neither UTF-8 nor US-ASCII.
pub open spec fn label_index_spec(e: NewEncoding, ruby: Ruby, binary_index: i32) -> i32 {
    match e {
        NewEncoding::Utf8 => ruby.utf8_index(),
        NewEncoding::Binary => binary_index,
    }
}

/// How a value becomes a string: at once, or through a runtime call.
pub enum StringConversion {
    Done(RString),
    Call(RuntimeCall),
}

/// A handle known to refer to a string object.
#[derive(Clone, Copy, PartialEq, Eq, Structural, Debug)]
pub struct RString {
    value: NonZeroValue,
}

impl View for RString {
    type V = u64;

    closed spec fn view(&self) -> u64 {
        self.value@
    }
}

/// The string overlay that a downcast of `val` with reported tag `tag` gives.
pub open spec fn string_downcast_spec(val: Value, tag: ValueType) -> Option<u64> {
    if tag == ValueType::String && val@ != 0 {
        Some(val@)
    } else {
        None
    }
}

/// The text of a string as a character sequence, or its error; used to
/// relate a `Result<String, _>` to its specification.
pub open spec fn text_matches(r: Result<String, Error>, s: Result<Seq<char>, Error>) -> bool {
    match r {
        Ok(t) => s == Ok::<Seq<char>, Error>(t@),
        Err(e) => s == Err::<Seq<char>, Error>(e),
    }
}

impl RString {
    /// `Some` exactly when the runtime reports `val` as a string object.
    pub fn from_value(val: Value, tag: ValueType) -> (r: Option<RString>)
        ensures
            r matches Some(s) ==> string_downcast_spec(val, tag) == Some(s@),
            r.is_none() ==> string_downcast_spec(val, tag).is_none(),
    {
        if tag == ValueType::String {
            match NonZeroValue::new(val) {
                Some(v) => Some(RString { value: v }),
                None => None,
            }
        } else {
            None
        }
    }

    /// The handle, without the brand.
    pub fn as_value(self) -> (r: Value)
        ensures
            r@ == self@,
            r@ != 0,
    {
        self.value.get()
    }

    /// Converts any value to a string: a string is taken as it is; anything
    /// else needs the runtime's implicit conversion, whose outcome is read
    /// with `string_result`.
    pub fn try_convert(val: Value, tag: ValueType) -> (r: StringConversion)
        ensures
            string_downcast_spec(val, tag) matches Some(b) ==> (r matches StringConversion::Done(s)
                && s@ == b),
            string_downcast_spec(val, tag).is_none() ==> (r matches StringConversion::Call(
                RuntimeCall::StrToStr { value },
            ) && value == val),
    {
        match RString::from_value(val, tag) {
            Some(s) => StringConversion::Done(s),
            None => StringConversion::Call(RuntimeCall::StrToStr { value: val }),
        }
    }

    /// Reads the outcome of a string-producing request (creation,
    /// `encode_utf8`): a raise is passed on, and a returned word that the
    /// runtime does not report as a string is a type error.
    pub fn string_result(o: ProtectOutcome, tag: ValueType) -> (r: Result<RString, Error>)
        ensures
            r matches Ok(s) ==> protected_spec(o) matches Ok(v) && string_downcast_spec(v, tag)
                == Some(s@),
            r matches Err(e) ==> match protected_spec(o) {
                Err(e2) => e == e2,
                Ok(v) => string_downcast_spec(v, tag).is_none() && e == Error::Type(
                    TypeFault::NotString,
                ),
            },
    {
        match protect(o) {
            Err(e) => Err(e),
            Ok(v) => match RString::from_value(v, tag) {
                Some(s) => Ok(s),
                None => Err(Error::Type(TypeFault::NotString)),
            },
        }
    }

    /// The request for a UTF-8 string holding the text `s`.
    pub fn new(s: &str) -> (r: StringRequest)
        ensures
            created_spec(r) == (encode_utf8(s@), NewEncoding::Utf8),
    {
        let bytes = slice_to_vec(s.as_bytes());
        StringRequest::New { bytes, encoding: NewEncoding::Utf8 }
    }

    /// The request for an empty binary string with room for `n` bytes.
    pub fn buf_new(n: usize) -> (r: StringRequest)
        requires
            n <= i64::MAX,
        ensures
            created_spec(r) == (Seq::<u8>::empty(), NewEncoding::Binary),
            r matches StringRequest::Buffer { capacity, .. } && capacity == n,
    {
        StringRequest::Buffer { capacity: n as i64, encoding: NewEncoding::Binary }
    }

    /// The request for an empty UTF-8 string with room for `n` bytes.
    pub fn with_capacity(n: usize) -> (r: StringRequest)
        requires
            n <= i64::MAX,
        ensures
            created_spec(r) == (Seq::<u8>::empty(), NewEncoding::Utf8),
            r matches StringRequest::Buffer { capacity, .. } && capacity == n,
    {
        StringRequest::Buffer { capacity: n as i64, encoding: NewEncoding::Utf8 }
    }

    /// The request for a binary string holding exactly `s`.
    pub fn from_slice(s: &[u8]) -> (r: StringRequest)
        ensures
            created_spec(r) == (s@, NewEncoding::Binary),
    {
        StringRequest::New { bytes: slice_to_vec(s), encoding: NewEncoding::Binary }
    }

    /// The request for a UTF-8 string holding the one character `c`.
    pub fn from_char(c: char) -> (r: StringRequest)
        ensures
            created_spec(r) == (encode_utf8(seq![c]), NewEncoding::Utf8),
    {
        let t = char_text(c);
        RString::new(t.as_str())
    }

    /// Where the bytes of a string with header `flags` live: on the heap
    /// when the no-embed flag is set, else inline with the length packed in
    /// the header.
    pub fn storage(flags: u64, layout: StringLayout) -> (r: Storage)
        requires
            layout.wf(),
        ensures
            r == storage_spec(flags, layout),
    {
        if flags & layout.noembed != 0 {
            Storage::Heap
        } else {
            Storage::Embedded { len: (flags & layout.embed_len_mask) >> layout.embed_len_shift }
        }
    }

    /// True exactly when the encoding index is UTF-8's or US-ASCII's. The
    /// label promises nothing about the bytes.
    pub fn is_utf8_compatible_encoding(enc_index: i32, ruby: &Ruby) -> (r: bool)
        ensures
            r == utf8_compatible_spec(enc_index, *ruby),
    {
        enc_index == ruby.utf8_encindex() || enc_index == ruby.usascii_encindex()
    }

    /// The request that re-encodes `self` to UTF-8 into a new string; read
    /// its outcome with `string_result`.
    pub fn encode_utf8(self) -> (r: RuntimeCall)
        ensures
            r matches RuntimeCall::StrConvEncUtf8 { string } && string@ == self@,
    {
        RuntimeCall::StrConvEncUtf8 { string: self.as_value() }
    }

    /// A borrowed view of a string's bytes as text: an error when the label
    /// is not UTF-8 compatible, or when the bytes are not well-formed.
    pub fn as_str<'a>(bytes: &'a [u8], enc_index: i32, ruby: &Ruby) -> (r: Result<&'a str, Error>)
        ensures
            match r {
                Ok(t) => as_str_spec(bytes@, enc_index, *ruby) == Ok::<Seq<char>, Error>(t@),
                Err(e) => as_str_spec(bytes@, enc_index, *ruby) == Err::<Seq<char>, Error>(e),
            },
    {
        if !RString::is_utf8_compatible_encoding(enc_index, ruby) {
            return Err(Error::Encoding(EncodingFault::NotUtf8Label { enc_index }));
        }
        match utf8_view(bytes) {
            Some(t) => Ok(t),
            None => Err(Error::Encoding(EncodingFault::InvalidBytes)),
        }
    }

    /// The bytes as text, ignoring the label; ill-formed sequences are
    /// replaced, so this never fails.
    pub fn to_string_lossy(bytes: &[u8]) -> (r: String)
        ensures
            r@ == lossy_utf8(bytes@),
            valid_utf8(bytes@) ==> r@ == decode_utf8(bytes@),
    {
        lossy_text(bytes)
    }

    /// The text of a string as an owned `String`. `bytes` and `enc_index`
    /// are the string's own; when its label is not UTF-8 compatible,
    /// `converted` is the outcome of `encode_utf8` (the new string's bytes).
    pub fn to_string(
        bytes: &[u8],
        enc_index: i32,
        ruby: &Ruby,
        converted: Option<Result<Vec<u8>, Error>>,
    ) -> (r: Result<String, Error>)
        ensures
            text_matches(
                r,
                to_string_spec(
                    bytes@,
                    enc_index,
                    *ruby,
                    match converted {
                        Some(Ok(b)) => Some(Ok(b@)),
                        Some(Err(e)) => Some(Err(e)),
                        None => None,
                    },
                ),
            ),
    {
        if RString::is_utf8_compatible_encoding(enc_index, ruby) {
            match utf8_view(bytes) {
                Some(t) => Ok(t.to_owned()),
                None => Err(Error::Encoding(EncodingFault::InvalidBytes)),
            }
        } else {
            match converted {
                Some(Ok(b)) => match utf8_view(b.as_slice()) {
                    Some(t) => Ok(t.to_owned()),
                    None => Err(Error::Encoding(EncodingFault::InvalidBytes)),
                },
                Some(Err(e)) => Err(e),
                None => Err(Error::Encoding(EncodingFault::NotUtf8Label { enc_index })),
            }
        }
    }
    /// The one character of a string's text (see `to_string` for the
    /// arguments); a type error when the text has any other length.
    pub fn to_char(
        bytes: &[u8],
        enc_index: i32,
        ruby: &Ruby,
        converted: Option<Result<Vec<u8>, Error>>,
    ) -> (r: Result<char, Error>)
        ensures
            r == to_char_spec(
                bytes@,
                enc_index,
                *ruby,
                match converted {
                    Some(Ok(b)) => Some(Ok(b@)),
                    Some(Err(e)) => Some(Err(e)),
                    None => None,
                },
            ),
    {
        let text = RString::to_string(bytes, enc_index, ruby, converted);
        match text {
            Err(e) => Err(e),
            Ok(t) => {
                let n = t.as_str().unicode_len();
                if n == 1 {
                    Ok(t.as_str().get_char(0))
                } else {
                    Err(Error::Type(TypeFault::NotSingleChar { chars: n }))
                }
            },
        }
    }

    /// Whether a string with header `flags` is interned.
    pub fn is_interned(flags: u64, layout: StringLayout) -> (r: bool)
        ensures
            r == (flags & layout.fstr != 0),
    {
        flags & layout.fstr != 0
    }

    /// `Some` exactly when the string with header `flags` is interned.
    pub fn as_interned_str(self, flags: u64, layout: StringLayout) -> (r: Option<FString>)
        ensures
            r.is_some() == (flags & layout.fstr != 0),
            r matches Some(f) ==> f@ == self@,
    {
        if RString::is_interned(flags, layout) {
            Some(FString { string: self })
        } else {
            None
        }
    }

    /// The request that interns and freezes `self`; read its outcome with
    /// `interned_result`. Once interned, a string is never collected.
    pub fn to_interned_str(self) -> (r: RuntimeCall)
        ensures
            r matches RuntimeCall::StrToInternedStr { string } && string@ == self@,
    {
        RuntimeCall::StrToInternedStr { string: self.as_value() }
    }

    /// Reads the outcome of `to_interned_str`: the interned string it
    /// returned, which must be reported as a string.
    pub fn interned_result(o: ProtectOutcome, tag: ValueType) -> (r: Result<FString, Error>)
        ensures
            r matches Ok(f) ==> protected_spec(o) matches Ok(v) && string_downcast_spec(v, tag)
                == Some(f@),
            r.is_err() ==> !(protected_spec(o) matches Ok(v) && string_downcast_spec(
                v,
                tag,
            ).is_some()),
    {
        match RString::string_result(o, tag) {
            Ok(s) => Ok(FString { string: s }),
            Err(e) => Err(e),
        }
    }

    /// The request that appends `other` to `self`; the runtime raises when
    /// the two encodings are not compatible.
    pub fn append(self, other: RString) -> (r: RuntimeCall)
        ensures
            r matches RuntimeCall::StrBufAppend { string, other: o } && string@ == self@ && o@
                == other@,
    {
        RuntimeCall::StrBufAppend { string: self.as_value(), other: other.as_value() }
    }

    /// Reads the outcome of `append`: `Ok` unless the runtime raised.
    pub fn append_result(o: ProtectOutcome) -> (r: Result<(), Error>)
        ensures
            r is Ok <==> o.state == 0,
            r matches Err(e) ==> e == Error::Raised(o.exception),
    {
        match protect(o) {
            Ok(_) => Ok(()),
            Err(e) => Err(e),
        }
    }

    /// The request that appends the raw bytes `buf` to `self`. This ignores
    /// the string's encoding and may leave bytes that are invalid for it: an
    /// escape hatch meant for binary strings.
    pub fn cat(self, buf: &[u8]) -> (r: RuntimeCall)
        requires
            buf.len() <= i64::MAX,
        ensures
            r matches RuntimeCall::StrCat { string, bytes, len } && string@ == self@ && bytes@
                == buf@ && len == buf.len(),
    {
        RuntimeCall::StrCat { string: self.as_value(), bytes: slice_to_vec(buf), len: buf.len() as i64 }
    }
}

/// A string known to be interned: it is frozen and never collected, so its
/// bytes can be held for the rest of the process.
#[derive(Clone, Copy, PartialEq, Eq, Structural, Debug)]
pub struct FString {
    string: RString,
}

impl View for FString {
    type V = u64;

    closed spec fn view(&self) -> u64 {
        self.string@
    }
}

impl FString {
    /// The interned string as a plain string overlay.
    pub fn as_r_string(self) -> (r: RString)
        ensures
            r@ == self@,
    {
        self.string
    }

    /// The interned bytes as text (see `RString::as_str`).
    pub fn as_str<'a>(bytes: &'a [u8], enc_index: i32, ruby: &Ruby) -> (r: Result<&'a str, Error>)
        ensures
            match r {
                Ok(t) => as_str_spec(bytes@, enc_index, *ruby) == Ok::<Seq<char>, Error>(t@),
                Err(e) => as_str_spec(bytes@, enc_index, *ruby) == Err::<Seq<char>, Error>(e),
            },
    {
        RString::as_str(bytes, enc_index, ruby)
    }

    /// The interned bytes as text, ignoring the label; never fails.
    pub fn to_string_lossy(bytes: &[u8]) -> (r: String)
        ensures
            r@ == lossy_utf8(bytes@),
            valid_utf8(bytes@) ==> r@ == decode_utf8(bytes@),
    {
        lossy_text(bytes)
    }
}

} // verus!

verus! {

/// A downcast to a string never errs either way: for a non-zero handle it
/// succeeds exactly when the reported tag is the string tag.
pub proof fn lemma_string_downcast_exact(val: Value, tag: ValueType)
    requires
        val@ != 0,
    ensures
        string_downcast_spec(val, tag).is_some() <==> tag == ValueType::String,
        string_downcast_spec(val, tag).is_some() <==> crate::value::type_code(tag)
            == crate::value::type_code(ValueType::String),
{
    crate::value::lemma_type_code_injective(tag, ValueType::String);
}

/// A string created from text `s` reads back as exactly `s`, whatever its
/// length and so whichever storage the runtime picks for it.
pub proof fn lemma_new_to_string_round_trip(
    s: Seq<char>,
    ruby: Ruby,
    binary_index: i32,
    converted: Option<Result<Seq<u8>, Error>>,
)
    ensures
        to_string_spec(
            encode_utf8(s),
            label_index_spec(NewEncoding::Utf8, ruby, binary_index),
            ruby,
            converted,
        ) == Ok::<Seq<char>, Error>(s),
{
}

/// An empty UTF-8 buffer of any capacity has no bytes and a UTF-8
/// compatible label.
pub proof fn lemma_with_capacity_empty_utf8(capacity: i64, ruby: Ruby, binary_index: i32)
    ensures
        ({
            let (bytes, enc) = created_spec(
                StringRequest::Buffer { capacity, encoding: NewEncoding::Utf8 },
            );
            bytes.len() == 0 && utf8_compatible_spec(
                label_index_spec(enc, ruby, binary_index),
                ruby,
            )
        }),
{
}

/// UTF-8 and US-ASCII labels are UTF-8 compatible; any third label is not.
pub proof fn lemma_utf8_compatible_labels(ruby: Ruby, other: i32)
    requires
        other != ruby.utf8_index(),
        other != ruby.usascii_index(),
    ensures
        utf8_compatible_spec(ruby.utf8_index(), ruby),
        utf8_compatible_spec(ruby.usascii_index(), ruby),
        !utf8_compatible_spec(other, ruby),
{
}

} // verus!

verus! {

/// Rewriting only the storage bits of a header (as promotion from inline to
/// heap storage does) never changes whether the string reads as interned,
/// in a layout whose interned flag is apart from those bits.
pub proof fn lemma_storage_change_keeps_interned(flags: u64, storage_bits: u64, layout: StringLayout)
    requires
        layout.fstr & (layout.noembed | layout.embed_len_mask) == 0,
    ensures
        ({
            let m = layout.noembed | layout.embed_len_mask;
            let changed = (flags & !m) | (storage_bits & m);
            (changed & layout.fstr != 0) == (flags & layout.fstr != 0)
        }),
{
    let m = layout.noembed | layout.embed_len_mask;
    let fstr = layout.fstr;
    assert(fstr & m == 0 ==> (((flags & !m) | (storage_bits & m)) & fstr) == (flags & fstr))
        by (bit_vector);
}

/// The layout of the runtime versions that keep the inline length in the
/// flag word keeps its interned flag apart from its storage bits.
pub proof fn lemma_flag_layout_separates_interned()
    ensures
        RSTRING_FSTR & (RSTRING_NOEMBED | RSTRING_EMBED_LEN_MASK) == 0,
{
    assert(0x2000_0000u64 & (0x2000u64 | 0x7c000u64) == 0) by (bit_vector);
}

} // verus!
