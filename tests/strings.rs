use magnus::call::RuntimeCall;
use magnus::class::Ruby;
use magnus::error::{EncodingFault, Error, ProtectOutcome, TypeFault};
use magnus::r_string::{
    FString, NewEncoding, RString, Storage, StringConversion, StringLayout, StringRequest, RSTRING_FSTR,
    RSTRING_NOEMBED,
};
use magnus::value::{Value, ValueType};

const UTF8: i32 = 1;
const USASCII: i32 = 2;
const BINARY: i32 = 0;
const EUC_JP: i32 = 9;

fn registry() -> Ruby {
    let classes: Vec<Value> =
        (1..=magnus::class::BUILTIN_COUNT as u64).map(|i| Value::from_bits(i * 0x100)).collect();
    Ruby::new(&classes, UTF8, USASCII).unwrap()
}

fn string_at(bits: u64) -> RString {
    RString::from_value(Value::from_bits(bits), ValueType::String).unwrap()
}

fn created(req: StringRequest) -> (Vec<u8>, NewEncoding) {
    match req {
        StringRequest::New { bytes, encoding } => (bytes, encoding),
        StringRequest::Buffer { encoding, .. } => (Vec::new(), encoding),
    }
}

#[test]
fn string_downcast_matches_tag() {
    let v = Value::from_bits(0x4410);
    assert!(RString::from_value(v, ValueType::String).is_some());
    for t in [ValueType::Class, ValueType::Symbol, ValueType::Array, ValueType::Empty] {
        assert!(RString::from_value(v, t).is_none());
    }
}

#[test]
fn new_from_text_round_trips() {
    let ruby = registry();
    let long = "x".repeat(200) + "é漢字🎉";
    for s in ["", "hello", "héllo wörld", long.as_str()] {
        let (bytes, enc) = created(RString::new(s));
        assert_eq!(enc, NewEncoding::Utf8);
        assert_eq!(bytes, s.as_bytes());
        assert_eq!(RString::to_string(&bytes, UTF8, &ruby, None).unwrap(), s);
    }
}

#[test]
fn buffers_are_empty() {
    let ruby = registry();
    for n in [0usize, 1, 24, 4096] {
        match RString::with_capacity(n) {
            StringRequest::Buffer { capacity, encoding } => {
                assert_eq!(capacity, n as i64);
                assert_eq!(encoding, NewEncoding::Utf8);
            }
            _ => panic!("wrong request"),
        }
        assert!(RString::is_utf8_compatible_encoding(UTF8, &ruby));
        match RString::buf_new(n) {
            StringRequest::Buffer { capacity, encoding } => {
                assert_eq!(capacity, n as i64);
                assert_eq!(encoding, NewEncoding::Binary);
            }
            _ => panic!("wrong request"),
        }
    }
}

#[test]
fn from_slice_and_from_char() {
    assert_eq!(created(RString::from_slice(&[0, 159, 255])), (vec![0, 159, 255], NewEncoding::Binary));
    assert_eq!(created(RString::from_char('a')), (vec![0x61], NewEncoding::Utf8));
    assert_eq!(created(RString::from_char('é')), (vec![0xC3, 0xA9], NewEncoding::Utf8));
    assert_eq!(created(RString::from_char('🎉')), (vec![0xF0, 0x9F, 0x8E, 0x89], NewEncoding::Utf8));
}

#[test]
fn utf8_compatible_labels() {
    let ruby = registry();
    assert!(RString::is_utf8_compatible_encoding(UTF8, &ruby));
    assert!(RString::is_utf8_compatible_encoding(USASCII, &ruby));
    assert!(!RString::is_utf8_compatible_encoding(EUC_JP, &ruby));
    assert!(!RString::is_utf8_compatible_encoding(BINARY, &ruby));
}

#[test]
fn header_selects_storage() {
    let layout = StringLayout::flag_embedded_len();
    assert_eq!(RString::storage(RSTRING_NOEMBED, layout), Storage::Heap);
    assert_eq!(RString::storage(RSTRING_NOEMBED | (5 << 14), layout), Storage::Heap);
    assert_eq!(RString::storage(5 << 14, layout), Storage::Embedded { len: 5 });
    assert_eq!(RString::storage(0, layout), Storage::Embedded { len: 0 });
    assert_eq!(RString::storage((23 << 14) | RSTRING_FSTR | 0x5, layout), Storage::Embedded { len: 23 });
    let other = StringLayout { noembed: 1 << 13, embed_len_mask: 0x7f << 15, embed_len_shift: 15, fstr: 1 << 29 };
    assert_eq!(RString::storage(9 << 15, other), Storage::Embedded { len: 9 });
}

#[test]
fn as_str_checks_label_and_bytes() {
    let ruby = registry();
    assert_eq!(RString::as_str(b"abc", UTF8, &ruby), Ok("abc"));
    assert_eq!(RString::as_str(b"abc", USASCII, &ruby), Ok("abc"));
    assert_eq!(
        RString::as_str(b"abc", EUC_JP, &ruby),
        Err(Error::Encoding(EncodingFault::NotUtf8Label { enc_index: EUC_JP }))
    );
    assert_eq!(RString::as_str(b"ab\xff", UTF8, &ruby), Err(Error::Encoding(EncodingFault::InvalidBytes)));
    assert_eq!(FString::as_str("ünï".as_bytes(), UTF8, &ruby), Ok("ünï"));
}

#[test]
fn to_string_reencodes_when_needed() {
    let ruby = registry();
    let converted = Some(Ok("é".as_bytes().to_vec()));
    assert_eq!(RString::to_string(&[0xA9, 0xE9], EUC_JP, &ruby, converted).unwrap(), "é");
    let raised = Some(Err(Error::Raised(Value::from_bits(0x60))));
    assert_eq!(RString::to_string(&[0xFF], EUC_JP, &ruby, raised), Err(Error::Raised(Value::from_bits(0x60))));
    assert_eq!(
        RString::to_string(&[0xC3], UTF8, &ruby, None),
        Err(Error::Encoding(EncodingFault::InvalidBytes))
    );
    assert_eq!(
        RString::to_string(b"a", EUC_JP, &ruby, None),
        Err(Error::Encoding(EncodingFault::NotUtf8Label { enc_index: EUC_JP }))
    );
}

#[test]
fn to_char_needs_one_character() {
    let ruby = registry();
    assert_eq!(RString::to_char("z".as_bytes(), UTF8, &ruby, None), Ok('z'));
    assert_eq!(RString::to_char("漢".as_bytes(), UTF8, &ruby, None), Ok('漢'));
    assert_eq!(
        RString::to_char(b"ab", UTF8, &ruby, None),
        Err(Error::Type(TypeFault::NotSingleChar { chars: 2 }))
    );
    assert_eq!(
        RString::to_char(b"", USASCII, &ruby, None),
        Err(Error::Type(TypeFault::NotSingleChar { chars: 0 }))
    );
    assert_eq!(RString::to_char(b"\xff", UTF8, &ruby, None), Err(Error::Encoding(EncodingFault::InvalidBytes)));
}

#[test]
fn lossy_text_replaces_bad_bytes() {
    assert_eq!(RString::to_string_lossy(b"ok"), "ok");
    assert_eq!(RString::to_string_lossy(b"a\xffb"), "a\u{fffd}b");
    assert_eq!(FString::to_string_lossy(b"\xc3\xa9\xc3"), "é\u{fffd}");
}

#[test]
fn interning_follows_the_flag() {
    let layout = StringLayout::flag_embedded_len();
    let s = string_at(0x880);
    assert!(RString::is_interned(RSTRING_FSTR, layout));
    assert!(!RString::is_interned(RSTRING_NOEMBED, layout));
    assert!(s.as_interned_str(RSTRING_NOEMBED | (3 << 14), layout).is_none());
    let f = s.as_interned_str(RSTRING_FSTR | RSTRING_NOEMBED, layout).unwrap();
    assert_eq!(f.as_r_string(), s);
    assert!(matches!(s.to_interned_str(), RuntimeCall::StrToInternedStr { string } if string.to_bits() == 0x880));
    let ok = ProtectOutcome { result: Value::from_bits(0x990), state: 0, exception: Value::from_bits(0) };
    assert_eq!(RString::interned_result(ok, ValueType::String).unwrap().as_r_string().as_value().to_bits(), 0x990);
}

#[test]
fn append_can_fail_but_cat_carries_raw_bytes() {
    let a = string_at(0x100);
    let b = string_at(0x200);
    assert!(matches!(a.append(b), RuntimeCall::StrBufAppend { string, other }
        if string.to_bits() == 0x100 && other.to_bits() == 0x200));
    let incompatible = ProtectOutcome { result: Value::from_bits(0), state: 6, exception: Value::from_bits(0x777) };
    assert_eq!(RString::append_result(incompatible), Err(Error::Raised(Value::from_bits(0x777))));
    let fine = ProtectOutcome { result: Value::from_bits(0x100), state: 0, exception: Value::from_bits(0) };
    assert_eq!(RString::append_result(fine), Ok(()));
    match a.cat(&[0xE9, 0xFF]) {
        RuntimeCall::StrCat { string, bytes, len } => {
            assert_eq!(string.to_bits(), 0x100);
            assert_eq!(bytes, vec![0xE9, 0xFF]);
            assert_eq!(len, 2);
        }
        _ => panic!("wrong request"),
    }
}

#[test]
fn encode_utf8_request_and_result() {
    let s = string_at(0x300);
    assert!(matches!(s.encode_utf8(), RuntimeCall::StrConvEncUtf8 { string } if string.to_bits() == 0x300));
    let ok = ProtectOutcome { result: Value::from_bits(0x310), state: 0, exception: Value::from_bits(0) };
    assert_eq!(RString::string_result(ok, ValueType::String).unwrap().as_value().to_bits(), 0x310);
    let raised = ProtectOutcome { result: Value::from_bits(0), state: 6, exception: Value::from_bits(0x320) };
    assert_eq!(RString::string_result(raised, ValueType::Empty), Err(Error::Raised(Value::from_bits(0x320))));
}

#[test]
fn string_try_convert_asks_runtime_only_for_non_strings() {
    let v = Value::from_bits(0x720);
    match RString::try_convert(v, ValueType::String) {
        StringConversion::Done(s) => assert_eq!(s.as_value(), v),
        _ => panic!("a string needs no conversion"),
    }
    match RString::try_convert(v, ValueType::Symbol) {
        StringConversion::Call(RuntimeCall::StrToStr { value }) => assert_eq!(value, v),
        _ => panic!("a symbol needs the runtime's conversion"),
    }
    let nil = ProtectOutcome { result: Value::from_bits(0x08), state: 0, exception: Value::from_bits(0) };
    assert_eq!(RString::string_result(nil, ValueType::Nil), Err(Error::Type(TypeFault::NotString)));
}

#[test]
fn promotion_keeps_the_interned_flag() {
    let layout = StringLayout::flag_embedded_len();
    let inline = RSTRING_FSTR | (7 << 14);
    let promoted = (inline & !(RSTRING_NOEMBED | 0x7c000)) | RSTRING_NOEMBED;
    assert_eq!(RString::storage(inline, layout), Storage::Embedded { len: 7 });
    assert_eq!(RString::storage(promoted, layout), Storage::Heap);
    assert!(RString::is_interned(inline, layout));
    assert!(RString::is_interned(promoted, layout));
}
