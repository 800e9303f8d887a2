use magnus::error::{protect, Error, ProtectOutcome};
use magnus::value::{NonZeroValue, Value, ValueType};

#[test]
fn value_bits_round_trip() {
    for bits in [0u64, 1, 8, 0x14, u64::MAX] {
        assert_eq!(Value::from_bits(bits).to_bits(), bits);
    }
    assert_eq!(Value::from_bits(42), Value::from_bits(42));
    assert_ne!(Value::from_bits(42), Value::from_bits(43));
}

#[test]
fn non_zero_value_rejects_zero() {
    assert!(NonZeroValue::new(Value::from_bits(0)).is_none());
    let n = NonZeroValue::new(Value::from_bits(0x7f00)).unwrap();
    assert_eq!(n.get().to_bits(), 0x7f00);
}

#[test]
fn value_type_codes_round_trip() {
    let all = [
        ValueType::Empty,
        ValueType::Object,
        ValueType::Class,
        ValueType::Module,
        ValueType::Float,
        ValueType::String,
        ValueType::Regexp,
        ValueType::Array,
        ValueType::Hash,
        ValueType::Struct,
        ValueType::Bignum,
        ValueType::File,
        ValueType::Data,
        ValueType::Match,
        ValueType::Complex,
        ValueType::Rational,
        ValueType::Nil,
        ValueType::True,
        ValueType::False,
        ValueType::Symbol,
        ValueType::Fixnum,
        ValueType::Undef,
        ValueType::IMemo,
        ValueType::Node,
        ValueType::IClass,
        ValueType::Zombie,
        ValueType::Moved,
    ];
    for t in all {
        assert_eq!(ValueType::from_code(t.code()), Some(t));
    }
    assert_eq!(ValueType::Class.code(), 0x02);
    assert_eq!(ValueType::String.code(), 0x05);
    assert_eq!(ValueType::from_code(0x10), None);
    assert_eq!(ValueType::from_code(0x99), None);
}

#[test]
fn protect_passes_values_and_raises() {
    let ok = ProtectOutcome { result: Value::from_bits(0x50), state: 0, exception: Value::from_bits(0) };
    assert_eq!(protect(ok), Ok(Value::from_bits(0x50)));
    let raised = ProtectOutcome { result: Value::from_bits(0), state: 6, exception: Value::from_bits(0x90) };
    assert_eq!(protect(raised), Err(Error::Raised(Value::from_bits(0x90))));
}
