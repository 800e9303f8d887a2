use magnus::call::RuntimeCall;
use magnus::class::{
    array, hash, object, string, unbound_method, BuiltinClass, DefaultAllocCache, RClass, Ruby,
    BUILTIN_COUNT,
};
use magnus::error::{Error, ProtectOutcome, TypeFault};
use magnus::value::{Value, ValueType};

fn registry() -> Ruby {
    let classes: Vec<Value> = (1..=BUILTIN_COUNT as u64).map(|i| Value::from_bits(i * 0x100)).collect();
    Ruby::new(&classes, 1, 2).unwrap()
}

fn class_at(bits: u64) -> RClass {
    RClass::from_value(Value::from_bits(bits), ValueType::Class).unwrap()
}

#[test]
fn registry_needs_every_class() {
    let short: Vec<Value> = (1..BUILTIN_COUNT as u64).map(Value::from_bits).collect();
    assert!(Ruby::new(&short, 1, 2).is_none());
    let mut with_zero: Vec<Value> = (1..=BUILTIN_COUNT as u64).map(Value::from_bits).collect();
    with_zero[4] = Value::from_bits(0);
    assert!(Ruby::new(&with_zero, 1, 2).is_none());
}

#[test]
fn registry_returns_builtins_in_order() {
    let ruby = registry();
    assert_eq!(array(&ruby).as_value().to_bits(), 0x100);
    assert_eq!(hash(&ruby).as_value().to_bits(), 12 * 0x100);
    assert_eq!(object(&ruby).as_value().to_bits(), 21 * 0x100);
    assert_eq!(string(&ruby).as_value().to_bits(), 29 * 0x100);
    assert_eq!(unbound_method(&ruby).as_value().to_bits(), 35 * 0x100);
    assert_eq!(ruby.class_object(), ruby.builtin_class(BuiltinClass::Object));
    assert_eq!(ruby.class_io(), ruby.builtin_class(BuiltinClass::Io));
    assert_eq!(BuiltinClass::UnboundMethod.index(), BUILTIN_COUNT - 1);
}

#[test]
fn class_downcast_matches_tag() {
    let v = Value::from_bits(0x1234);
    assert!(RClass::from_value(v, ValueType::Class).is_some());
    for t in [ValueType::Module, ValueType::String, ValueType::Object, ValueType::Nil, ValueType::IClass] {
        assert!(RClass::from_value(v, t).is_none());
    }
    assert!(RClass::from_value(Value::from_bits(0), ValueType::Class).is_none());
}

#[test]
fn construction_requests() {
    let point = class_at(0x500);
    match RClass::new(point) {
        RuntimeCall::ClassNew { superclass } => assert_eq!(superclass.to_bits(), 0x500),
        _ => panic!("wrong request"),
    }
    match point.new_instance(vec![Value::from_bits(3), Value::from_bits(5)]) {
        RuntimeCall::ClassNewInstance { class, args, argc } => {
            assert_eq!(class.to_bits(), 0x500);
            assert_eq!(args, vec![Value::from_bits(3), Value::from_bits(5)]);
            assert_eq!(argc, 2);
        }
        _ => panic!("wrong request"),
    }
    assert!(matches!(point.obj_alloc(), RuntimeCall::ObjAlloc { class } if class.to_bits() == 0x500));
    assert!(matches!(point.superclass(), RuntimeCall::ClassSuperclass { class } if class.to_bits() == 0x500));
}

#[test]
fn class_results() {
    let ok = ProtectOutcome { result: Value::from_bits(0x700), state: 0, exception: Value::from_bits(0) };
    assert_eq!(RClass::class_result(ok, ValueType::Class).unwrap().as_value().to_bits(), 0x700);
    let nil = ProtectOutcome { result: Value::from_bits(0x08), state: 0, exception: Value::from_bits(0) };
    assert_eq!(RClass::class_result(nil, ValueType::Nil), Err(Error::Type(TypeFault::NotClass)));
    let raised = ProtectOutcome { result: Value::from_bits(0), state: 6, exception: Value::from_bits(0x990) };
    assert_eq!(RClass::class_result(raised, ValueType::Empty), Err(Error::Raised(Value::from_bits(0x990))));
    assert_eq!(RClass::instance_result(ok), Ok(Value::from_bits(0x700)));
    assert_eq!(RClass::instance_result(raised), Err(Error::Raised(Value::from_bits(0x990))));
}

#[test]
fn class_name_copies_text() {
    assert_eq!(RClass::name(b"Hash"), "Hash");
    assert_eq!(RClass::name(b"Bad\xffName"), "Bad\u{fffd}Name");
}

#[test]
fn define_alloc_func_on_its_own_class() {
    let point = class_at(0x500);
    assert!(matches!(point.define_alloc_func(point), RuntimeCall::DefineAllocFunc { class } if class.to_bits() == 0x500));
    assert!(matches!(point.undef_alloc_func(), RuntimeCall::UndefAllocFunc { class } if class.to_bits() == 0x500));
}

#[test]
fn undef_default_alloc_func_only_clears_the_generic_allocator() {
    let point = class_at(0x500);
    let mut cache = DefaultAllocCache::new();
    assert!(!cache.is_set());
    // a host allocator stays
    assert!(point.undef_default_alloc_func(&mut cache, 0xA0, 0xB0).is_none());
    assert!(cache.is_set());
    // the generic one is cleared
    let call = point.undef_default_alloc_func(&mut cache, 0xA0, 0xA0);
    assert!(matches!(call, Some(RuntimeCall::UndefAllocFunc { class }) if class.to_bits() == 0x500));
    // the first capture wins
    assert!(point.undef_default_alloc_func(&mut cache, 0xC0, 0xC0).is_none());
    assert!(point.undef_default_alloc_func(&mut cache, 0xC0, 0xA0).is_some());
    assert_eq!(cache.get_or_init(0xD0), 0xA0);
}

#[test]
fn class_try_convert_needs_a_class() {
    let v = Value::from_bits(0x640);
    assert_eq!(RClass::try_convert(v, ValueType::Class).unwrap().as_value().to_bits(), 0x640);
    assert_eq!(RClass::try_convert(v, ValueType::Module), Err(Error::Type(TypeFault::NotClass)));
    assert_eq!(RClass::try_convert(Value::from_bits(0), ValueType::Class), Err(Error::Type(TypeFault::NotClass)));
}
