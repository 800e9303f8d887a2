//! Class objects: the typed overlay, the registry of built-in classes, and
//! the two-phase construction protocol with its allocator slot.

use vstd::prelude::*;

use crate::call::RuntimeCall;
use crate::error::{protect, protected_spec, Error, ProtectOutcome, TypeFault};
use crate::r_string::{lossy_text, lossy_utf8};
use crate::value::{NonZeroValue, Value, ValueType};
use vstd::utf8::{decode_utf8, valid_utf8};

verus! {

/// A handle known to refer to a class object.
#[derive(Clone, Copy, PartialEq, Eq, Structural, Debug)]
pub struct RClass {
    value: NonZeroValue,
}

impl View for RClass {
    type V = u64;

    closed spec fn view(&self) -> u64 {
        self.value@
    }
}

/// The class overlay that a downcast of `val` with reported tag `tag` gives.
pub open spec fn class_downcast_spec(val: Value, tag: ValueType) -> Option<u64> {
    if tag == ValueType::Class && val@ != 0 {
        Some(val@)
    } else {
        None
    }
}

/// The class that a protected class-producing call gives: the returned word
/// must be reported as a class.
pub open spec fn class_result_spec(o: ProtectOutcome, tag: ValueType) -> Result<u64, Error> {
    match protected_spec(o) {
        Err(e) => Err(e),
        Ok(v) => match class_downcast_spec(v, tag) {
            Some(c) => Ok(c),
            None => Err(Error::Type(TypeFault::NotClass)),
        },
    }
}

impl RClass {
    /// `Some` exactly when the runtime reports `val` as a class object.
    pub fn from_value(val: Value, tag: ValueType) -> (r: Option<RClass>)
        ensures
            r matches Some(c) ==> class_downcast_spec(val, tag) == Some(c@),
            r.is_none() ==> class_downcast_spec(val, tag).is_none(),
    {
        if tag == ValueType::Class {
            match NonZeroValue::new(val) {
                Some(v) => Some(RClass { value: v }),
                None => None,
            }
        } else {
            None
        }
    }

    /// Converts a value to a class: a type error unless the runtime
    /// reports it as one.
    pub fn try_convert(val: Value, tag: ValueType) -> (r: Result<RClass, Error>)
        ensures
            r matches Ok(c) ==> class_downcast_spec(val, tag) == Some(c@),
            r is Err <==> class_downcast_spec(val, tag).is_none(),
            r matches Err(e) ==> e == Error::Type(TypeFault::NotClass),
    {
        match RClass::from_value(val, tag) {
            Some(c) => Ok(c),
            None => Err(Error::Type(TypeFault::NotClass)),
        }
    }

    /// The handle, without the brand.
    pub fn as_value(self) -> (r: Value)
        ensures
            r@ == self@,
            r@ != 0,
    {
        self.value.get()
    }

    /// The class's name from the runtime's name bytes, copied into an owned
    /// `String`; ill-formed UTF-8 is replaced. The runtime may change or
    /// free its own copy later, so this one is taken at once.
    pub fn name(name_bytes: &[u8]) -> (r: String)
        ensures
            r@ == lossy_utf8(name_bytes@),
            valid_utf8(name_bytes@) ==> r@ == decode_utf8(name_bytes@),
    {
        lossy_text(name_bytes)
    }

    /// The request that creates a new anonymous class under `superclass`.
    pub fn new(superclass: RClass) -> (r: RuntimeCall)
        ensures
            r matches RuntimeCall::ClassNew { superclass: s } && s@ == superclass@,
    {
        RuntimeCall::ClassNew { superclass: superclass.as_value() }
    }

    /// Reads the outcome of a class-producing request (`new`, `superclass`):
    /// a raise is passed on, and a returned word that the runtime does not
    /// report as a class (the root's missing superclass) is a type error.
    pub fn class_result(o: ProtectOutcome, tag: ValueType) -> (r: Result<RClass, Error>)
        ensures
            r matches Ok(c) ==> class_result_spec(o, tag) == Ok::<u64, Error>(c@),
            r matches Err(e) ==> class_result_spec(o, tag) == Err::<u64, Error>(e),
    {
        match protect(o) {
            Err(e) => Err(e),
            Ok(v) => match RClass::from_value(v, tag) {
                Some(c) => Ok(c),
                None => Err(Error::Type(TypeFault::NotClass)),
            },
        }
    }

    /// The request that runs full two-phase construction: allocate with
    /// `self`'s current allocator, then run `initialize` on `args`.
    pub fn new_instance(self, args: Vec<Value>) -> (r: RuntimeCall)
        requires
            args.len() <= i32::MAX,
        ensures
            r matches RuntimeCall::ClassNewInstance { class, args: a, argc }
                && class@ == self@ && a@ == args@ && argc as int == args.len(),
    {
        let argc = args.len() as i32;
        RuntimeCall::ClassNewInstance { class: self.as_value(), args, argc }
    }

    /// The request that runs only the allocate phase, bypassing
    /// `initialize`.
    pub fn obj_alloc(self) -> (r: RuntimeCall)
        ensures
            r matches RuntimeCall::ObjAlloc { class } && class@ == self@,
    {
        RuntimeCall::ObjAlloc { class: self.as_value() }
    }

    /// Reads the outcome of an instance-producing request (`new_instance`,
    /// `obj_alloc`).
    pub fn instance_result(o: ProtectOutcome) -> (r: Result<Value, Error>)
        ensures
            r == protected_spec(o),
    {
        protect(o)
    }

    /// The request that looks up the parent class of `self`; read its
    /// outcome with `class_result`.
    pub fn superclass(self) -> (r: RuntimeCall)
        ensures
            r matches RuntimeCall::ClassSuperclass { class } && class@ == self@,
    {
        RuntimeCall::ClassSuperclass { class: self.as_value() }
    }
}

/// A downcast to a class never errs either way: for a non-zero handle it
/// succeeds exactly when the reported tag is the class tag.
pub proof fn lemma_class_downcast_exact(val: Value, tag: ValueType)
    requires
        val@ != 0,
    ensures
        class_downcast_spec(val, tag).is_some() <==> tag == ValueType::Class,
        class_downcast_spec(val, tag).is_some() <==> crate::value::type_code(tag)
            == crate::value::type_code(ValueType::Class),
{
    crate::value::lemma_type_code_injective(tag, ValueType::Class);
}

/// The runtime's generic allocator, captured the first time it is needed and
/// kept for the rest of the process: the first capture wins.
pub struct DefaultAllocCache {
    cached: Option<u64>,
}

impl DefaultAllocCache {
    /// The captured allocator address, if any.
    pub closed spec fn cached_spec(self) -> Option<u64> {
        self.cached
    }

    /// An empty cache.
    pub fn new() -> (r: DefaultAllocCache)
        ensures
            r.cached_spec().is_none(),
    {
        DefaultAllocCache { cached: None }
    }

    /// Whether the generic allocator has been captured.
    pub fn is_set(&self) -> (r: bool)
        ensures
            r == self.cached_spec().is_some(),
    {
        self.cached.is_some()
    }

    /// The captured allocator; `generic` is captured when nothing is yet.
    pub fn get_or_init(&mut self, generic: u64) -> (r: u64)
        ensures
            r == match old(self).cached_spec() {
                Some(c) => c,
                None => generic,
            },
            final(self).cached_spec() == Some(r),
    {
        match self.cached {
            Some(c) => c,
            None => {
                self.cached = Some(generic);
                generic
            },
        }
    }
}

impl RClass {
    /// The request that installs the allocator of a host type on `self`.
    /// That allocator builds the type's default value, and `initialize`
    /// runs afterwards as usual. `associated` is the class that the host
    /// type is bound to; installing the allocator on any other class is a
    /// programming error, so the two must be the same class.
    pub fn define_alloc_func(self, associated: RClass) -> (r: RuntimeCall)
        requires
            self@ == associated@,
        ensures
            r matches RuntimeCall::DefineAllocFunc { class } && class@ == self@,
    {
        RuntimeCall::DefineAllocFunc { class: self.as_value() }
    }

    /// The request that clears the allocator of `self`.
    pub fn undef_alloc_func(self) -> (r: RuntimeCall)
        ensures
            r matches RuntimeCall::UndefAllocFunc { class } && class@ == self@,
    {
        RuntimeCall::UndefAllocFunc { class: self.as_value() }
    }

    /// Decides whether to clear the allocator of `self`: only when its
    /// current allocator `current` is the runtime's generic one, which is
    /// captured in `cache` from `generic` on first use. A host-defined
    /// allocator is left in place.
    pub fn undef_default_alloc_func(self, cache: &mut DefaultAllocCache, generic: u64, current: u64) -> (r:
        Option<RuntimeCall>)
        ensures
            final(cache).cached_spec() == Some(
                match old(cache).cached_spec() {
                    Some(c) => c,
                    None => generic,
                },
            ),
            r.is_some() <==> final(cache).cached_spec() == Some(current),
            r matches Some(call) ==> call matches RuntimeCall::UndefAllocFunc { class } && class@
                == self@,
    {
        let default_alloc = cache.get_or_init(generic);
        if current == default_alloc {
            Some(self.undef_alloc_func())
        } else {
            None
        }
    }
}

/// The built-in classes that the runtime establishes at start.
#[derive(Clone, Copy, PartialEq, Eq, Structural, Debug)]
pub enum BuiltinClass {
    Array,
    BasicObject,
    Binding,
    Class,
    Complex,
    Dir,
    Encoding,
    Enumerator,
    FalseClass,
    File,
    Float,
    Hash,
    Io,
    Integer,
    Match,
    Method,
    Module,
    NameErrorMesg,
    NilClass,
    Numeric,
    Object,
    Proc,
    Random,
    Range,
    Rational,
    Refinement,
    Regexp,
    Stat,
    String,
    Struct,
    Symbol,
    Thread,
    Time,
    TrueClass,
    UnboundMethod,
}

/// The number of built-in classes in the registry.
pub const BUILTIN_COUNT: usize = 35;

/// The slot of each built-in class in the registry.
pub open spec fn builtin_index(b: BuiltinClass) -> int {
    match b {
        BuiltinClass::Array => 0,
        BuiltinClass::BasicObject => 1,
        BuiltinClass::Binding => 2,
        BuiltinClass::Class => 3,
        BuiltinClass::Complex => 4,
        BuiltinClass::Dir => 5,
        BuiltinClass::Encoding => 6,
        BuiltinClass::Enumerator => 7,
        BuiltinClass::FalseClass => 8,
        BuiltinClass::File => 9,
        BuiltinClass::Float => 10,
        BuiltinClass::Hash => 11,
        BuiltinClass::Io => 12,
        BuiltinClass::Integer => 13,
        BuiltinClass::Match => 14,
        BuiltinClass::Method => 15,
        BuiltinClass::Module => 16,
        BuiltinClass::NameErrorMesg => 17,
        BuiltinClass::NilClass => 18,
        BuiltinClass::Numeric => 19,
        BuiltinClass::Object => 20,
        BuiltinClass::Proc => 21,
        BuiltinClass::Random => 22,
        BuiltinClass::Range => 23,
        BuiltinClass::Rational => 24,
        BuiltinClass::Refinement => 25,
        BuiltinClass::Regexp => 26,
        BuiltinClass::Stat => 27,
        BuiltinClass::String => 28,
        BuiltinClass::Struct => 29,
        BuiltinClass::Symbol => 30,
        BuiltinClass::Thread => 31,
        BuiltinClass::Time => 32,
        BuiltinClass::TrueClass => 33,
        BuiltinClass::UnboundMethod => 34,
    }
}

impl BuiltinClass {
    /// The slot of this class in the registry.
    pub fn index(self) -> (r: usize)
        ensures
            r as int == builtin_index(self),
            r < BUILTIN_COUNT,
    {
        match self {
            BuiltinClass::Array => 0,
            BuiltinClass::BasicObject => 1,
            BuiltinClass::Binding => 2,
            BuiltinClass::Class => 3,
            BuiltinClass::Complex => 4,
            BuiltinClass::Dir => 5,
            BuiltinClass::Encoding => 6,
            BuiltinClass::Enumerator => 7,
            BuiltinClass::FalseClass => 8,
            BuiltinClass::File => 9,
            BuiltinClass::Float => 10,
            BuiltinClass::Hash => 11,
            BuiltinClass::Io => 12,
            BuiltinClass::Integer => 13,
            BuiltinClass::Match => 14,
            BuiltinClass::Method => 15,
            BuiltinClass::Module => 16,
            BuiltinClass::NameErrorMesg => 17,
            BuiltinClass::NilClass => 18,
            BuiltinClass::Numeric => 19,
            BuiltinClass::Object => 20,
            BuiltinClass::Proc => 21,
            BuiltinClass::Random => 22,
            BuiltinClass::Range => 23,
            BuiltinClass::Rational => 24,
            BuiltinClass::Refinement => 25,
            BuiltinClass::Regexp => 26,
            BuiltinClass::Stat => 27,
            BuiltinClass::String => 28,
            BuiltinClass::Struct => 29,
            BuiltinClass::Symbol => 30,
            BuiltinClass::Thread => 31,
            BuiltinClass::Time => 32,
            BuiltinClass::TrueClass => 33,
            BuiltinClass::UnboundMethod => 34,
        }
    }

}


/// The runtime's fixed state that this library reads: the built-in class
/// objects, one per `BuiltinClass`, and the indices of the UTF-8 and
/// US-ASCII encodings.
pub struct Ruby {
    classes: Vec<RClass>,
    utf8_enc_index: i32,
    usascii_enc_index: i32,
}

impl Ruby {
    #[verifier::type_invariant]
    spec fn inv(self) -> bool {
        self.classes.len() == BUILTIN_COUNT
    }

    /// The registered object of a built-in class.
    pub closed spec fn builtin(self, b: BuiltinClass) -> RClass {
        self.classes@[builtin_index(b)]
    }

    /// The runtime's index of the UTF-8 encoding.
    pub closed spec fn utf8_index(self) -> i32 {
        self.utf8_enc_index
    }

    /// The runtime's index of the US-ASCII encoding.
    pub closed spec fn usascii_index(self) -> i32 {
        self.usascii_enc_index
    }

    /// Builds the registry from the class objects that the runtime holds,
    /// in `BuiltinClass` order. `None` when the count is wrong or one of
    /// them is the zero word.
    pub fn new(classes: &Vec<Value>, utf8_enc_index: i32, usascii_enc_index: i32) -> (r: Option<
        Ruby,
    >)
        ensures
            r.is_some() <==> classes.len() == BUILTIN_COUNT && forall|i: int|
                0 <= i < classes.len() ==> #[trigger] classes@[i]@ != 0,
            r matches Some(ruby) ==> {
                &&& forall|b: BuiltinClass| #[trigger] ruby.builtin(b)@ == classes@[builtin_index(b)]@
                &&& ruby.utf8_index() == utf8_enc_index
                &&& ruby.usascii_index() == usascii_enc_index
            },
    {
        if classes.len() != BUILTIN_COUNT {
            return None;
        }
        let mut out: Vec<RClass> = Vec::new();
        let mut i: usize = 0;
        while i < classes.len()
            invariant
                i <= classes.len(),
                out.len() == i,
                forall|j: int| 0 <= j < i ==> #[trigger] classes@[j]@ != 0,
                forall|j: int| 0 <= j < i ==> #[trigger] out@[j]@ == classes@[j]@,
            decreases classes.len() - i,
        {
            match NonZeroValue::new(classes[i]) {
                Some(v) => out.push(RClass { value: v }),
                None => return None,
            }
            i = i + 1;
        }
        let ruby = Ruby { classes: out, utf8_enc_index, usascii_enc_index };
        assert forall|b: BuiltinClass| #[trigger] ruby.builtin(b)@ == classes@[builtin_index(b)]@ by {
            assert(0 <= builtin_index(b) < BUILTIN_COUNT);
        }
        Some(ruby)
    }

    /// The registered object of a built-in class.
    pub fn builtin_class(&self, b: BuiltinClass) -> (r: RClass)
        ensures
            r == self.builtin(b),
    {
        proof {
            use_type_invariant(self);
        }
        self.classes[b.index()]
    }

    /// The runtime's index of the UTF-8 encoding.
    pub fn utf8_encindex(&self) -> (r: i32)
        ensures
            r == self.utf8_index(),
    {
        self.utf8_enc_index
    }

    /// The runtime's index of the US-ASCII encoding.
    pub fn usascii_encindex(&self) -> (r: i32)
        ensures
            r == self.usascii_index(),
    {
        self.usascii_enc_index
    }

    /// The built-in `Array` class.
    pub fn class_array(&self) -> (r: RClass)
        ensures
            r == self.builtin(BuiltinClass::Array),
    {
        self.builtin_class(BuiltinClass::Array)
    }

    /// The built-in `BasicObject` class.
    pub fn class_basic_object(&self) -> (r: RClass)
        ensures
            r == self.builtin(BuiltinClass::BasicObject),
    {
        self.builtin_class(BuiltinClass::BasicObject)
    }

    /// The built-in `Binding` class.
    pub fn class_binding(&self) -> (r: RClass)
        ensures
            r == self.builtin(BuiltinClass::Binding),
    {
        self.builtin_class(BuiltinClass::Binding)
    }

    /// The built-in `Class` class.
    pub fn class_class(&self) -> (r: RClass)
        ensures
            r == self.builtin(BuiltinClass::Class),
    {
        self.builtin_class(BuiltinClass::Class)
    }

    /// The built-in `Complex` class.
    pub fn class_complex(&self) -> (r: RClass)
        ensures
            r == self.builtin(BuiltinClass::Complex),
    {
        self.builtin_class(BuiltinClass::Complex)
    }

    /// The built-in `Dir` class.
    pub fn class_dir(&self) -> (r: RClass)
        ensures
            r == self.builtin(BuiltinClass::Dir),
    {
        self.builtin_class(BuiltinClass::Dir)
    }

    /// The built-in `Encoding` class.
    pub fn class_encoding(&self) -> (r: RClass)
        ensures
            r == self.builtin(BuiltinClass::Encoding),
    {
        self.builtin_class(BuiltinClass::Encoding)
    }

    /// The built-in `Enumerator` class.
    pub fn class_enumerator(&self) -> (r: RClass)
        ensures
            r == self.builtin(BuiltinClass::Enumerator),
    {
        self.builtin_class(BuiltinClass::Enumerator)
    }

    /// The built-in `FalseClass` class.
    pub fn class_false_class(&self) -> (r: RClass)
        ensures
            r == self.builtin(BuiltinClass::FalseClass),
    {
        self.builtin_class(BuiltinClass::FalseClass)
    }

    /// The built-in `File` class.
    pub fn class_file(&self) -> (r: RClass)
        ensures
            r == self.builtin(BuiltinClass::File),
    {
        self.builtin_class(BuiltinClass::File)
    }

    /// The built-in `Float` class.
    pub fn class_float(&self) -> (r: RClass)
        ensures
            r == self.builtin(BuiltinClass::Float),
    {
        self.builtin_class(BuiltinClass::Float)
    }

    /// The built-in `Hash` class.
    pub fn class_hash(&self) -> (r: RClass)
        ensures
            r == self.builtin(BuiltinClass::Hash),
    {
        self.builtin_class(BuiltinClass::Hash)
    }

    /// The built-in `IO` class.
    pub fn class_io(&self) -> (r: RClass)
        ensures
            r == self.builtin(BuiltinClass::Io),
    {
        self.builtin_class(BuiltinClass::Io)
    }

    /// The built-in `Integer` class.
    pub fn class_integer(&self) -> (r: RClass)
        ensures
            r == self.builtin(BuiltinClass::Integer),
    {
        self.builtin_class(BuiltinClass::Integer)
    }

    /// The built-in `MatchData` class.
    pub fn class_match_class(&self) -> (r: RClass)
        ensures
            r == self.builtin(BuiltinClass::Match),
    {
        self.builtin_class(BuiltinClass::Match)
    }

    /// The built-in `Method` class.
    pub fn class_method(&self) -> (r: RClass)
        ensures
            r == self.builtin(BuiltinClass::Method),
    {
        self.builtin_class(BuiltinClass::Method)
    }

    /// The built-in `Module` class.
    pub fn class_module(&self) -> (r: RClass)
        ensures
            r == self.builtin(BuiltinClass::Module),
    {
        self.builtin_class(BuiltinClass::Module)
    }

    /// The built-in `NameError::message` class.
    pub fn class_name_error_mesg(&self) -> (r: RClass)
        ensures
            r == self.builtin(BuiltinClass::NameErrorMesg),
    {
        self.builtin_class(BuiltinClass::NameErrorMesg)
    }

    /// The built-in `NilClass` class.
    pub fn class_nil_class(&self) -> (r: RClass)
        ensures
            r == self.builtin(BuiltinClass::NilClass),
    {
        self.builtin_class(BuiltinClass::NilClass)
    }

    /// The built-in `Numeric` class.
    pub fn class_numeric(&self) -> (r: RClass)
        ensures
            r == self.builtin(BuiltinClass::Numeric),
    {
        self.builtin_class(BuiltinClass::Numeric)
    }

    /// The built-in `Object` class.
    pub fn class_object(&self) -> (r: RClass)
        ensures
            r == self.builtin(BuiltinClass::Object),
    {
        self.builtin_class(BuiltinClass::Object)
    }

    /// The built-in `Proc` class.
    pub fn class_proc(&self) -> (r: RClass)
        ensures
            r == self.builtin(BuiltinClass::Proc),
    {
        self.builtin_class(BuiltinClass::Proc)
    }

    /// The built-in `Random` class.
    pub fn class_random(&self) -> (r: RClass)
        ensures
            r == self.builtin(BuiltinClass::Random),
    {
        self.builtin_class(BuiltinClass::Random)
    }

    /// The built-in `Range` class.
    pub fn class_range(&self) -> (r: RClass)
        ensures
            r == self.builtin(BuiltinClass::Range),
    {
        self.builtin_class(BuiltinClass::Range)
    }

    /// The built-in `Rational` class.
    pub fn class_rational(&self) -> (r: RClass)
        ensures
            r == self.builtin(BuiltinClass::Rational),
    {
        self.builtin_class(BuiltinClass::Rational)
    }

    /// The built-in `Refinement` class.
    pub fn class_refinement(&self) -> (r: RClass)
        ensures
            r == self.builtin(BuiltinClass::Refinement),
    {
        self.builtin_class(BuiltinClass::Refinement)
    }

    /// The built-in `Regexp` class.
    pub fn class_regexp(&self) -> (r: RClass)
        ensures
            r == self.builtin(BuiltinClass::Regexp),
    {
        self.builtin_class(BuiltinClass::Regexp)
    }

    /// The built-in `File::Stat` class.
    pub fn class_stat(&self) -> (r: RClass)
        ensures
            r == self.builtin(BuiltinClass::Stat),
    {
        self.builtin_class(BuiltinClass::Stat)
    }

    /// The built-in `String` class.
    pub fn class_string(&self) -> (r: RClass)
        ensures
            r == self.builtin(BuiltinClass::String),
    {
        self.builtin_class(BuiltinClass::String)
    }

    /// The built-in `Struct` class.
    pub fn class_struct_class(&self) -> (r: RClass)
        ensures
            r == self.builtin(BuiltinClass::Struct),
    {
        self.builtin_class(BuiltinClass::Struct)
    }

    /// The built-in `Symbol` class.
    pub fn class_symbol(&self) -> (r: RClass)
        ensures
            r == self.builtin(BuiltinClass::Symbol),
    {
        self.builtin_class(BuiltinClass::Symbol)
    }

    /// The built-in `Thread` class.
    pub fn class_thread(&self) -> (r: RClass)
        ensures
            r == self.builtin(BuiltinClass::Thread),
    {
        self.builtin_class(BuiltinClass::Thread)
    }

    /// The built-in `Time` class.
    pub fn class_time(&self) -> (r: RClass)
        ensures
            r == self.builtin(BuiltinClass::Time),
    {
        self.builtin_class(BuiltinClass::Time)
    }

    /// The built-in `TrueClass` class.
    pub fn class_true_class(&self) -> (r: RClass)
        ensures
            r == self.builtin(BuiltinClass::TrueClass),
    {
        self.builtin_class(BuiltinClass::TrueClass)
    }

    /// The built-in `UnboundMethod` class.
    pub fn class_unbound_method(&self) -> (r: RClass)
        ensures
            r == self.builtin(BuiltinClass::UnboundMethod),
    {
        self.builtin_class(BuiltinClass::UnboundMethod)
    }

}

/// Returns the runtime's `Array` class.
pub fn array(ruby: &Ruby) -> (r: RClass)
    ensures
        r == ruby.builtin(BuiltinClass::Array),
{
    ruby.class_array()
}

/// Returns the runtime's `BasicObject` class.
pub fn basic_object(ruby: &Ruby) -> (r: RClass)
    ensures
        r == ruby.builtin(BuiltinClass::BasicObject),
{
    ruby.class_basic_object()
}

/// Returns the runtime's `Binding` class.
pub fn binding(ruby: &Ruby) -> (r: RClass)
    ensures
        r == ruby.builtin(BuiltinClass::Binding),
{
    ruby.class_binding()
}

/// Returns the runtime's `Class` class.
pub fn class(ruby: &Ruby) -> (r: RClass)
    ensures
        r == ruby.builtin(BuiltinClass::Class),
{
    ruby.class_class()
}

/// Returns the runtime's `Complex` class.
pub fn complex(ruby: &Ruby) -> (r: RClass)
    ensures
        r == ruby.builtin(BuiltinClass::Complex),
{
    ruby.class_complex()
}

/// Returns the runtime's `Dir` class.
pub fn dir(ruby: &Ruby) -> (r: RClass)
    ensures
        r == ruby.builtin(BuiltinClass::Dir),
{
    ruby.class_dir()
}

/// Returns the runtime's `Encoding` class.
pub fn encoding(ruby: &Ruby) -> (r: RClass)
    ensures
        r == ruby.builtin(BuiltinClass::Encoding),
{
    ruby.class_encoding()
}

/// Returns the runtime's `Enumerator` class.
pub fn enumerator(ruby: &Ruby) -> (r: RClass)
    ensures
        r == ruby.builtin(BuiltinClass::Enumerator),
{
    ruby.class_enumerator()
}

/// Returns the runtime's `FalseClass` class.
pub fn false_class(ruby: &Ruby) -> (r: RClass)
    ensures
        r == ruby.builtin(BuiltinClass::FalseClass),
{
    ruby.class_false_class()
}

/// Returns the runtime's `File` class.
pub fn file(ruby: &Ruby) -> (r: RClass)
    ensures
        r == ruby.builtin(BuiltinClass::File),
{
    ruby.class_file()
}

/// Returns the runtime's `Float` class.
pub fn float(ruby: &Ruby) -> (r: RClass)
    ensures
        r == ruby.builtin(BuiltinClass::Float),
{
    ruby.class_float()
}

/// Returns the runtime's `Hash` class.
pub fn hash(ruby: &Ruby) -> (r: RClass)
    ensures
        r == ruby.builtin(BuiltinClass::Hash),
{
    ruby.class_hash()
}

/// Returns the runtime's `IO` class.
pub fn io(ruby: &Ruby) -> (r: RClass)
    ensures
        r == ruby.builtin(BuiltinClass::Io),
{
    ruby.class_io()
}

/// Returns the runtime's `Integer` class.
pub fn integer(ruby: &Ruby) -> (r: RClass)
    ensures
        r == ruby.builtin(BuiltinClass::Integer),
{
    ruby.class_integer()
}

/// Returns the runtime's `MatchData` class.
pub fn match_class(ruby: &Ruby) -> (r: RClass)
    ensures
        r == ruby.builtin(BuiltinClass::Match),
{
    ruby.class_match_class()
}

/// Returns the runtime's `Method` class.
pub fn method(ruby: &Ruby) -> (r: RClass)
    ensures
        r == ruby.builtin(BuiltinClass::Method),
{
    ruby.class_method()
}

/// Returns the runtime's `Module` class.
pub fn module(ruby: &Ruby) -> (r: RClass)
    ensures
        r == ruby.builtin(BuiltinClass::Module),
{
    ruby.class_module()
}

/// Returns the runtime's `NameError::message` class.
pub fn name_error_mesg(ruby: &Ruby) -> (r: RClass)
    ensures
        r == ruby.builtin(BuiltinClass::NameErrorMesg),
{
    ruby.class_name_error_mesg()
}

/// Returns the runtime's `NilClass` class.
pub fn nil_class(ruby: &Ruby) -> (r: RClass)
    ensures
        r == ruby.builtin(BuiltinClass::NilClass),
{
    ruby.class_nil_class()
}

/// Returns the runtime's `Numeric` class.
pub fn numeric(ruby: &Ruby) -> (r: RClass)
    ensures
        r == ruby.builtin(BuiltinClass::Numeric),
{
    ruby.class_numeric()
}

/// Returns the runtime's `Object` class.
pub fn object(ruby: &Ruby) -> (r: RClass)
    ensures
        r == ruby.builtin(BuiltinClass::Object),
{
    ruby.class_object()
}

/// Returns the runtime's `Proc` class.
pub fn proc(ruby: &Ruby) -> (r: RClass)
    ensures
        r == ruby.builtin(BuiltinClass::Proc),
{
    ruby.class_proc()
}

/// Returns the runtime's `Random` class.
pub fn random(ruby: &Ruby) -> (r: RClass)
    ensures
        r == ruby.builtin(BuiltinClass::Random),
{
    ruby.class_random()
}

/// Returns the runtime's `Range` class.
pub fn range(ruby: &Ruby) -> (r: RClass)
    ensures
        r == ruby.builtin(BuiltinClass::Range),
{
    ruby.class_range()
}

/// Returns the runtime's `Rational` class.
pub fn rational(ruby: &Ruby) -> (r: RClass)
    ensures
        r == ruby.builtin(BuiltinClass::Rational),
{
    ruby.class_rational()
}

/// Returns the runtime's `Refinement` class.
pub fn refinement(ruby: &Ruby) -> (r: RClass)
    ensures
        r == ruby.builtin(BuiltinClass::Refinement),
{
    ruby.class_refinement()
}

/// Returns the runtime's `Regexp` class.
pub fn regexp(ruby: &Ruby) -> (r: RClass)
    ensures
        r == ruby.builtin(BuiltinClass::Regexp),
{
    ruby.class_regexp()
}

/// Returns the runtime's `File::Stat` class.
pub fn stat(ruby: &Ruby) -> (r: RClass)
    ensures
        r == ruby.builtin(BuiltinClass::Stat),
{
    ruby.class_stat()
}

/// Returns the runtime's `String` class.
pub fn string(ruby: &Ruby) -> (r: RClass)
    ensures
        r == ruby.builtin(BuiltinClass::String),
{
    ruby.class_string()
}

/// Returns the runtime's `Struct` class.
pub fn struct_class(ruby: &Ruby) -> (r: RClass)
    ensures
        r == ruby.builtin(BuiltinClass::Struct),
{
    ruby.class_struct_class()
}

/// Returns the runtime's `Symbol` class.
pub fn symbol(ruby: &Ruby) -> (r: RClass)
    ensures
        r == ruby.builtin(BuiltinClass::Symbol),
{
    ruby.class_symbol()
}

/// Returns the runtime's `Thread` class.
pub fn thread(ruby: &Ruby) -> (r: RClass)
    ensures
        r == ruby.builtin(BuiltinClass::Thread),
{
    ruby.class_thread()
}

/// Returns the runtime's `Time` class.
pub fn time(ruby: &Ruby) -> (r: RClass)
    ensures
        r == ruby.builtin(BuiltinClass::Time),
{
    ruby.class_time()
}

/// Returns the runtime's `TrueClass` class.
pub fn true_class(ruby: &Ruby) -> (r: RClass)
    ensures
        r == ruby.builtin(BuiltinClass::TrueClass),
{
    ruby.class_true_class()
}

/// Returns the runtime's `UnboundMethod` class.
pub fn unbound_method(ruby: &Ruby) -> (r: RClass)
    ensures
        r == ruby.builtin(BuiltinClass::UnboundMethod),
{
    ruby.class_unbound_method()
}

} // verus!
