//! The requests that this library hands to the runtime boundary. Each
//! operation that needs the runtime decides here what to ask for; the caller
//! performs the request under protection and hands the outcome back.

use vstd::prelude::*;

use crate::value::Value;

verus! {

/// One call into the embedded runtime, with its arguments.
pub enum RuntimeCall {
    /// Create an anonymous class under `superclass`.
    ClassNew { superclass: Value },
    /// Allocate an instance of `class` and run its initializer on `args`.
    ClassNewInstance { class: Value, args: Vec<Value>, argc: i32 },
    /// Allocate an instance of `class` without running its initializer.
    ObjAlloc { class: Value },
    /// Look up the superclass of `class`.
    ClassSuperclass { class: Value },
    /// Install the host-typed allocator on `class`.
    DefineAllocFunc { class: Value },
    /// Clear the allocator of `class`.
    UndefAllocFunc { class: Value },
    /// Re-encode `string` to UTF-8 into a new string.
    StrConvEncUtf8 { string: Value },
    /// Append `other` to `string`, checking encodings.
    StrBufAppend { string: Value, other: Value },
    /// Append raw bytes to `string`, ignoring its encoding.
    StrCat { string: Value, bytes: Vec<u8>, len: i64 },
    /// Convert `value` to a string with the runtime's implicit conversion.
    StrToStr { value: Value },
    /// Intern and freeze `string`.
    StrToInternedStr { string: Value },
}

} // verus!
