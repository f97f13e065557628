//! The names that resolve through the host's global object. Every other name
//! that no scope binds is absent.

use vstd::prelude::*;
use crate::text::same_text;

verus! {

/// Whether `name` is one of the global names that the interpreter lets
/// through to the host: constructors for numbers, collections, regular
/// expressions, dates, errors, typed arrays and text codecs, and a few timer,
/// fetch and console functions.
pub open spec fn is_global_name(name: Seq<char>) -> bool {
    ||| name == "fetch"@
    ||| name == "console"@
    ||| name == "undefined"@
    ||| name == "Number"@
    ||| name == "Boolean"@
    ||| name == "Object"@
    ||| name == "Function"@
    ||| name == "String"@
    ||| name == "Generator"@
    ||| name == "Iterator"@
    ||| name == "Symbol"@
    ||| name == "Math"@
    ||| name == "Date"@
    ||| name == "RegExp"@
    ||| name == "Array"@
    ||| name == "Int8Array"@
    ||| name == "Uint8Array"@
    ||| name == "Uint8ClampedArray"@
    ||| name == "Int16Array"@
    ||| name == "Uint16Array"@
    ||| name == "Int32Array"@
    ||| name == "Uint32Array"@
    ||| name == "Float32Array"@
    ||| name == "Float64Array"@
    ||| name == "BigInt64Array"@
    ||| name == "BigUint64Array"@
    ||| name == "Promise"@
    ||| name == "Map"@
    ||| name == "Set"@
    ||| name == "WeakMap"@
    ||| name == "WeakSet"@
    ||| name == "ArrayBuffer"@
    ||| name == "SharedArrayBuffer"@
    ||| name == "Error"@
    ||| name == "EvalError"@
    ||| name == "RangeError"@
    ||| name == "ReferenceError"@
    ||| name == "SyntaxError"@
    ||| name == "TypeError"@
    ||| name == "DataView"@
    ||| name == "JSON"@
    ||| name == "parseFloat"@
    ||| name == "parseInt"@
    ||| name == "NaN"@
    ||| name == "isNaN"@
    ||| name == "Infinity"@
    ||| name == "isFinite"@
    ||| name == "ImageData"@
    ||| name == "URL"@
    ||| name == "createImageBitmap"@
    ||| name == "setTimeout"@
    ||| name == "clearTimeout"@
    ||| name == "setInterval"@
    ||| name == "clearInterval"@
    ||| name == "TextEncoder"@
    ||| name == "TextDecoder"@
}

/// Decides [`is_global_name`].
pub fn in_global_this(input: &str) -> (r: bool)
    ensures
        r == is_global_name(input@),
{
    same_text(input, "fetch")
        || same_text(input, "console")
        || same_text(input, "undefined")
        || same_text(input, "Number")
        || same_text(input, "Boolean")
        || same_text(input, "Object")
        || same_text(input, "Function")
        || same_text(input, "String")
        || same_text(input, "Generator")
        || same_text(input, "Iterator")
        || same_text(input, "Symbol")
        || same_text(input, "Math")
        || same_text(input, "Date")
        || same_text(input, "RegExp")
        || same_text(input, "Array")
        || same_text(input, "Int8Array")
        || same_text(input, "Uint8Array")
        || same_text(input, "Uint8ClampedArray")
        || same_text(input, "Int16Array")
        || same_text(input, "Uint16Array")
        || same_text(input, "Int32Array")
        || same_text(input, "Uint32Array")
        || same_text(input, "Float32Array")
        || same_text(input, "Float64Array")
        || same_text(input, "BigInt64Array")
        || same_text(input, "BigUint64Array")
        || same_text(input, "Promise")
        || same_text(input, "Map")
        || same_text(input, "Set")
        || same_text(input, "WeakMap")
        || same_text(input, "WeakSet")
        || same_text(input, "ArrayBuffer")
        || same_text(input, "SharedArrayBuffer")
        || same_text(input, "Error")
        || same_text(input, "EvalError")
        || same_text(input, "RangeError")
        || same_text(input, "ReferenceError")
        || same_text(input, "SyntaxError")
        || same_text(input, "TypeError")
        || same_text(input, "DataView")
        || same_text(input, "JSON")
        || same_text(input, "parseFloat")
        || same_text(input, "parseInt")
        || same_text(input, "NaN")
        || same_text(input, "isNaN")
        || same_text(input, "Infinity")
        || same_text(input, "isFinite")
        || same_text(input, "ImageData")
        || same_text(input, "URL")
        || same_text(input, "createImageBitmap")
        || same_text(input, "setTimeout")
        || same_text(input, "clearTimeout")
        || same_text(input, "setInterval")
        || same_text(input, "clearInterval")
        || same_text(input, "TextEncoder")
        || same_text(input, "TextDecoder")
}

} // verus!
