//! Bulk transfer of native arrays into managed collections.
//!
//! A native call hands back a pointer and an element count. The caller reads
//! exactly `native_count(count)` elements from a non-null pointer, lets
//! these functions copy them, and then frees the native allocation once
//! (unless it is a static buffer of the native side). A null pointer gives an
//! empty collection and is never read.
use vstd::prelude::*;
use vstd::slice::slice_to_vec;
use crate::marshal::{c_str_content, decoded_text, from_native_string, lossy_string};

verus! {

/// Number of elements to read for a native count; a negative count reads
/// none.
pub open spec fn spec_native_count(count: i32) -> nat {
    if count < 0 {
        0
    } else {
        count as nat
    }
}

/// Number of elements to read for a native count.
pub fn native_count(count: i32) -> (r: usize)
    ensures
        r == spec_native_count(count),
{
    if count < 0 {
        0
    } else {
        count as usize
    }
}

/// Number of text bytes in a native output whose size counts the
/// terminating NUL.
pub fn text_length(output_size: i32) -> (r: usize)
    ensures
        r == if output_size <= 0 {
            0
        } else {
            output_size - 1
        },
{
    if output_size <= 0 {
        0
    } else {
        (output_size - 1) as usize
    }
}

/// A managed length as a native `int`; `None` where it does not fit.
pub fn native_length(len: usize) -> (r: Option<i32>)
    ensures
        len <= i32::MAX ==> r == Some(len as i32),
        len > i32::MAX ==> r is None,
{
    if len <= i32::MAX as usize {
        Some(len as i32)
    } else {
        None
    }
}

/// Copies a native array: empty for a null pointer, else every element of
/// the view, in order.
pub fn copy_native_array<T: Copy>(view: Option<&[T]>) -> (r: Vec<T>)
    ensures
        view is None ==> r@.len() == 0,
        view matches Some(v) ==> r@ == v@,
{
    match view {
        None => Vec::new(),
        Some(v) => slice_to_vec(v),
    }
}

/// Copies the `count` elements that a native call returned: exactly that
/// many, matching the native ones, or none for a null pointer.
pub fn collect_native_array<T: Copy>(view: Option<&[T]>, count: i32) -> (r: Vec<T>)
    requires
        view matches Some(v) ==> v@.len() == spec_native_count(count),
    ensures
        view is None ==> r@.len() == 0,
        view matches Some(v) ==> r@.len() == spec_native_count(count) && r@ == v@,
{
    copy_native_array(view)
}

/// The contents of a native file load: `None` where the load failed (a null
/// pointer).
pub fn file_data(view: Option<&[u8]>) -> (r: Option<Vec<u8>>)
    ensures
        view is None ==> r is None,
        view matches Some(v) ==> r matches Some(d) && d@ == v@,
{
    match view {
        None => None,
        Some(v) => Some(slice_to_vec(v)),
    }
}

/// The text of a native file load, read up to its NUL with invalid UTF-8
/// replaced: `None` where the load failed (a null pointer).
pub fn file_text(raw: Option<&[u8]>) -> (r: Option<String>)
    ensures
        raw is None ==> r is None,
        raw matches Some(b) ==> r matches Some(t) && t@ == decoded_text(c_str_content(b@)),
{
    match raw {
        None => None,
        Some(_) => Some(from_native_string(raw)),
    }
}

/// Copies native text whose reported size counts its terminating NUL: the
/// view must hold exactly `text_length(output_size)` bytes, and every one of
/// them is decoded, none dropped. Empty for a null pointer.
pub fn collect_native_text(view: Option<&[u8]>, output_size: i32) -> (r: String)
    requires
        view matches Some(v) ==> v@.len() == (if output_size <= 0 {
            0
        } else {
            output_size - 1
        }),
    ensures
        view is None ==> r@ == Seq::<char>::empty(),
        view matches Some(v) ==> r@ == decoded_text(v@),
{
    text_from_bytes(view)
}

/// Text of exactly the given native bytes, invalid UTF-8 replaced; empty for
/// a null pointer.
pub fn text_from_bytes(view: Option<&[u8]>) -> (r: String)
    ensures
        view is None ==> r@ == Seq::<char>::empty(),
        view matches Some(v) ==> r@ == decoded_text(v@),
{
    match view {
        None => String::new(),
        Some(v) => lossy_string(v),
    }
}

} // verus!
