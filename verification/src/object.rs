//! Trusted boundary to the editor's dynamically typed `Object` values.
//!
//! The key/value records handed to the editor's C API carry their fields as
//! `nvim_types::Object`, a tagged union that verified code treats as
//! opaque. Each conversion the crate needs is wrapped here once. The
//! conversions from optional booleans and integers answer objects that are
//! determined by the argument alone (nil, or a tag with the scalar), so
//! their results carry names and callers can state exact contracts over
//! them. The conversion from an optional character is different: it puts a
//! freshly allocated string behind the returned object, so two calls on the
//! same argument answer objects that differ as values. Its result gets no
//! name; its contract pins the returned object's kind tag and the character
//! content of the string behind it, both of which are determined by the
//! argument.

use vstd::prelude::*;

verus! {

#[verifier::external_type_specification]
#[verifier::external_body]
pub struct ExObject(nvim_types::Object);

/// The kind tags an `Object` can carry, as this library speaks of them.
#[derive(Clone, Copy, Debug, PartialEq, Eq, Structural)]
pub enum ObjKind {
    Nil,
    Boolean,
    Integer,
    Float,
    Str,
    Array,
    Dictionary,
    LuaRef,
}

/// The kind tag of an object: what `Object::kind` answers. The tag is one
/// field of the tagged union, so it is determined by the object's value.
pub uninterp spec fn kind_of(o: nvim_types::Object) -> ObjKind;

/// The character content of a string object: what the bytes behind the
/// object's string data spell. The conversions below never share or mutate
/// that data, so the content stands for the object's value even though the
/// value itself only points at it.
pub uninterp spec fn str_chars_of(o: nvim_types::Object) -> Seq<char>;

/// The `Object` that `<Object as From<Option<bool>>>::from` answers: nil
/// for `None`, a boolean otherwise.
pub uninterp spec fn obj_of_opt_bool(b: Option<bool>) -> nvim_types::Object;

/// The `Object` that `<Object as From<Option<u32>>>::from` answers: nil
/// for `None`, an integer otherwise.
pub uninterp spec fn obj_of_opt_u32(n: Option<u32>) -> nvim_types::Object;

/// The `Object` that `<Object as From<Option<i32>>>::from` answers: nil
/// for `None`, an integer otherwise.
pub uninterp spec fn obj_of_opt_i32(n: Option<i32>) -> nvim_types::Object;

/// Relies on `<Object as From<Option<char>>>::from`: `None` becomes the nil
/// object, `Some(c)` a string object holding the one character `c`. The
/// string lives in a fresh allocation, so the returned value is not a
/// function of the argument alone and gets no name; its kind tag and its
/// character content are determined and are stated.
#[verifier::external_body]
pub(crate) fn object_from_opt_char(c: Option<char>) -> (r: nvim_types::Object)
    ensures
        kind_of(r) == (if c is Some {
            ObjKind::Str
        } else {
            ObjKind::Nil
        }),
        c matches Some(ch) ==> str_chars_of(r) == seq![ch],
{
    nvim_types::Object::from(c)
}

/// Relies on `<Object as From<Option<bool>>>::from`: the result depends on
/// the argument alone (nil for `None`, else a boolean object).
#[verifier::external_body]
pub(crate) fn object_from_opt_bool(b: Option<bool>) -> (r: nvim_types::Object)
    ensures
        r == obj_of_opt_bool(b),
        kind_of(r) == (if b is Some {
            ObjKind::Boolean
        } else {
            ObjKind::Nil
        }),
{
    nvim_types::Object::from(b)
}

/// Relies on `<Object as From<Option<u32>>>::from`: the result depends on
/// the argument alone (nil for `None`, else an integer object).
#[verifier::external_body]
pub(crate) fn object_from_opt_u32(n: Option<u32>) -> (r: nvim_types::Object)
    ensures
        r == obj_of_opt_u32(n),
        kind_of(r) == (if n is Some {
            ObjKind::Integer
        } else {
            ObjKind::Nil
        }),
{
    nvim_types::Object::from(n)
}

/// Relies on `<Object as From<Option<i32>>>::from`: the result depends on
/// the argument alone (nil for `None`, else an integer object).
#[verifier::external_body]
pub(crate) fn object_from_opt_i32(n: Option<i32>) -> (r: nvim_types::Object)
    ensures
        r == obj_of_opt_i32(n),
        kind_of(r) == (if n is Some {
            ObjKind::Integer
        } else {
            ObjKind::Nil
        }),
{
    nvim_types::Object::from(n)
}

} // verus!
