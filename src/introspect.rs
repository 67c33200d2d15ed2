//! Names of the sample types that the library handles, for diagnostics.
use vstd::prelude::*;

verus! {

/// A type that can name a reference to itself in diagnostics.
pub trait TypeLabel {
    /// The name of `&Self` as Rust writes it, such as `&i16`.
    spec fn ref_label() -> Seq<char>;

    /// The name of `&Self`, as `ref_label` gives it.
    fn ref_label_str() -> (r: &'static str)
        ensures
            r@ == Self::ref_label(),
    ;
}

impl TypeLabel for i16 {
    open spec fn ref_label() -> Seq<char> {
        "&i16"@
    }

    fn ref_label_str() -> (r: &'static str) {
        "&i16"
    }
}

impl TypeLabel for i32 {
    open spec fn ref_label() -> Seq<char> {
        "&i32"@
    }

    fn ref_label_str() -> (r: &'static str) {
        "&i32"
    }
}

impl TypeLabel for u8 {
    open spec fn ref_label() -> Seq<char> {
        "&u8"@
    }

    fn ref_label_str() -> (r: &'static str) {
        "&u8"
    }
}

impl TypeLabel for u16 {
    open spec fn ref_label() -> Seq<char> {
        "&u16"@
    }

    fn ref_label_str() -> (r: &'static str) {
        "&u16"
    }
}

impl TypeLabel for u32 {
    open spec fn ref_label() -> Seq<char> {
        "&u32"@
    }

    fn ref_label_str() -> (r: &'static str) {
        "&u32"
    }
}

impl TypeLabel for usize {
    open spec fn ref_label() -> Seq<char> {
        "&usize"@
    }

    fn ref_label_str() -> (r: &'static str) {
        "&usize"
    }
}

/// The name of the type of a reference to the argument, for diagnostics; it
/// depends on the type alone, never on the value.
pub fn type_of<T: TypeLabel>(_value: &T) -> (r: &'static str)
    ensures
        r@ == T::ref_label(),
{
    T::ref_label_str()
}

} // verus!
