use vstd::prelude::*;

verus! {

/// `true`: the value of a flag that is missing and counts as set.
pub fn bool_true() -> (flag: bool)
    ensures
        flag,
{
    true
}

/// `false`: the value of a flag that is missing and counts as unset.
pub fn bool_false() -> (flag: bool)
    ensures
        !flag,
{
    false
}

/// An empty list that holds no memory.
pub fn vec_zero_size<T>() -> (list: Vec<T>)
    ensures
        list@ == Seq::<T>::empty(),
{
    Vec::with_capacity(0)
}

/// A text that may be missing, where an empty text counts as missing.
pub open spec fn spec_non_empty(text: Option<String>) -> Option<String> {
    match text {
        Some(t) => if t@.len() == 0 {
            None
        } else {
            Some(t)
        },
        None => None,
    }
}

/// The text as read from a field that may be missing or empty: an empty
/// text counts as missing.
pub fn deserialize_potentially_empty_string(text: Option<String>) -> (kept: Option<String>)
    ensures
        kept == spec_non_empty(text),
{
    match text {
        None => None,
        Some(text) => {
            if text.as_str().is_empty() {
                None
            } else {
                Some(text)
            }
        },
    }
}

/// The constant `V` as a value, for use as a default.
pub fn default_u8<const V: u8>() -> (value: u8)
    ensures
        value == V,
{
    V
}

/// The constant `V` as a value, for use as a default.
pub fn default_u16<const V: u16>() -> (value: u16)
    ensures
        value == V,
{
    V
}

/// The constant `V` as a value, for use as a default.
pub fn default_u32<const V: u32>() -> (value: u32)
    ensures
        value == V,
{
    V
}

/// The constant `V` as a value, for use as a default.
pub fn default_u64<const V: u64>() -> (value: u64)
    ensures
        value == V,
{
    V
}

/// The constant `V` as a value, for use as a default.
pub fn default_u128<const V: u128>() -> (value: u128)
    ensures
        value == V,
{
    V
}

/// The constant `V` as a value, for use as a default.
pub fn default_usize<const V: usize>() -> (value: usize)
    ensures
        value == V,
{
    V
}

/// The constant `V` as a value, for use as a default.
pub fn default_bool<const V: bool>() -> (value: bool)
    ensures
        value == V,
{
    V
}

} // verus!
