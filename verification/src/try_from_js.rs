//! Typed extraction of Rust values out of runtime values.

use crate::value::JsValue;
use vstd::prelude::*;

verus! {

/// Why a typed extraction failed.
#[derive(Clone, Copy, Debug, PartialEq, Eq, Structural)]
pub enum TryFromJsError {
    /// The value holds a different kind than the target type reads.
    WrongType,
    /// The value holds an integer outside the target type's range.
    OutOfRange,
}

/// Types that can be read out of a [`JsValue`] holding the matching kind.
pub trait TryFromJs: Sized {
    /// What the extraction returns for each value.
    spec fn try_from_spec(v: JsValue) -> Result<Self, TryFromJsError>;

    /// Read this type out of the value.
    fn try_from_js(value: &JsValue) -> (r: Result<Self, TryFromJsError>)
        requires
            value.wf(),
        ensures
            r == Self::try_from_spec(*value),
    ;
}

impl TryFromJs for bool {
    open spec fn try_from_spec(v: JsValue) -> Result<bool, TryFromJsError> {
        match v.model() {
            crate::boxed::JsVariant::Boolean(b) => Ok(b),
            _ => Err(TryFromJsError::WrongType),
        }
    }

    fn try_from_js(value: &JsValue) -> (r: Result<bool, TryFromJsError>) {
        match value.variant() {
            crate::boxed::JsVariant::Boolean(b) => Ok(b),
            _ => Err(TryFromJsError::WrongType),
        }
    }
}

impl TryFromJs for i32 {
    open spec fn try_from_spec(v: JsValue) -> Result<i32, TryFromJsError> {
        match v.model() {
            crate::boxed::JsVariant::Integer32(i) => Ok(i),
            _ => Err(TryFromJsError::WrongType),
        }
    }

    fn try_from_js(value: &JsValue) -> (r: Result<i32, TryFromJsError>) {
        match value.variant() {
            crate::boxed::JsVariant::Integer32(i) => Ok(i),
            _ => Err(TryFromJsError::WrongType),
        }
    }
}

impl TryFromJs for i8 {
    open spec fn try_from_spec(v: JsValue) -> Result<i8, TryFromJsError> {
        match v.model() {
            crate::boxed::JsVariant::Integer32(i) => if -0x80 <= i <= 0x7F {
                Ok(i as i8)
            } else {
                Err(TryFromJsError::OutOfRange)
            },
            _ => Err(TryFromJsError::WrongType),
        }
    }

    fn try_from_js(value: &JsValue) -> (r: Result<i8, TryFromJsError>) {
        match value.variant() {
            crate::boxed::JsVariant::Integer32(i) => {
                if -0x80 <= i && i <= 0x7F {
                    Ok(i as i8)
                } else {
                    Err(TryFromJsError::OutOfRange)
                }
            },
            _ => Err(TryFromJsError::WrongType),
        }
    }
}

impl TryFromJs for u8 {
    open spec fn try_from_spec(v: JsValue) -> Result<u8, TryFromJsError> {
        match v.model() {
            crate::boxed::JsVariant::Integer32(i) => if 0 <= i <= 0xFF {
                Ok(i as u8)
            } else {
                Err(TryFromJsError::OutOfRange)
            },
            _ => Err(TryFromJsError::WrongType),
        }
    }

    fn try_from_js(value: &JsValue) -> (r: Result<u8, TryFromJsError>) {
        match value.variant() {
            crate::boxed::JsVariant::Integer32(i) => {
                if 0 <= i && i <= 0xFF {
                    Ok(i as u8)
                } else {
                    Err(TryFromJsError::OutOfRange)
                }
            },
            _ => Err(TryFromJsError::WrongType),
        }
    }
}

impl TryFromJs for i16 {
    open spec fn try_from_spec(v: JsValue) -> Result<i16, TryFromJsError> {
        match v.model() {
            crate::boxed::JsVariant::Integer32(i) => if -0x8000 <= i <= 0x7FFF {
                Ok(i as i16)
            } else {
                Err(TryFromJsError::OutOfRange)
            },
            _ => Err(TryFromJsError::WrongType),
        }
    }

    fn try_from_js(value: &JsValue) -> (r: Result<i16, TryFromJsError>) {
        match value.variant() {
            crate::boxed::JsVariant::Integer32(i) => {
                if -0x8000 <= i && i <= 0x7FFF {
                    Ok(i as i16)
                } else {
                    Err(TryFromJsError::OutOfRange)
                }
            },
            _ => Err(TryFromJsError::WrongType),
        }
    }
}

impl TryFromJs for u16 {
    open spec fn try_from_spec(v: JsValue) -> Result<u16, TryFromJsError> {
        match v.model() {
            crate::boxed::JsVariant::Integer32(i) => if 0 <= i <= 0xFFFF {
                Ok(i as u16)
            } else {
                Err(TryFromJsError::OutOfRange)
            },
            _ => Err(TryFromJsError::WrongType),
        }
    }

    fn try_from_js(value: &JsValue) -> (r: Result<u16, TryFromJsError>) {
        match value.variant() {
            crate::boxed::JsVariant::Integer32(i) => {
                if 0 <= i && i <= 0xFFFF {
                    Ok(i as u16)
                } else {
                    Err(TryFromJsError::OutOfRange)
                }
            },
            _ => Err(TryFromJsError::WrongType),
        }
    }
}

impl TryFromJs for u32 {
    open spec fn try_from_spec(v: JsValue) -> Result<u32, TryFromJsError> {
        match v.model() {
            crate::boxed::JsVariant::Integer32(i) => if 0 <= i {
                Ok(i as u32)
            } else {
                Err(TryFromJsError::OutOfRange)
            },
            _ => Err(TryFromJsError::WrongType),
        }
    }

    fn try_from_js(value: &JsValue) -> (r: Result<u32, TryFromJsError>) {
        match value.variant() {
            crate::boxed::JsVariant::Integer32(i) => {
                if 0 <= i {
                    Ok(i as u32)
                } else {
                    Err(TryFromJsError::OutOfRange)
                }
            },
            _ => Err(TryFromJsError::WrongType),
        }
    }
}

impl TryFromJs for i64 {
    open spec fn try_from_spec(v: JsValue) -> Result<i64, TryFromJsError> {
        match v.model() {
            crate::boxed::JsVariant::Integer32(i) => Ok(i as i64),
            _ => Err(TryFromJsError::WrongType),
        }
    }

    fn try_from_js(value: &JsValue) -> (r: Result<i64, TryFromJsError>) {
        match value.variant() {
            crate::boxed::JsVariant::Integer32(i) => Ok(i as i64),
            _ => Err(TryFromJsError::WrongType),
        }
    }
}

impl TryFromJs for u64 {
    open spec fn try_from_spec(v: JsValue) -> Result<u64, TryFromJsError> {
        match v.model() {
            crate::boxed::JsVariant::Integer32(i) => if 0 <= i {
                Ok(i as u64)
            } else {
                Err(TryFromJsError::OutOfRange)
            },
            _ => Err(TryFromJsError::WrongType),
        }
    }

    fn try_from_js(value: &JsValue) -> (r: Result<u64, TryFromJsError>) {
        match value.variant() {
            crate::boxed::JsVariant::Integer32(i) => {
                if 0 <= i {
                    Ok(i as u64)
                } else {
                    Err(TryFromJsError::OutOfRange)
                }
            },
            _ => Err(TryFromJsError::WrongType),
        }
    }
}

impl TryFromJs for usize {
    open spec fn try_from_spec(v: JsValue) -> Result<usize, TryFromJsError> {
        match v.model() {
            crate::boxed::JsVariant::Integer32(i) => if 0 <= i {
                Ok(i as usize)
            } else {
                Err(TryFromJsError::OutOfRange)
            },
            _ => Err(TryFromJsError::WrongType),
        }
    }

    fn try_from_js(value: &JsValue) -> (r: Result<usize, TryFromJsError>) {
        match value.variant() {
            crate::boxed::JsVariant::Integer32(i) => {
                if 0 <= i {
                    Ok(i as usize)
                } else {
                    Err(TryFromJsError::OutOfRange)
                }
            },
            _ => Err(TryFromJsError::WrongType),
        }
    }
}

impl TryFromJs for crate::boxed::JsBigInt {
    open spec fn try_from_spec(v: JsValue) -> Result<crate::boxed::JsBigInt, TryFromJsError> {
        match v.model() {
            crate::boxed::JsVariant::BigInt(h) => Ok(h),
            _ => Err(TryFromJsError::WrongType),
        }
    }

    fn try_from_js(value: &JsValue) -> (r: Result<crate::boxed::JsBigInt, TryFromJsError>) {
        match value.variant() {
            crate::boxed::JsVariant::BigInt(h) => Ok(h),
            _ => Err(TryFromJsError::WrongType),
        }
    }
}

impl TryFromJs for crate::boxed::JsObject {
    open spec fn try_from_spec(v: JsValue) -> Result<crate::boxed::JsObject, TryFromJsError> {
        match v.model() {
            crate::boxed::JsVariant::Object(h) => Ok(h),
            _ => Err(TryFromJsError::WrongType),
        }
    }

    fn try_from_js(value: &JsValue) -> (r: Result<crate::boxed::JsObject, TryFromJsError>) {
        match value.variant() {
            crate::boxed::JsVariant::Object(h) => Ok(h),
            _ => Err(TryFromJsError::WrongType),
        }
    }
}

impl TryFromJs for crate::boxed::JsString {
    open spec fn try_from_spec(v: JsValue) -> Result<crate::boxed::JsString, TryFromJsError> {
        match v.model() {
            crate::boxed::JsVariant::String(h) => Ok(h),
            _ => Err(TryFromJsError::WrongType),
        }
    }

    fn try_from_js(value: &JsValue) -> (r: Result<crate::boxed::JsString, TryFromJsError>) {
        match value.variant() {
            crate::boxed::JsVariant::String(h) => Ok(h),
            _ => Err(TryFromJsError::WrongType),
        }
    }
}

impl<T: TryFromJs> TryFromJs for Option<T> {
    open spec fn try_from_spec(v: JsValue) -> Result<Option<T>, TryFromJsError> {
        match v.model() {
            crate::boxed::JsVariant::Null => Ok(None),
            crate::boxed::JsVariant::Undefined => Ok(None),
            _ => match T::try_from_spec(v) {
                Ok(x) => Ok(Some(x)),
                Err(e) => Err(e),
            },
        }
    }

    fn try_from_js(value: &JsValue) -> (r: Result<Option<T>, TryFromJsError>) {
        match value.variant() {
            crate::boxed::JsVariant::Null => Ok(None),
            crate::boxed::JsVariant::Undefined => Ok(None),
            _ => match T::try_from_js(value) {
                Ok(x) => Ok(Some(x)),
                Err(e) => Err(e),
            },
        }
    }
}

impl JsValue {
    /// Read a typed Rust value out of this value: the typed counterpart
    /// of matching on the variant.
    pub fn try_js_into<T: TryFromJs>(&self) -> (r: Result<T, TryFromJsError>)
        requires
            self.wf(),
        ensures
            r == T::try_from_spec(*self),
    {
        T::try_from_js(self)
    }
}

} // verus!
