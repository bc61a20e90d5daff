//! Property descriptors and property keys.
//!
//! A property descriptor is a record of optional attributes in one of three
//! flavors: a data descriptor (value, writable), an accessor descriptor
//! (get, set) or a generic descriptor (neither). A property key is a
//! string, a symbol, or a 32-bit array index below `u32::MAX`.

use crate::boxed::JsString;
use crate::boxed::JsSymbol;
use crate::value::JsValue;
use vstd::prelude::*;

verus! {

/// A `u32` that is never `u32::MAX`, used for array indices: `MAX` itself
/// is reserved as the not-an-index sentinel in property lookups.
#[derive(Clone, Copy, Debug, PartialEq, Eq, Structural, Hash)]
pub struct NonMaxU32 {
    /// The index, always below `u32::MAX`.
    pub value: u32,
}

impl NonMaxU32 {
    /// Whether the stored index is in range.
    pub open spec fn wf(self) -> bool {
        self.value < 0xFFFF_FFFFu32
    }

    /// Wrap an index, refusing `u32::MAX`.
    pub fn new(value: u32) -> (r: Option<NonMaxU32>)
        ensures
            value < 0xFFFF_FFFFu32 <==> r == Some(NonMaxU32 { value }),
            value == 0xFFFF_FFFFu32 <==> r is None,
    {
        if value < 0xFFFF_FFFF {
            Some(NonMaxU32 { value })
        } else {
            None
        }
    }

    /// Wrap an index already known not to be `u32::MAX`.
    pub fn new_unchecked(value: u32) -> (r: NonMaxU32)
        requires
            value < 0xFFFF_FFFFu32,
        ensures
            r == (NonMaxU32 { value }),
            r.wf(),
    {
        NonMaxU32 { value }
    }

    /// The wrapped index.
    pub fn get(&self) -> (r: u32)
        ensures
            r == self.value,
    {
        self.value
    }
}

/// The three flavors of a property descriptor.
#[derive(Debug)]
pub enum DescriptorKind {
    /// A data property descriptor.
    Data {
        /// The value of the property.
        value: Option<JsValue>,
        /// Whether the property is writable.
        writable: Option<bool>,
    },
    /// An accessor property descriptor.
    Accessor {
        /// The getter of the property.
        get: Option<JsValue>,
        /// The setter of the property.
        set: Option<JsValue>,
    },
    /// A generic property descriptor: neither data nor accessor.
    Generic,
}

impl Default for DescriptorKind {
    /// The default flavor is the generic one.
    fn default() -> (r: Self)
        ensures
            r is Generic,
    {
        Self::Generic
    }
}

/// A property descriptor: two shared optional attributes and the
/// flavor-specific ones.
#[derive(Debug)]
pub struct PropertyDescriptor {
    /// Whether the property shows up in enumeration, if set.
    pub enumerable: Option<bool>,
    /// Whether the property may be reconfigured, if set.
    pub configurable: Option<bool>,
    /// The flavor and its attributes.
    pub kind: DescriptorKind,
}

impl PropertyDescriptor {
    /// The `[[Value]]` field: set only on a data descriptor.
    pub open spec fn value_spec(self) -> Option<JsValue> {
        match self.kind {
            DescriptorKind::Data { value, .. } => value,
            _ => None,
        }
    }

    /// The `[[Writable]]` field: set only on a data descriptor.
    pub open spec fn writable_spec(self) -> Option<bool> {
        match self.kind {
            DescriptorKind::Data { writable, .. } => writable,
            _ => None,
        }
    }

    /// The `[[Get]]` field: set only on an accessor descriptor.
    pub open spec fn get_spec(self) -> Option<JsValue> {
        match self.kind {
            DescriptorKind::Accessor { get, .. } => get,
            _ => None,
        }
    }

    /// The `[[Set]]` field: set only on an accessor descriptor.
    pub open spec fn set_spec(self) -> Option<JsValue> {
        match self.kind {
            DescriptorKind::Accessor { set, .. } => set,
            _ => None,
        }
    }

    /// An accessor descriptor is one that includes fields named `[[Get]]`
    /// or `[[Set]]`.
    pub fn is_accessor_descriptor(&self) -> (r: bool)
        ensures
            r == (self.kind is Accessor),
    {
        matches!(self.kind, DescriptorKind::Accessor { .. })
    }

    /// A data descriptor is one that includes fields named `[[Value]]` or
    /// `[[Writable]]`.
    pub fn is_data_descriptor(&self) -> (r: bool)
        ensures
            r == (self.kind is Data),
    {
        matches!(self.kind, DescriptorKind::Data { .. })
    }

    /// A generic descriptor is neither a data nor an accessor descriptor.
    pub fn is_generic_descriptor(&self) -> (r: bool)
        ensures
            r == (self.kind is Generic),
    {
        matches!(self.kind, DescriptorKind::Generic)
    }

    /// A descriptor is empty when it is generic and neither shared
    /// attribute is set.
    pub fn is_empty(&self) -> (r: bool)
        ensures
            r == ((self.kind is Generic) && self.enumerable is None && self.configurable is None),
    {
        self.is_generic_descriptor() && self.enumerable.is_none() && self.configurable.is_none()
    }

    /// The `[[Enumerable]]` field, or `None` if it is not set.
    pub fn enumerable(&self) -> (r: Option<bool>)
        ensures
            r == self.enumerable,
    {
        self.enumerable
    }

    /// The `[[Configurable]]` field, or `None` if it is not set.
    pub fn configurable(&self) -> (r: Option<bool>)
        ensures
            r == self.configurable,
    {
        self.configurable
    }

    /// The `[[Writable]]` field, or `None` if it is not set or the
    /// descriptor is not a data descriptor.
    pub fn writable(&self) -> (r: Option<bool>)
        ensures
            r == self.writable_spec(),
    {
        match self.kind {
            DescriptorKind::Data { writable, .. } => writable,
            _ => None,
        }
    }

    /// The `[[Value]]` field, or `None` if it is not set or the descriptor
    /// is not a data descriptor.
    pub fn value(&self) -> (r: Option<&JsValue>)
        ensures
            self.value_spec() matches Some(v) ==> (r matches Some(x) && *x == v),
            self.value_spec() is None ==> r is None,
    {
        match &self.kind {
            DescriptorKind::Data { value, .. } => value.as_ref(),
            _ => None,
        }
    }

    /// The `[[Get]]` field, or `None` if it is not set or the descriptor
    /// is not an accessor descriptor.
    pub fn get(&self) -> (r: Option<&JsValue>)
        ensures
            self.get_spec() matches Some(v) ==> (r matches Some(x) && *x == v),
            self.get_spec() is None ==> r is None,
    {
        match &self.kind {
            DescriptorKind::Accessor { get, .. } => get.as_ref(),
            _ => None,
        }
    }

    /// The `[[Set]]` field, or `None` if it is not set or the descriptor
    /// is not an accessor descriptor.
    pub fn set(&self) -> (r: Option<&JsValue>)
        ensures
            self.set_spec() matches Some(v) ==> (r matches Some(x) && *x == v),
            self.set_spec() is None ==> r is None,
    {
        match &self.kind {
            DescriptorKind::Accessor { set, .. } => set.as_ref(),
            _ => None,
        }
    }

    /// The `[[Enumerable]]` field, which must be set.
    pub fn expect_enumerable(&self) -> (r: bool)
        requires
            self.enumerable is Some,
        ensures
            Some(r) == self.enumerable,
    {
        match self.enumerable {
            Some(b) => b,
            None => unreached(),
        }
    }

    /// The `[[Configurable]]` field, which must be set.
    pub fn expect_configurable(&self) -> (r: bool)
        requires
            self.configurable is Some,
        ensures
            Some(r) == self.configurable,
    {
        match self.configurable {
            Some(b) => b,
            None => unreached(),
        }
    }

    /// The `[[Writable]]` field, which must be set.
    pub fn expect_writable(&self) -> (r: bool)
        requires
            self.writable_spec() is Some,
        ensures
            Some(r) == self.writable_spec(),
    {
        match self.writable() {
            Some(b) => b,
            None => unreached(),
        }
    }

    /// The `[[Value]]` field, which must be set.
    pub fn expect_value(&self) -> (r: &JsValue)
        requires
            self.value_spec() is Some,
        ensures
            Some(*r) == self.value_spec(),
    {
        match self.value() {
            Some(v) => v,
            None => unreached(),
        }
    }

    /// The `[[Get]]` field, which must be set.
    pub fn expect_get(&self) -> (r: &JsValue)
        requires
            self.get_spec() is Some,
        ensures
            Some(*r) == self.get_spec(),
    {
        match self.get() {
            Some(v) => v,
            None => unreached(),
        }
    }

    /// The `[[Set]]` field, which must be set.
    pub fn expect_set(&self) -> (r: &JsValue)
        requires
            self.set_spec() is Some,
        ensures
            Some(*r) == self.set_spec(),
    {
        match self.set() {
            Some(v) => v,
            None => unreached(),
        }
    }

    /// The flavor and its attributes.
    pub fn kind(&self) -> (r: &DescriptorKind)
        ensures
            r == &self.kind,
    {
        &self.kind
    }

    /// Start building a descriptor.
    pub fn builder() -> (r: PropertyDescriptorBuilder)
        ensures
            r.inner.enumerable is None,
            r.inner.configurable is None,
            r.inner.kind is Generic,
    {
        PropertyDescriptorBuilder::new()
    }

    /// Turn this descriptor into an accessor descriptor with every missing
    /// field defaulted: absent get/set become `undefined`, absent shared
    /// attributes become `false`. A non-accessor flavor is replaced whole.
    pub fn into_accessor_defaulted(self) -> (r: Self)
        ensures
            r.kind is Accessor,
            r.get_spec() == (if self.get_spec() is Some {
                self.get_spec()
            } else {
                Some(JsValue { inner: crate::boxed::NanBoxedValue::undefined_spec() })
            }),
            r.set_spec() == (if self.set_spec() is Some {
                self.set_spec()
            } else {
                Some(JsValue { inner: crate::boxed::NanBoxedValue::undefined_spec() })
            }),
            r.configurable == (if self.configurable is Some {
                self.configurable
            } else {
                Some(false)
            }),
            r.enumerable == (if self.enumerable is Some {
                self.enumerable
            } else {
                Some(false)
            }),
    {
        let mut this = self;
        match this.kind {
            DescriptorKind::Accessor { get, set } => {
                let g = match get {
                    Some(v) => Some(v),
                    None => Some(JsValue::undefined()),
                };
                let s = match set {
                    Some(v) => Some(v),
                    None => Some(JsValue::undefined()),
                };
                this.kind = DescriptorKind::Accessor { get: g, set: s };
            },
            _ => {
                this.kind = DescriptorKind::Accessor {
                    get: Some(JsValue::undefined()),
                    set: Some(JsValue::undefined()),
                };
            },
        }
        this.configurable = match this.configurable {
            Some(b) => Some(b),
            None => Some(false),
        };
        this.enumerable = match this.enumerable {
            Some(b) => Some(b),
            None => Some(false),
        };
        this
    }

    /// Turn this descriptor into a data descriptor with every missing
    /// field defaulted: an absent value becomes `undefined`, absent
    /// writable and shared attributes become `false`. A non-data flavor is
    /// replaced whole.
    pub fn into_data_defaulted(self) -> (r: Self)
        ensures
            r.kind is Data,
            r.value_spec() == (if self.value_spec() is Some {
                self.value_spec()
            } else {
                Some(JsValue { inner: crate::boxed::NanBoxedValue::undefined_spec() })
            }),
            r.writable_spec() == (if self.writable_spec() is Some {
                self.writable_spec()
            } else {
                Some(false)
            }),
            r.configurable == (if self.configurable is Some {
                self.configurable
            } else {
                Some(false)
            }),
            r.enumerable == (if self.enumerable is Some {
                self.enumerable
            } else {
                Some(false)
            }),
    {
        let mut this = self;
        match this.kind {
            DescriptorKind::Data { value, writable } => {
                let v = match value {
                    Some(v) => Some(v),
                    None => Some(JsValue::undefined()),
                };
                let w = match writable {
                    Some(b) => Some(b),
                    None => Some(false),
                };
                this.kind = DescriptorKind::Data { value: v, writable: w };
            },
            _ => {
                this.kind = DescriptorKind::Data {
                    value: Some(JsValue::undefined()),
                    writable: Some(false),
                };
            },
        }
        this.configurable = match this.configurable {
            Some(b) => Some(b),
            None => Some(false),
        };
        this.enumerable = match this.enumerable {
            Some(b) => Some(b),
            None => Some(false),
        };
        this
    }

    /// Fill every missing field of this descriptor with its default: a
    /// generic flavor becomes a data descriptor, and the flavor's own
    /// fields and the shared attributes are completed as the builder's
    /// completion does.
    pub fn complete_property_descriptor(self) -> (r: Self)
        ensures
            self.kind is Accessor ==> r == self.into_accessor_defaulted_spec(),
            !(self.kind is Accessor) ==> r == self.into_data_defaulted_spec(),
    {
        PropertyDescriptorBuilder { inner: self }.complete_with_defaults().build()
    }

    /// What [`Self::into_accessor_defaulted`] returns.
    pub open spec fn into_accessor_defaulted_spec(self) -> Self {
        PropertyDescriptor {
            enumerable: if self.enumerable is Some {
                self.enumerable
            } else {
                Some(false)
            },
            configurable: if self.configurable is Some {
                self.configurable
            } else {
                Some(false)
            },
            kind: DescriptorKind::Accessor {
                get: if self.get_spec() is Some {
                    self.get_spec()
                } else {
                    Some(JsValue { inner: crate::boxed::NanBoxedValue::undefined_spec() })
                },
                set: if self.set_spec() is Some {
                    self.set_spec()
                } else {
                    Some(JsValue { inner: crate::boxed::NanBoxedValue::undefined_spec() })
                },
            },
        }
    }

    /// What [`Self::into_data_defaulted`] returns.
    pub open spec fn into_data_defaulted_spec(self) -> Self {
        PropertyDescriptor {
            enumerable: if self.enumerable is Some {
                self.enumerable
            } else {
                Some(false)
            },
            configurable: if self.configurable is Some {
                self.configurable
            } else {
                Some(false)
            },
            kind: DescriptorKind::Data {
                value: if self.value_spec() is Some {
                    self.value_spec()
                } else {
                    Some(JsValue { inner: crate::boxed::NanBoxedValue::undefined_spec() })
                },
                writable: if self.writable_spec() is Some {
                    self.writable_spec()
                } else {
                    Some(false)
                },
            },
        }
    }

    /// Whether `desc` may fill this descriptor's missing fields: the two
    /// must be of the same flavor, or `desc` generic.
    pub open spec fn compatible_with(self, desc: Self) -> bool {
        ||| (self.kind is Data && desc.kind is Data)
        ||| (self.kind is Accessor && desc.kind is Accessor)
        ||| desc.kind is Generic
    }

    /// Fill the fields of this descriptor that `desc` sets with `desc`'s
    /// values, keeping the rest. The two descriptors must be compatible.
    pub fn fill_with(&mut self, desc: Self)
        requires
            old(self).compatible_with(desc),
        ensures
            final(self).enumerable == (if desc.enumerable is Some {
                desc.enumerable
            } else {
                old(self).enumerable
            }),
            final(self).configurable == (if desc.configurable is Some {
                desc.configurable
            } else {
                old(self).configurable
            }),
            final(self).kind is Data == old(self).kind is Data,
            final(self).kind is Accessor == old(self).kind is Accessor,
            final(self).kind is Generic == old(self).kind is Generic,
            final(self).value_spec() == (if desc.value_spec() is Some {
                desc.value_spec()
            } else {
                old(self).value_spec()
            }),
            final(self).writable_spec() == (if desc.writable_spec() is Some {
                desc.writable_spec()
            } else {
                old(self).writable_spec()
            }),
            final(self).get_spec() == (if desc.get_spec() is Some {
                desc.get_spec()
            } else {
                old(self).get_spec()
            }),
            final(self).set_spec() == (if desc.set_spec() is Some {
                desc.set_spec()
            } else {
                old(self).set_spec()
            }),
    {
        let desc_enumerable = desc.enumerable;
        let desc_configurable = desc.configurable;
        match (&mut self.kind, desc.kind) {
            (
                DescriptorKind::Data { value, writable },
                DescriptorKind::Data { value: desc_value, writable: desc_writable },
            ) => {
                if desc_value.is_some() {
                    *value = desc_value;
                }
                if desc_writable.is_some() {
                    *writable = desc_writable;
                }
            },
            (
                DescriptorKind::Accessor { get, set },
                DescriptorKind::Accessor { get: desc_get, set: desc_set },
            ) => {
                if desc_get.is_some() {
                    *get = desc_get;
                }
                if desc_set.is_some() {
                    *set = desc_set;
                }
            },
            (_, DescriptorKind::Generic) => {},
            _ => {
                proof {
                    assert(false);
                }
            },
        }
        if let Some(enumerable) = desc_enumerable {
            self.enumerable = Some(enumerable);
        }
        if let Some(configurable) = desc_configurable {
            self.configurable = Some(configurable);
        }
    }
}

impl Default for PropertyDescriptor {
    /// An empty descriptor: generic, with neither shared attribute set.
    fn default() -> (r: Self)
        ensures
            r.enumerable is None,
            r.configurable is None,
            r.kind is Generic,
    {
        PropertyDescriptor { enumerable: None, configurable: None, kind: DescriptorKind::Generic }
    }
}

/// A builder for [`PropertyDescriptor`].
#[derive(Debug)]
pub struct PropertyDescriptorBuilder {
    /// The descriptor being assembled.
    pub inner: PropertyDescriptor,
}

impl PropertyDescriptorBuilder {
    /// A builder holding an empty descriptor.
    pub fn new() -> (r: Self)
        ensures
            r.inner.enumerable is None,
            r.inner.configurable is None,
            r.inner.kind is Generic,
    {
        PropertyDescriptorBuilder { inner: PropertyDescriptor::default() }
    }

    /// Set the `value` field, making the descriptor a data descriptor if
    /// it is not one yet.
    pub fn value(self, value: JsValue) -> (r: Self)
        ensures
            r.inner.kind is Data,
            r.inner.value_spec() == Some(value),
            r.inner.writable_spec() == (if self.inner.kind is Data {
                self.inner.writable_spec()
            } else {
                None::<bool>
            }),
            r.inner.enumerable == self.inner.enumerable,
            r.inner.configurable == self.inner.configurable,
    {
        let mut this = self;
        match this.inner.kind {
            DescriptorKind::Data { writable, .. } => {
                this.inner.kind = DescriptorKind::Data { value: Some(value), writable };
            },
            _ => {
                this.inner.kind = DescriptorKind::Data { value: Some(value), writable: None };
            },
        }
        this
    }

    /// Set the `writable` field, making the descriptor a data descriptor
    /// if it is not one yet.
    pub fn writable(self, writable: bool) -> (r: Self)
        ensures
            r.inner.kind is Data,
            r.inner.writable_spec() == Some(writable),
            r.inner.value_spec() == (if self.inner.kind is Data {
                self.inner.value_spec()
            } else {
                None::<JsValue>
            }),
            r.inner.enumerable == self.inner.enumerable,
            r.inner.configurable == self.inner.configurable,
    {
        let mut this = self;
        match this.inner.kind {
            DescriptorKind::Data { value, .. } => {
                this.inner.kind = DescriptorKind::Data { value, writable: Some(writable) };
            },
            _ => {
                this.inner.kind = DescriptorKind::Data { value: None, writable: Some(writable) };
            },
        }
        this
    }

    /// Set the `get` field, making the descriptor an accessor descriptor
    /// if it is not one yet.
    pub fn get(self, get: JsValue) -> (r: Self)
        ensures
            r.inner.kind is Accessor,
            r.inner.get_spec() == Some(get),
            r.inner.set_spec() == (if self.inner.kind is Accessor {
                self.inner.set_spec()
            } else {
                None::<JsValue>
            }),
            r.inner.enumerable == self.inner.enumerable,
            r.inner.configurable == self.inner.configurable,
    {
        let mut this = self;
        match this.inner.kind {
            DescriptorKind::Accessor { set, .. } => {
                this.inner.kind = DescriptorKind::Accessor { get: Some(get), set };
            },
            _ => {
                this.inner.kind = DescriptorKind::Accessor { get: Some(get), set: None };
            },
        }
        this
    }

    /// Set the `set` field, making the descriptor an accessor descriptor
    /// if it is not one yet.
    pub fn set(self, set: JsValue) -> (r: Self)
        ensures
            r.inner.kind is Accessor,
            r.inner.set_spec() == Some(set),
            r.inner.get_spec() == (if self.inner.kind is Accessor {
                self.inner.get_spec()
            } else {
                None::<JsValue>
            }),
            r.inner.enumerable == self.inner.enumerable,
            r.inner.configurable == self.inner.configurable,
    {
        let mut this = self;
        match this.inner.kind {
            DescriptorKind::Accessor { get, .. } => {
                this.inner.kind = DescriptorKind::Accessor { get, set: Some(set) };
            },
            _ => {
                this.inner.kind = DescriptorKind::Accessor { get: None, set: Some(set) };
            },
        }
        this
    }

    /// Set the `enumerable` field.
    pub fn enumerable(self, enumerable: bool) -> (r: Self)
        ensures
            r.inner.enumerable == Some(enumerable),
            r.inner.configurable == self.inner.configurable,
            r.inner.kind == self.inner.kind,
    {
        let mut this = self;
        this.inner.enumerable = Some(enumerable);
        this
    }

    /// Set the `configurable` field.
    pub fn configurable(self, configurable: bool) -> (r: Self)
        ensures
            r.inner.configurable == Some(configurable),
            r.inner.enumerable == self.inner.enumerable,
            r.inner.kind == self.inner.kind,
    {
        let mut this = self;
        this.inner.configurable = Some(configurable);
        this
    }

    /// Set the `enumerable` field if one is given.
    pub fn maybe_enumerable(self, enumerable: Option<bool>) -> (r: Self)
        ensures
            r.inner.enumerable == (if enumerable is Some {
                enumerable
            } else {
                self.inner.enumerable
            }),
            r.inner.configurable == self.inner.configurable,
            r.inner.kind == self.inner.kind,
    {
        match enumerable {
            Some(b) => self.enumerable(b),
            None => self,
        }
    }

    /// Set the `configurable` field if one is given.
    pub fn maybe_configurable(self, configurable: Option<bool>) -> (r: Self)
        ensures
            r.inner.configurable == (if configurable is Some {
                configurable
            } else {
                self.inner.configurable
            }),
            r.inner.enumerable == self.inner.enumerable,
            r.inner.kind == self.inner.kind,
    {
        match configurable {
            Some(b) => self.configurable(b),
            None => self,
        }
    }

    /// Set the `value` field if one is given.
    pub fn maybe_value(self, value: Option<JsValue>) -> (r: Self)
        ensures
            value matches Some(v) ==> (r.inner.kind is Data && r.inner.value_spec() == Some(v)
                && r.inner.writable_spec() == (if self.inner.kind is Data {
                self.inner.writable_spec()
            } else {
                None::<bool>
            }) && r.inner.enumerable == self.inner.enumerable && r.inner.configurable
                == self.inner.configurable),
            value is None ==> r == self,
    {
        match value {
            Some(v) => self.value(v),
            None => self,
        }
    }

    /// Set the `writable` field if one is given.
    pub fn maybe_writable(self, writable: Option<bool>) -> (r: Self)
        ensures
            writable matches Some(w) ==> (r.inner.kind is Data && r.inner.writable_spec() == Some(w)
                && r.inner.value_spec() == (if self.inner.kind is Data {
                self.inner.value_spec()
            } else {
                None::<JsValue>
            }) && r.inner.enumerable == self.inner.enumerable && r.inner.configurable
                == self.inner.configurable),
            writable is None ==> r == self,
    {
        match writable {
            Some(w) => self.writable(w),
            None => self,
        }
    }

    /// Set the `get` field if one is given.
    pub fn maybe_get(self, get: Option<JsValue>) -> (r: Self)
        ensures
            get matches Some(g) ==> (r.inner.kind is Accessor && r.inner.get_spec() == Some(g)
                && r.inner.set_spec() == (if self.inner.kind is Accessor {
                self.inner.set_spec()
            } else {
                None::<JsValue>
            }) && r.inner.enumerable == self.inner.enumerable && r.inner.configurable
                == self.inner.configurable),
            get is None ==> r == self,
    {
        match get {
            Some(g) => self.get(g),
            None => self,
        }
    }

    /// Set the `set` field if one is given.
    pub fn maybe_set(self, set: Option<JsValue>) -> (r: Self)
        ensures
            set matches Some(s) ==> (r.inner.kind is Accessor && r.inner.set_spec() == Some(s)
                && r.inner.get_spec() == (if self.inner.kind is Accessor {
                self.inner.get_spec()
            } else {
                None::<JsValue>
            }) && r.inner.enumerable == self.inner.enumerable && r.inner.configurable
                == self.inner.configurable),
            set is None ==> r == self,
    {
        match set {
            Some(s) => self.set(s),
            None => self,
        }
    }

    /// Fill every missing field of the descriptor with its default: a
    /// generic flavor becomes a data descriptor, absent values become
    /// `undefined` and absent booleans `false`.
    pub fn complete_with_defaults(self) -> (r: Self)
        ensures
            self.inner.kind is Accessor ==> r.inner == self.inner.into_accessor_defaulted_spec(),
            !(self.inner.kind is Accessor) ==> r.inner == self.inner.into_data_defaulted_spec(),
    {
        let mut this = self;
        if this.inner.is_accessor_descriptor() {
            this.inner = this.inner.into_accessor_defaulted();
            proof {
                assert(this.inner =~= self.inner.into_accessor_defaulted_spec());
            }
        } else {
            this.inner = this.inner.into_data_defaulted();
            proof {
                assert(this.inner =~= self.inner.into_data_defaulted_spec());
            }
        }
        this
    }

    /// Returns a reference to the descriptor built so far.
    pub fn inner(&self) -> (r: &PropertyDescriptor)
        ensures
            r == &self.inner,
    {
        &self.inner
    }

    /// Consume the builder and return the descriptor.
    pub fn build(self) -> (r: PropertyDescriptor)
        ensures
            r == self.inner,
    {
        self.inner
    }
}

/// A property key: a string, a symbol, or an array index.
#[derive(Clone, Debug, PartialEq, Eq, Structural, Hash)]
pub enum PropertyKey {
    /// A string property key.
    String(JsString),
    /// A symbol property key.
    Symbol(JsSymbol),
    /// A numeric property key.
    Index(NonMaxU32),
}

/// Whether the UTF-16 code unit `c` is a decimal digit.
pub open spec fn is_digit(c: u16) -> bool {
    48 <= c <= 57
}

/// Whether every code unit of `s` is a decimal digit.
pub open spec fn all_digits(s: Seq<u16>) -> bool {
    forall|i: int| 0 <= i < s.len() ==> is_digit(s[i])
}

/// The decimal value of a digit string.
pub open spec fn dec_val(s: Seq<u16>) -> int
    decreases s.len(),
{
    if s.len() == 0 {
        0
    } else {
        dec_val(s.drop_last()) * 10 + (s.last() - 48)
    }
}

/// Ten to the `n`.
pub open spec fn pow10(n: nat) -> int
    decreases n,
{
    if n == 0 {
        1
    } else {
        10 * pow10((n - 1) as nat)
    }
}

/// A digit string's decimal value is nonnegative and below ten to its
/// length.
pub proof fn lemma_dec_val_bounds(s: Seq<u16>)
    requires
        all_digits(s),
    ensures
        0 <= dec_val(s) < pow10(s.len()),
    decreases s.len(),
{
    if s.len() == 0 {
    } else {
        assert(all_digits(s.drop_last())) by {
            assert(forall|i: int| 0 <= i < s.len() - 1 ==> s.drop_last()[i] == s[i]);
        }
        lemma_dec_val_bounds(s.drop_last());
        assert(is_digit(s.last()));
    }
}

/// Whether `s` is the canonical decimal spelling of an array index: one to
/// ten digits, no leading zero except for `"0"` itself, and a value below
/// `u32::MAX`.
pub open spec fn is_canonical_index(s: Seq<u16>) -> bool {
    &&& 1 <= s.len() <= 10
    &&& all_digits(s)
    &&& (s[0] == 48 ==> s.len() == 1)
    &&& dec_val(s) < 0xFFFF_FFFF
}

/// Parse a string of UTF-16 code units as an array index. Only the
/// canonical spelling of an index below `u32::MAX` is accepted: anything
/// empty, non-numeric, over ten digits, zero-padded or too large parses to
/// `None`.
pub fn parse_u32_index(input: &[u16]) -> (r: Option<NonMaxU32>)
    ensures
        is_canonical_index(input@) <==> (r matches Some(n) && n.value == dec_val(input@)),
        !is_canonical_index(input@) <==> r is None,
{
    let len = input.len();
    if len == 0 || len > 10 {
        return None;
    }
    let first = input[0];
    if first == 48 {
        if len == 1 {
            proof {
                assert(input@.drop_last().len() == 0);
                assert(dec_val(input@.drop_last()) == 0);
                assert(input@.last() == input@[0]);
            }
            return Some(NonMaxU32::new_unchecked(0));
        }
        return None;
    }
    if !(48 <= first && first <= 57) {
        return None;
    }
    let mut result: u64 = (first - 48) as u64;
    let mut i: usize = 1;
    proof {
        let s1 = input@.subrange(0, 1);
        assert(s1.drop_last().len() == 0);
        assert(dec_val(s1.drop_last()) == 0);
        assert(s1.last() == input@[0]);
    }
    while i < len
        invariant
            1 <= i <= len,
            len == input@.len() <= 10,
            all_digits(input@.subrange(0, i as int)),
            result == dec_val(input@.subrange(0, i as int)),
        decreases len - i,
    {
        let c = input[i];
        if !(48 <= c && c <= 57) {
            return None;
        }
        proof {
            lemma_dec_val_bounds(input@.subrange(0, i as int));
            reveal_with_fuel(pow10, 11);
            assert(input@.subrange(0, i + 1) =~= input@.subrange(0, i as int).push(
                input@[i as int],
            ));
            assert(input@.subrange(0, i + 1).drop_last() =~= input@.subrange(0, i as int));
        }
        result = result * 10 + (c - 48) as u64;
        i = i + 1;
    }
    proof {
        assert(input@.subrange(0, len as int) =~= input@);
    }
    if result < 0xFFFF_FFFF {
        Some(NonMaxU32::new_unchecked(result as u32))
    } else {
        None
    }
}

/// Decide what kind of property key a string names: its canonical index
/// when it spells one, otherwise the string itself, as the interned
/// handle that carries its contents.
pub fn string_key(units: &[u16], string: JsString) -> (r: PropertyKey)
    ensures
        is_canonical_index(units@) ==> r == PropertyKey::Index(
            NonMaxU32 { value: dec_val(units@) as u32 },
        ),
        !is_canonical_index(units@) ==> r == PropertyKey::String(string),
{
    match parse_u32_index(units) {
        Some(n) => PropertyKey::Index(n),
        None => PropertyKey::String(string),
    }
}

} // verus!
