use vstd::prelude::*;

verus! {

/// Type of a property value as the interpreter reports it.
///
/// `Other` stands for every kind that has no counterpart on the JavaScript side.
#[derive(Clone, Copy, Debug, PartialEq, Eq, Structural)]
pub enum ValueKind {
    Void,
    Number,
    String,
    Bool,
    Model,
    Struct,
    Brush,
    Image,
    Other,
}

/// Type of a property value as exposed to JavaScript.
#[derive(Clone, Copy, Debug, PartialEq, Eq, Structural)]
pub enum JsValueType {
    Void,
    Number,
    String,
    Bool,
    Model,
    Struct,
    Brush,
    Image,
}

/// A named property together with the type of its value.
#[derive(Clone, Debug)]
pub struct JsProperty {
    pub name: String,
    pub value_type: JsValueType,
}

/// The JavaScript type that an interpreter value kind maps to: every kind keeps
/// its name, and a kind without a counterpart becomes `Void`.
pub open spec fn js_value_type_of(kind: ValueKind) -> JsValueType {
    match kind {
        ValueKind::Number => JsValueType::Number,
        ValueKind::String => JsValueType::String,
        ValueKind::Bool => JsValueType::Bool,
        ValueKind::Model => JsValueType::Model,
        ValueKind::Struct => JsValueType::Struct,
        ValueKind::Brush => JsValueType::Brush,
        ValueKind::Image => JsValueType::Image,
        ValueKind::Void | ValueKind::Other => JsValueType::Void,
    }
}

impl From<ValueKind> for JsValueType {
    fn from(kind: ValueKind) -> (r: JsValueType)
        ensures
            r == js_value_type_of(kind),
    {
        match kind {
            ValueKind::Number => JsValueType::Number,
            ValueKind::String => JsValueType::String,
            ValueKind::Bool => JsValueType::Bool,
            ValueKind::Model => JsValueType::Model,
            ValueKind::Struct => JsValueType::Struct,
            ValueKind::Brush => JsValueType::Brush,
            ValueKind::Image => JsValueType::Image,
            _ => JsValueType::Void,
        }
    }
}

impl vstd::std_specs::convert::FromSpecImpl<ValueKind> for JsValueType {
    open spec fn obeys_from_spec() -> bool {
        true
    }

    open spec fn from_spec(kind: ValueKind) -> JsValueType {
        js_value_type_of(kind)
    }
}

/// Number of bytes of a blank RGBA image of the given size (four bytes per
/// pixel), or `None` where that count does not fit in 32 bits.
pub fn blank_rgba_len(width: u32, height: u32) -> (r: Option<usize>)
    ensures
        width as int * height as int * 4 <= u32::MAX ==> r == Some((width as int * height as int * 4) as usize),
        width as int * height as int * 4 > u32::MAX ==> r is None,
{
    assert((width as int) * (height as int) <= 0xFFFF_FFFFint * 0xFFFF_FFFFint) by (nonlinear_arith)
        requires
            width <= 0xFFFF_FFFFint,
            height <= 0xFFFF_FFFFint,
    ;
    let pixels: u64 = width as u64 * height as u64;
    if pixels > (u32::MAX as u64) / 4 {
        None
    } else {
        Some((pixels * 4) as usize)
    }
}

/// Row count handed to the pixel buffer built from a byte array: `width`
/// divided by the array's length taken modulo 2^32. `None` where that divisor is
/// zero.
pub fn data_array_height(len: usize, width: u32) -> (r: Option<u32>)
    ensures
        len as int % 0x1_0000_0000 == 0 ==> r is None,
        len as int % 0x1_0000_0000 != 0 ==> r == Some((width as int / (len as int % 0x1_0000_0000)) as u32),
{
    let divisor: u32 = (len as u64 % 0x1_0000_0000u64) as u32;
    if divisor == 0 {
        None
    } else {
        Some(width / divisor)
    }
}

} // verus!
