//! Data types of columns and scalar expressions, and the rule by which two
//! of them are promoted to a common type.
//!
//! The promotion rule is this library's own. An engine that resolves the
//! common type of two types through its function registry has a rule of its
//! own, which may promote more pairs than this one does; the passes of this
//! library take their common types from `common_super_type` alone.

use vstd::prelude::*;
use vstd::string::*;

verus! {

/// The numeric types.
#[derive(Clone, Copy, Debug, PartialEq, Eq, Structural)]
pub enum NumberKind {
    UInt8,
    UInt16,
    UInt32,
    UInt64,
    Int8,
    Int16,
    Int32,
    Int64,
    Float32,
    Float64,
}

/// The type of a column or of a scalar expression.
#[derive(Debug, PartialEq, Eq)]
pub enum DataType {
    Null,
    Boolean,
    String,
    Number(NumberKind),
    Timestamp,
    Date,
    Nullable(Box<DataType>),
}

/// Whether the numeric type is a floating-point type.
pub open spec fn is_float(k: NumberKind) -> bool {
    k == NumberKind::Float32 || k == NumberKind::Float64
}

/// Whether the numeric type is a signed integer type.
pub open spec fn is_signed(k: NumberKind) -> bool {
    k == NumberKind::Int8 || k == NumberKind::Int16 || k == NumberKind::Int32 || k
        == NumberKind::Int64
}

/// The width of the numeric type in bits.
pub open spec fn bit_width(k: NumberKind) -> nat {
    match k {
        NumberKind::UInt8 | NumberKind::Int8 => 8,
        NumberKind::UInt16 | NumberKind::Int16 => 16,
        NumberKind::UInt32 | NumberKind::Int32 | NumberKind::Float32 => 32,
        NumberKind::UInt64 | NumberKind::Int64 | NumberKind::Float64 => 64,
    }
}

/// The signed integer type of the given width; widths over 32 give `Int64`.
pub open spec fn signed_of_width(w: nat) -> NumberKind {
    if w <= 8 {
        NumberKind::Int8
    } else if w <= 16 {
        NumberKind::Int16
    } else if w <= 32 {
        NumberKind::Int32
    } else {
        NumberKind::Int64
    }
}

/// The unsigned integer type of the given width; widths over 32 give
/// `UInt64`.
pub open spec fn unsigned_of_width(w: nat) -> NumberKind {
    if w <= 8 {
        NumberKind::UInt8
    } else if w <= 16 {
        NumberKind::UInt16
    } else if w <= 32 {
        NumberKind::UInt32
    } else {
        NumberKind::UInt64
    }
}

/// The larger of two widths.
pub open spec fn wider(a: nat, b: nat) -> nat {
    if a >= b {
        a
    } else {
        b
    }
}

/// The numeric type to which two numeric types are promoted.
///
/// Equal types stay. A float on either side gives a float, `Float64`
/// unless both are `Float32`. Two integers of one signedness give the wider
/// of the two. A signed and an unsigned integer give a signed integer wide
/// enough for both: the signed width if it is the wider, else twice the
/// unsigned width, capped at 64 bits.
pub open spec fn number_super_type(a: NumberKind, b: NumberKind) -> NumberKind {
    if a == b {
        a
    } else if is_float(a) || is_float(b) {
        NumberKind::Float64
    } else if is_signed(a) == is_signed(b) {
        if is_signed(a) {
            signed_of_width(wider(bit_width(a), bit_width(b)))
        } else {
            unsigned_of_width(wider(bit_width(a), bit_width(b)))
        }
    } else {
        let s = if is_signed(a) {
            bit_width(a)
        } else {
            bit_width(b)
        };
        let u = if is_signed(a) {
            bit_width(b)
        } else {
            bit_width(a)
        };
        if s > u {
            signed_of_width(s)
        } else {
            signed_of_width(2 * u)
        }
    }
}

/// The type with absence allowed: `Null` and nullable types stay, any
/// other type is wrapped.
pub open spec fn wrapped_nullable(t: DataType) -> DataType {
    match t {
        DataType::Null => DataType::Null,
        DataType::Nullable(_) => t,
        _ => DataType::Nullable(Box::new(t)),
    }
}

/// The type with absence ruled out: a nullable type gives what it wraps.
pub open spec fn removed_nullable(t: DataType) -> DataType {
    match t {
        DataType::Nullable(inner) => *inner,
        _ => t,
    }
}

/// The common type of two types, where they have one.
///
/// Equal types are their own common type. `Null` beside a type gives that
/// type with absence allowed. If either side is nullable, the result is the
/// nullable common type of what the sides hold. Two numbers are promoted by
/// `number_super_type`. A date beside a timestamp gives a timestamp. No
/// other pair has a common type. The rule is the library's own.
pub open spec fn super_type(a: DataType, b: DataType) -> Option<DataType> {
    if a == b {
        Some(a)
    } else if a is Null {
        Some(wrapped_nullable(b))
    } else if b is Null {
        Some(wrapped_nullable(a))
    } else if a is Nullable || b is Nullable {
        match plain_super_type(removed_nullable(a), removed_nullable(b)) {
            Some(t) => Some(wrapped_nullable(t)),
            None => None,
        }
    } else {
        plain_super_type(a, b)
    }
}

/// The common type of two types of which neither is nullable.
pub open spec fn plain_super_type(a: DataType, b: DataType) -> Option<DataType> {
    if a == b {
        Some(a)
    } else {
        match (a, b) {
            (DataType::Number(x), DataType::Number(y)) => Some(
                DataType::Number(number_super_type(x, y)),
            ),
            (DataType::Date, DataType::Timestamp) => Some(DataType::Timestamp),
            (DataType::Timestamp, DataType::Date) => Some(DataType::Timestamp),
            _ => None,
        }
    }
}

/// The name under which a numeric type is displayed.
pub open spec fn number_name(k: NumberKind) -> Seq<char> {
    match k {
        NumberKind::UInt8 => "UInt8"@,
        NumberKind::UInt16 => "UInt16"@,
        NumberKind::UInt32 => "UInt32"@,
        NumberKind::UInt64 => "UInt64"@,
        NumberKind::Int8 => "Int8"@,
        NumberKind::Int16 => "Int16"@,
        NumberKind::Int32 => "Int32"@,
        NumberKind::Int64 => "Int64"@,
        NumberKind::Float32 => "Float32"@,
        NumberKind::Float64 => "Float64"@,
    }
}

/// The name under which a type is displayed: a nullable type shows the
/// name of what it wraps, followed by ` NULL`.
pub open spec fn data_type_name(t: DataType) -> Seq<char>
    decreases t,
{
    match t {
        DataType::Null => "NULL"@,
        DataType::Boolean => "Boolean"@,
        DataType::String => "String"@,
        DataType::Number(k) => number_name(k),
        DataType::Timestamp => "Timestamp"@,
        DataType::Date => "Date"@,
        DataType::Nullable(inner) => data_type_name(*inner) + " NULL"@,
    }
}

impl NumberKind {
    /// Whether this is a floating-point type.
    pub fn is_float(&self) -> (b: bool)
        ensures
            b == is_float(*self),
    {
        match self {
            NumberKind::Float32 | NumberKind::Float64 => true,
            _ => false,
        }
    }

    /// Whether this is a signed integer type.
    pub fn is_signed(&self) -> (b: bool)
        ensures
            b == is_signed(*self),
    {
        match self {
            NumberKind::Int8 | NumberKind::Int16 | NumberKind::Int32 | NumberKind::Int64 => true,
            _ => false,
        }
    }

    /// The width in bits.
    pub fn bit_width(&self) -> (w: u8)
        ensures
            w == bit_width(*self),
    {
        match self {
            NumberKind::UInt8 | NumberKind::Int8 => 8,
            NumberKind::UInt16 | NumberKind::Int16 => 16,
            NumberKind::UInt32 | NumberKind::Int32 | NumberKind::Float32 => 32,
            NumberKind::UInt64 | NumberKind::Int64 | NumberKind::Float64 => 64,
        }
    }

    fn signed_of_width(w: u8) -> (k: NumberKind)
        ensures
            k == signed_of_width(w as nat),
    {
        if w <= 8 {
            NumberKind::Int8
        } else if w <= 16 {
            NumberKind::Int16
        } else if w <= 32 {
            NumberKind::Int32
        } else {
            NumberKind::Int64
        }
    }

    fn unsigned_of_width(w: u8) -> (k: NumberKind)
        ensures
            k == unsigned_of_width(w as nat),
    {
        if w <= 8 {
            NumberKind::UInt8
        } else if w <= 16 {
            NumberKind::UInt16
        } else if w <= 32 {
            NumberKind::UInt32
        } else {
            NumberKind::UInt64
        }
    }

    /// The numeric type to which this one and `other` are promoted.
    pub fn super_type(&self, other: &NumberKind) -> (k: NumberKind)
        ensures
            k == number_super_type(*self, *other),
    {
        let a = *self;
        let b = *other;
        if a == b {
            a
        } else if a.is_float() || b.is_float() {
            NumberKind::Float64
        } else if a.is_signed() == b.is_signed() {
            let w: u8 = if a.bit_width() >= b.bit_width() {
                a.bit_width()
            } else {
                b.bit_width()
            };
            if a.is_signed() {
                NumberKind::signed_of_width(w)
            } else {
                NumberKind::unsigned_of_width(w)
            }
        } else {
            let s: u8 = if a.is_signed() {
                a.bit_width()
            } else {
                b.bit_width()
            };
            let u: u8 = if a.is_signed() {
                b.bit_width()
            } else {
                a.bit_width()
            };
            if s > u {
                NumberKind::signed_of_width(s)
            } else {
                NumberKind::signed_of_width(2 * u)
            }
        }
    }

    /// The display name.
    pub fn name(&self) -> (s: &'static str)
        ensures
            s@ == number_name(*self),
    {
        match self {
            NumberKind::UInt8 => "UInt8",
            NumberKind::UInt16 => "UInt16",
            NumberKind::UInt32 => "UInt32",
            NumberKind::UInt64 => "UInt64",
            NumberKind::Int8 => "Int8",
            NumberKind::Int16 => "Int16",
            NumberKind::Int32 => "Int32",
            NumberKind::Int64 => "Int64",
            NumberKind::Float32 => "Float32",
            NumberKind::Float64 => "Float64",
        }
    }
}

impl Clone for DataType {
    fn clone(&self) -> (r: DataType)
        ensures
            r == *self,
        decreases *self,
    {
        match self {
            DataType::Null => DataType::Null,
            DataType::Boolean => DataType::Boolean,
            DataType::String => DataType::String,
            DataType::Number(k) => DataType::Number(*k),
            DataType::Timestamp => DataType::Timestamp,
            DataType::Date => DataType::Date,
            DataType::Nullable(inner) => DataType::Nullable(Box::new((**inner).clone())),
        }
    }
}

impl DataType {
    /// Whether the two types are the same type.
    pub fn same(&self, other: &DataType) -> (b: bool)
        ensures
            b == (*self == *other),
        decreases *self,
    {
        match (self, other) {
            (DataType::Null, DataType::Null) => true,
            (DataType::Boolean, DataType::Boolean) => true,
            (DataType::String, DataType::String) => true,
            (DataType::Number(a), DataType::Number(b)) => *a == *b,
            (DataType::Timestamp, DataType::Timestamp) => true,
            (DataType::Date, DataType::Date) => true,
            (DataType::Nullable(a), DataType::Nullable(b)) => (**a).same(&**b),
            _ => false,
        }
    }

    /// Whether a value of this type may be absent.
    pub fn is_nullable_or_null(&self) -> (b: bool)
        ensures
            b == (*self is Null || *self is Nullable),
    {
        match self {
            DataType::Null | DataType::Nullable(_) => true,
            _ => false,
        }
    }

    /// This type with absence allowed.
    pub fn wrap_nullable(&self) -> (r: DataType)
        ensures
            r == wrapped_nullable(*self),
    {
        match self {
            DataType::Null => DataType::Null,
            DataType::Nullable(_) => self.clone(),
            _ => DataType::Nullable(Box::new(self.clone())),
        }
    }

    /// This type with absence ruled out.
    pub fn remove_nullable(&self) -> (r: DataType)
        ensures
            r == removed_nullable(*self),
    {
        match self {
            DataType::Nullable(inner) => (**inner).clone(),
            _ => self.clone(),
        }
    }

    fn plain_super_type(a: &DataType, b: &DataType) -> (r: Option<DataType>)
        ensures
            r == plain_super_type(*a, *b),
    {
        if a.same(b) {
            Some(a.clone())
        } else {
            match (a, b) {
                (DataType::Number(x), DataType::Number(y)) => Some(
                    DataType::Number(x.super_type(y)),
                ),
                (DataType::Date, DataType::Timestamp) => Some(DataType::Timestamp),
                (DataType::Timestamp, DataType::Date) => Some(DataType::Timestamp),
                _ => None,
            }
        }
    }

    /// The display name.
    pub fn name(&self) -> (s: String)
        ensures
            s@ == data_type_name(*self),
        decreases *self,
    {
        match self {
            DataType::Null => String::from_str("NULL"),
            DataType::Boolean => String::from_str("Boolean"),
            DataType::String => String::from_str("String"),
            DataType::Number(k) => String::from_str(k.name()),
            DataType::Timestamp => String::from_str("Timestamp"),
            DataType::Date => String::from_str("Date"),
            DataType::Nullable(inner) => {
                let mut s = (**inner).name();
                s.append(" NULL");
                s
            },
        }
    }
}

/// The common type of `a` and `b`, or `None` where they have none.
pub fn common_super_type(a: &DataType, b: &DataType) -> (r: Option<DataType>)
    ensures
        r == super_type(*a, *b),
{
    if a.same(b) {
        Some(a.clone())
    } else if let DataType::Null = a {
        Some(b.wrap_nullable())
    } else if let DataType::Null = b {
        Some(a.wrap_nullable())
    } else if a.is_nullable_or_null() || b.is_nullable_or_null() {
        let x = a.remove_nullable();
        let y = b.remove_nullable();
        match DataType::plain_super_type(&x, &y) {
            Some(t) => Some(t.wrap_nullable()),
            None => None,
        }
    } else {
        DataType::plain_super_type(a, b)
    }
}

/// Promotion does not depend on the order of the two numeric types.
pub proof fn number_super_type_symmetric(a: NumberKind, b: NumberKind)
    ensures
        number_super_type(a, b) == number_super_type(b, a),
{
}

/// The common type does not depend on the order of the two types.
pub proof fn super_type_symmetric(a: DataType, b: DataType)
    ensures
        super_type(a, b) == super_type(b, a),
{
    match (removed_nullable(a), removed_nullable(b)) {
        (DataType::Number(x), DataType::Number(y)) => {
            number_super_type_symmetric(x, y);
        },
        _ => {},
    }
    match (a, b) {
        (DataType::Number(x), DataType::Number(y)) => {
            number_super_type_symmetric(x, y);
        },
        _ => {},
    }
}

/// Promotion stays among the integer types: of two integer types the
/// promoted type is an integer type at least as wide as both, and signed if
/// either is. A signed integer beside `UInt64` gives `Int64`, which is as
/// wide as `UInt64` without holding each of its values.
pub proof fn number_super_type_holds_both(a: NumberKind, b: NumberKind)
    requires
        !is_float(a),
        !is_float(b),
    ensures
        !is_float(number_super_type(a, b)),
        bit_width(number_super_type(a, b)) >= bit_width(a),
        bit_width(number_super_type(a, b)) >= bit_width(b),
        (is_signed(a) || is_signed(b)) ==> is_signed(number_super_type(a, b)),
{
}

} // verus!
