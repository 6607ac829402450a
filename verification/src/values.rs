//! How native values appear to the host.
//!
//! A unit enumeration is compared by variant alone. A tagged union shows the
//! fields of its active variant and no others. Plain and positional records
//! are built by one constructor call and read through accessors.

use vstd::prelude::*;
use crate::errors::{ErrorCategory, NativeError, NativeErrorView};

verus! {

/// A unit enumeration. Each variant has a discriminant of its own.
#[derive(Clone, Copy, Debug, PartialEq, Eq, Structural)]
pub enum SampleEnum {
    Firsty,
    Secondy,
    Lastly,
}

/// The other side of a comparison that the host asks for.
#[derive(Clone, Copy, Debug, PartialEq, Eq, Structural)]
pub enum Operand {
    /// An instance of the enumeration.
    Variant(SampleEnum),
    /// A host value of any other type, integers included.
    Foreign,
}

impl SampleEnum {
    /// The discriminant of a variant.
    pub open spec fn discriminant_of(self) -> int {
        match self {
            SampleEnum::Firsty => 0,
            SampleEnum::Secondy => 1,
            SampleEnum::Lastly => 10,
        }
    }

    /// Equality as the host sees it: the other side is an instance of the
    /// enumeration and has the same discriminant.
    pub open spec fn equals(self, other: Operand) -> bool {
        match other {
            Operand::Variant(variant) => self.discriminant_of() == variant.discriminant_of(),
            Operand::Foreign => false,
        }
    }

    /// The discriminant of this variant.
    pub fn discriminant(&self) -> (value: isize)
        ensures
            value == self.discriminant_of(),
    {
        match self {
            SampleEnum::Firsty => 0,
            SampleEnum::Secondy => 1,
            SampleEnum::Lastly => 10,
        }
    }

    /// Compares with any host value. A value of another type is unequal;
    /// the comparison never fails.
    pub fn equal(&self, other: &Operand) -> (same: bool)
        ensures
            same == self.equals(*other),
    {
        match other {
            Operand::Variant(variant) => self.discriminant() == variant.discriminant(),
            Operand::Foreign => false,
        }
    }
}

/// Equality of the enumeration is identity of the variant: a variant equals
/// itself, differs from every other variant, and differs from every value
/// that is no instance of the enumeration.
pub proof fn lemma_enum_equality(a: SampleEnum, b: SampleEnum)
    ensures
        a.equals(Operand::Variant(a)),
        a != b ==> !a.equals(Operand::Variant(b)),
        a.equals(Operand::Variant(b)) <==> a == b,
        a.equals(Operand::Variant(b)) <==> b.equals(Operand::Variant(a)),
        !a.equals(Operand::Foreign),
{
}

/// The variants of [`Shape`], without their fields.
#[derive(Clone, Copy, Debug, PartialEq, Eq, Structural)]
pub enum ShapeVariant {
    Circle,
    Rectangle,
}

/// The closed list of field names that a [`Shape`] variant may have.
#[derive(Clone, Copy, Debug, PartialEq, Eq, Structural)]
pub enum ShapeField {
    Radius,
    Width,
    Height,
}

/// A tagged union over lengths of type `T`. Exactly one variant is active.
#[derive(Debug, PartialEq)]
pub enum Shape<T> {
    Circle { radius: T },
    Rectangle { width: T, height: T },
}

impl ShapeVariant {
    /// The name under which the host knows a variant.
    pub open spec fn name_of(self) -> Seq<char> {
        match self {
            ShapeVariant::Circle => "Circle"@,
            ShapeVariant::Rectangle => "Rectangle"@,
        }
    }

    /// The name under which the host knows this variant.
    pub fn name(&self) -> (name: &'static str)
        ensures
            name@ == self.name_of(),
    {
        match self {
            ShapeVariant::Circle => "Circle",
            ShapeVariant::Rectangle => "Rectangle",
        }
    }
}

impl ShapeField {
    /// The name under which the host reads a field.
    pub open spec fn name_of(self) -> Seq<char> {
        match self {
            ShapeField::Radius => "radius"@,
            ShapeField::Width => "width"@,
            ShapeField::Height => "height"@,
        }
    }

    /// The field that a name stands for, if it stands for one.
    pub open spec fn named(name: Seq<char>) -> Option<ShapeField> {
        if name == "radius"@ {
            Some(ShapeField::Radius)
        } else if name == "width"@ {
            Some(ShapeField::Width)
        } else if name == "height"@ {
            Some(ShapeField::Height)
        } else {
            None
        }
    }

    /// The name under which the host reads this field.
    pub fn name(&self) -> (name: &'static str)
        ensures
            name@ == self.name_of(),
    {
        match self {
            ShapeField::Radius => "radius",
            ShapeField::Width => "width",
            ShapeField::Height => "height",
        }
    }

    /// Looks a field up by the name the host used.
    pub fn from_name(name: &str) -> (field: Option<ShapeField>)
        ensures
            field == ShapeField::named(name@),
    {
        if same_text(name, "radius") {
            Some(ShapeField::Radius)
        } else if same_text(name, "width") {
            Some(ShapeField::Width)
        } else if same_text(name, "height") {
            Some(ShapeField::Height)
        } else {
            None
        }
    }
}

/// Whether two texts hold the same characters.
fn same_text(left: &str, right: &str) -> (same: bool)
    ensures
        same == (left@ == right@),
{
    let left_owned = left.to_owned();
    let right_owned = right.to_owned();
    left_owned == right_owned
}

/// The failure for reading `name` on a shape whose active variant is
/// `variant` and has no such field.
pub open spec fn missing_attribute(variant: ShapeVariant, name: Seq<char>) -> NativeErrorView {
    NativeErrorView {
        declared: Some(ErrorCategory::AttributeMissing),
        message: "'Shape."@ + variant.name_of() + "' object has no attribute '"@ + name + "'"@,
    }
}

impl<T> Shape<T> {
    /// The active variant.
    pub open spec fn variant_of(self) -> ShapeVariant {
        match self {
            Shape::Circle { .. } => ShapeVariant::Circle,
            Shape::Rectangle { .. } => ShapeVariant::Rectangle,
        }
    }

    /// The value of `field`, where the active variant has that field.
    pub open spec fn field_of(self, field: ShapeField) -> Option<T> {
        match (self, field) {
            (Shape::Circle { radius }, ShapeField::Radius) => Some(radius),
            (Shape::Rectangle { width, .. }, ShapeField::Width) => Some(width),
            (Shape::Rectangle { height, .. }, ShapeField::Height) => Some(height),
            _ => None,
        }
    }

    /// What reading `field` gives: the stored value, or the failure for a
    /// field that the active variant lacks.
    pub open spec fn read(self, field: ShapeField, outcome: Result<&T, NativeError>) -> bool {
        match self.field_of(field) {
            Some(value) => outcome == Ok::<&T, NativeError>(&value),
            None => outcome matches Err(error) && error@ == missing_attribute(
                self.variant_of(),
                field.name_of(),
            ),
        }
    }

    /// The active variant.
    pub fn variant(&self) -> (variant: ShapeVariant)
        ensures
            variant == self.variant_of(),
    {
        match self {
            Shape::Circle { .. } => ShapeVariant::Circle,
            Shape::Rectangle { .. } => ShapeVariant::Rectangle,
        }
    }

    /// Reads a field of the active variant. A field of another variant is
    /// reported as `AttributeMissing`.
    pub fn get(&self, field: ShapeField) -> (outcome: Result<&T, NativeError>)
        ensures
            self.read(field, outcome),
    {
        match (self, field) {
            (Shape::Circle { radius }, ShapeField::Radius) => Ok(radius),
            (Shape::Rectangle { width, .. }, ShapeField::Width) => Ok(width),
            (Shape::Rectangle { height, .. }, ShapeField::Height) => Ok(height),
            _ => Err(no_attribute(self.variant(), field.name())),
        }
    }

    /// Reads a field by the name the host used. A name that is no field of
    /// the active variant, or no field at all, is reported as
    /// `AttributeMissing`.
    pub fn getattr(&self, name: &str) -> (outcome: Result<&T, NativeError>)
        ensures
            match ShapeField::named(name@) {
                Some(field) => self.read(field, outcome),
                None => outcome matches Err(error) && error@ == missing_attribute(
                    self.variant_of(),
                    name@,
                ),
            },
    {
        match ShapeField::from_name(name) {
            Some(field) => self.get(field),
            None => Err(no_attribute(self.variant(), name)),
        }
    }
}

/// Which fields each variant has: a circle has its radius and nothing else,
/// a rectangle has its width and height and no radius. Reading gives the
/// value the shape was built with.
pub proof fn lemma_fields_of_active_variant<T>(radius: T, width: T, height: T)
    ensures
        (Shape::Circle { radius }).field_of(ShapeField::Radius) == Some(radius),
        (Shape::Circle { radius }).field_of(ShapeField::Width) is None,
        (Shape::Circle { radius }).field_of(ShapeField::Height) is None,
        (Shape::Rectangle { width, height }).field_of(ShapeField::Radius) is None,
        (Shape::Rectangle { width, height }).field_of(ShapeField::Width) == Some(width),
        (Shape::Rectangle { width, height }).field_of(ShapeField::Height) == Some(height),
{
}

/// Builds the failure for a missing attribute.
fn no_attribute(variant: ShapeVariant, name: &str) -> (error: NativeError)
    ensures
        error@ == missing_attribute(variant, name@),
{
    let mut message = String::from_str("'Shape.");
    message.append(variant.name());
    message.append("' object has no attribute '");
    message.append(name);
    message.append("'");
    NativeError::new(ErrorCategory::AttributeMissing, message.as_str())
}

/// What a [`ClassOne`] holds.
pub struct ClassOneView {
    pub id: int,
}

/// A plain record with one named field.
#[derive(Clone, Copy, Debug, PartialEq, Eq)]
pub struct ClassOne {
    id: i32,
}

impl View for ClassOne {
    type V = ClassOneView;

    closed spec fn view(&self) -> ClassOneView {
        ClassOneView { id: self.id as int }
    }
}

impl ClassOne {
    /// A record with the given `id`. Every `id` is accepted.
    pub fn new(id: i32) -> (record: ClassOne)
        ensures
            record@.id == id,
    {
        ClassOne { id }
    }

    /// The `id` the record was built with.
    pub fn id(&self) -> (id: i32)
        ensures
            id == self@.id,
    {
        self.id
    }
}

/// A positional record: one unnamed slot that holds a text.
#[derive(Debug, PartialEq, Eq)]
pub struct TupleClas(pub String);

impl View for TupleClas {
    type V = Seq<char>;

    open spec fn view(&self) -> Seq<char> {
        self.0@
    }
}

} // verus!
