use vstd::prelude::*;

verus! {

/// The fields of a descriptor.
#[derive(Clone, Copy, Debug, PartialEq, Eq, Structural)]
pub enum Field {
    Mask,
    Output,
    Input0,
    Input1,
}

/// The values a descriptor field can take: `Default` and `Complement` for the
/// mask, `Merge` and `Replace` for the output, `AsIs` and `Transpose` for an input.
#[derive(Clone, Copy, Debug, PartialEq, Eq, Structural)]
pub enum Value {
    Default,
    Complement,
    Merge,
    Replace,
    AsIs,
    Transpose,
}

/// Whether `value` is one that `field` can take.
pub open spec fn fits(field: Field, value: Value) -> bool {
    match field {
        Field::Mask => value == Value::Default || value == Value::Complement,
        Field::Output => value == Value::Merge || value == Value::Replace,
        Field::Input0 | Field::Input1 => value == Value::AsIs || value == Value::Transpose,
    }
}

/// The flags that control an operation: mask complement, output replace, and
/// the transposition of each input.
#[derive(Clone, Copy, Debug, PartialEq, Eq, Structural)]
pub struct Descriptor {
    pub complement: bool,
    pub replace: bool,
    pub transpose0: bool,
    pub transpose1: bool,
}

impl Descriptor {
    /// The descriptor with every field at its default.
    pub fn new() -> (r: Descriptor)
        ensures
            !r.complement,
            !r.replace,
            !r.transpose0,
            !r.transpose1,
    {
        Descriptor { complement: false, replace: false, transpose0: false, transpose1: false }
    }

    /// This descriptor with `field` set to `value`, all other fields kept.
    pub fn set(self, field: Field, value: Value) -> (r: Descriptor)
        requires
            fits(field, value),
        ensures
            r.complement == (if field == Field::Mask {
                value == Value::Complement
            } else {
                self.complement
            }),
            r.replace == (if field == Field::Output {
                value == Value::Replace
            } else {
                self.replace
            }),
            r.transpose0 == (if field == Field::Input0 {
                value == Value::Transpose
            } else {
                self.transpose0
            }),
            r.transpose1 == (if field == Field::Input1 {
                value == Value::Transpose
            } else {
                self.transpose1
            }),
    {
        let mut r = self;
        match field {
            Field::Mask => r.complement = value == Value::Complement,
            Field::Output => r.replace = value == Value::Replace,
            Field::Input0 => r.transpose0 = value == Value::Transpose,
            Field::Input1 => r.transpose1 = value == Value::Transpose,
        }
        r
    }
}

impl Default for Descriptor {
    fn default() -> (r: Descriptor)
        ensures
            !r.complement,
            !r.replace,
            !r.transpose0,
            !r.transpose1,
    {
        Descriptor::new()
    }
}

} // verus!
