//! Frame slots and references.

use vstd::prelude::*;

verus! {

/// One slot of a frame (JVMS §2.6.1 local variables, §2.6.2 operand stack).
///
/// `long` and `double` are category-2 types and take **two consecutive slots**: the first holds the
/// whole value, the second is [`Slot::Top`] and only keeps indices and depths right.
/// Floating-point values are held by their IEEE 754 bit patterns.
#[derive(Debug, Clone, Copy, PartialEq, Eq, Structural)]
pub enum Slot {
    Int(i32),
    Float(u32),
    Long(i64),
    Double(u64),
    Reference(Reference),
    /// Return address of `ret` (an offset into the bytecode).
    ReturnAddress(u16),
    /// Second slot of a category-2 value, or a slot that was never written.
    Top,
}

impl Slot {
    /// Whether the value is of category 2 (`long` or `double`, two slots).
    pub open spec fn spec_is_category_2(self) -> bool {
        self is Long || self is Double
    }

    /// Whether the value is of category 2 (`long` or `double`, two slots).
    #[verifier::when_used_as_spec(spec_is_category_2)]
    pub fn is_category_2(self) -> (r: bool)
        ensures
            r == (self is Long || self is Double),
    {
        matches!(self, Slot::Long(_) | Slot::Double(_))
    }
}

/// Object reference: the heap handle, or `None` for `null`.
#[derive(Debug, Clone, Copy, PartialEq, Eq, Hash, Structural)]
pub struct Reference(pub Option<u32>);

impl Reference {
    /// The null reference.
    pub fn null() -> (r: Self)
        ensures
            r.0 is None,
    {
        Reference(None)
    }

    /// The reference with heap handle `id`.
    pub fn from_id(id: u32) -> (r: Self)
        ensures
            r == Reference(Some(id)),
    {
        Reference(Some(id))
    }

    /// Whether this is null.
    pub fn is_null(self) -> (r: bool)
        ensures
            r == (self.0 is None),
    {
        self.0.is_none()
    }

    /// The heap handle; `None` for null.
    pub fn id(self) -> (r: Option<u32>)
        ensures
            r == self.0,
    {
        self.0
    }
}

impl Default for Reference {
    fn default() -> (r: Self)
        ensures
            r.0 is None,
    {
        Reference::null()
    }
}

} // verus!
