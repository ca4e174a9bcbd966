//! Class files, as far as the run-time reads them.

use vstd::prelude::*;

verus! {

/// `ACC_PUBLIC`.
pub const ACC_PUBLIC: u16 = 0x0001;

/// `ACC_STATIC`.
pub const ACC_STATIC: u16 = 0x0008;

/// `ACC_ABSTRACT`.
pub const ACC_ABSTRACT: u16 = 0x0400;

/// One entry of a constant pool.
#[derive(Debug)]
pub enum ConstantPoolEntry {
    Utf8(String),
    /// A class, by the index of its name.
    Class(u16),
    /// Any other entry, by its tag.
    Other(u8),
    /// The second place of a two-place entry.
    Unusable,
}

/// A constant pool; the first entry has index 1.
#[derive(Debug)]
pub struct ConstantPool {
    entries: Vec<ConstantPoolEntry>,
}

impl ConstantPool {
    /// The entries in order.
    pub closed spec fn entries(&self) -> Seq<ConstantPoolEntry> {
        self.entries@
    }

    /// Whether there is an entry at `index`.
    pub open spec fn has(&self, index: u16) -> bool {
        1 <= index <= self.entries().len()
    }

    /// The text at `index`, where there is one.
    pub open spec fn utf8_at(&self, index: u16) -> Option<Seq<char>> {
        if self.has(index) {
            match self.entries()[index - 1] {
                ConstantPoolEntry::Utf8(s) => Some(s@),
                _ => None,
            }
        } else {
            None
        }
    }

    /// The name of the class entry at `index`, where there is one.
    pub open spec fn class_name_at(&self, index: u16) -> Option<Seq<char>> {
        if self.has(index) {
            match self.entries()[index - 1] {
                ConstantPoolEntry::Class(n) => self.utf8_at(n),
                _ => None,
            }
        } else {
            None
        }
    }

    /// A pool with the given entries.
    pub fn new(entries: Vec<ConstantPoolEntry>) -> (r: Self)
        ensures
            r.entries() == entries@,
    {
        ConstantPool { entries }
    }

    /// The entry at `index`.
    pub fn get(&self, index: u16) -> (r: Option<&ConstantPoolEntry>)
        ensures
            match r {
                Some(e) => self.has(index) && *e == self.entries()[index - 1],
                None => !self.has(index),
            },
    {
        let i: usize = index as usize;
        if i >= 1 && i <= self.entries.len() {
            Some(&self.entries[i - 1])
        } else {
            None
        }
    }

    /// The text at `index`, where there is one.
    pub fn utf8(&self, index: u16) -> (r: Option<&str>)
        ensures
            match r {
                Some(s) => self.utf8_at(index) == Some(s@),
                None => self.utf8_at(index) is None,
            },
    {
        match self.get(index) {
            Some(ConstantPoolEntry::Utf8(s)) => Some(s.as_str()),
            _ => None,
        }
    }

    /// The name of the class entry at `index`, where there is one.
    pub fn class_name(&self, index: u16) -> (r: Option<&str>)
        ensures
            match r {
                Some(s) => self.class_name_at(index) == Some(s@),
                None => self.class_name_at(index) is None,
            },
    {
        match self.get(index) {
            Some(ConstantPoolEntry::Class(n)) => self.utf8(*n),
            _ => None,
        }
    }
}

/// From `start_pc` on, the code belongs to source line `line_number`.
#[derive(Debug, Clone, Copy, PartialEq, Eq, Structural)]
pub struct LineNumberEntry {
    pub start_pc: u16,
    pub line_number: u16,
}

/// The `Code` attribute of a method.
#[derive(Debug)]
pub struct Code {
    pub max_stack: u16,
    pub max_locals: u16,
    pub code: Vec<u8>,
    pub line_number_table: Vec<LineNumberEntry>,
}

/// A declared field.
#[derive(Debug, Clone, Copy, PartialEq, Eq, Structural)]
pub struct FieldInfo {
    pub access_flags: u16,
    pub name_index: u16,
    pub descriptor_index: u16,
}

/// A declared method.
#[derive(Debug)]
pub struct MethodInfo {
    pub access_flags: u16,
    pub name_index: u16,
    pub descriptor_index: u16,
    pub code: Option<Code>,
}

/// A class file.
#[derive(Debug)]
pub struct ClassFile {
    pub constant_pool: ConstantPool,
    pub access_flags: u16,
    pub fields: Vec<FieldInfo>,
    pub methods: Vec<MethodInfo>,
    pub source_file: Option<String>,
}

} // verus!
