use vstd::prelude::*;

verus! {

/// Width of an I/O register.
#[derive(Debug, Clone, Copy, PartialEq, Eq, Structural)]
pub enum RegisterSize {
    Byte,
    HWord,
    Word,
}

/// A field of an I/O register: its name, first bit, width in bits and,
/// for enumerated fields, the names of its values.
#[derive(Debug)]
pub struct Flag {
    pub name: &'static str,
    pub start: u8,
    pub length: u8,
    pub mappings: Option<Vec<(u8, &'static str)>>,
}

/// An I/O register as a debugger shows it: name, offset from 0x0400_0000,
/// width and fields.
#[derive(Debug)]
pub struct RegisterEntry {
    pub name: &'static str,
    pub address: u32,
    pub size: RegisterSize,
    pub flags: Vec<Flag>,
}

impl Flag {
    /// A field without named values.
    pub fn new(name: &'static str, start: u8, length: u8) -> (r: Flag)
        ensures
            r.name == name,
            r.start == start,
            r.length == length,
            r.mappings is None,
    {
        Flag { name, start, length, mappings: None }
    }

    /// Bits that hold no field.
    pub fn unused(start: u8, length: u8) -> (r: Flag)
        ensures
            r.name == "unused",
            r.start == start,
            r.length == length,
            r.mappings is None,
    {
        Flag { name: "unused", start, length, mappings: None }
    }

    /// The field with the names of its values.
    pub fn map(self, mappings: Vec<(u8, &'static str)>) -> (r: Flag)
        ensures
            r.name == self.name,
            r.start == self.start,
            r.length == self.length,
            r.mappings matches Some(m) && m@ == mappings@,
    {
        let mut f = self;
        f.mappings = Some(mappings);
        f
    }
}

} // verus!
