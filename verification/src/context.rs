//! The formatting context that is handed down the tree during a traversal.
use vstd::prelude::*;

verus! {

/// A set of style flags, one bit each.
#[derive(Debug, Clone, Copy, PartialEq, Eq, Structural)]
pub struct ChildDataFlags {
    pub bits: u16,
}

impl ChildDataFlags {
    pub open spec fn spec_bold() -> ChildDataFlags {
        ChildDataFlags { bits: 1 }
    }

    pub open spec fn spec_italic() -> ChildDataFlags {
        ChildDataFlags { bits: 2 }
    }

    pub open spec fn spec_underline() -> ChildDataFlags {
        ChildDataFlags { bits: 4 }
    }

    pub open spec fn spec_strikethrough() -> ChildDataFlags {
        ChildDataFlags { bits: 8 }
    }

    pub open spec fn spec_keep_whitespace() -> ChildDataFlags {
        ChildDataFlags { bits: 16 }
    }

    pub open spec fn spec_monospace() -> ChildDataFlags {
        ChildDataFlags { bits: 32 }
    }

    /// Whether every flag of `other` is set in `self`.
    pub open spec fn has(self, other: ChildDataFlags) -> bool {
        self.bits & other.bits == other.bits
    }

    /// The flags of `self` together with those of `other`.
    pub open spec fn with(self, other: ChildDataFlags) -> ChildDataFlags {
        ChildDataFlags { bits: self.bits | other.bits }
    }

    #[verifier::when_used_as_spec(spec_bold)]
    pub fn bold() -> (f: ChildDataFlags)
        ensures
            f == Self::spec_bold(),
    {
        ChildDataFlags { bits: 1 }
    }

    #[verifier::when_used_as_spec(spec_italic)]
    pub fn italic() -> (f: ChildDataFlags)
        ensures
            f == Self::spec_italic(),
    {
        ChildDataFlags { bits: 2 }
    }

    #[verifier::when_used_as_spec(spec_underline)]
    pub fn underline() -> (f: ChildDataFlags)
        ensures
            f == Self::spec_underline(),
    {
        ChildDataFlags { bits: 4 }
    }

    #[verifier::when_used_as_spec(spec_strikethrough)]
    pub fn strikethrough() -> (f: ChildDataFlags)
        ensures
            f == Self::spec_strikethrough(),
    {
        ChildDataFlags { bits: 8 }
    }

    #[verifier::when_used_as_spec(spec_keep_whitespace)]
    pub fn keep_whitespace() -> (f: ChildDataFlags)
        ensures
            f == Self::spec_keep_whitespace(),
    {
        ChildDataFlags { bits: 16 }
    }

    #[verifier::when_used_as_spec(spec_monospace)]
    pub fn monospace() -> (f: ChildDataFlags)
        ensures
            f == Self::spec_monospace(),
    {
        ChildDataFlags { bits: 32 }
    }

    /// The set without any flag.
    pub fn empty() -> (f: ChildDataFlags)
        ensures
            f.bits == 0,
    {
        ChildDataFlags { bits: 0 }
    }

    pub fn contains(self, other: ChildDataFlags) -> (b: bool)
        ensures
            b == self.has(other),
    {
        self.bits & other.bits == other.bits
    }

    /// Sets the flags of `other` in `self`.
    pub fn insert(&mut self, other: ChildDataFlags)
        ensures
            *final(self) == old(self).with(other),
    {
        self.bits = self.bits | other.bits;
    }

    /// An inserted flag is set afterwards, whatever was set before stays set, and a single
    /// flag that was neither set nor inserted stays unset.
    pub proof fn lemma_with(self, other: ChildDataFlags, probe: ChildDataFlags)
        ensures
            self.with(other).has(other),
            self.has(probe) ==> self.with(other).has(probe),
            other.has(probe) ==> self.with(other).has(probe),
            self.with(other).with(other) == self.with(other),
    {
        let a = self.bits;
        let b = other.bits;
        let p = probe.bits;
        assert((a | b) & b == b) by (bit_vector);
        assert(a & p == p ==> (a | b) & p == p) by (bit_vector);
        assert(b & p == p ==> (a | b) & p == p) by (bit_vector);
        assert((a | b) | b == a | b) by (bit_vector);
    }
}

/// How a block is placed across the available width.
#[derive(Debug, Clone, Copy, PartialEq, Eq, Structural)]
pub enum ChildAlignment {
    Center,
    Right,
}

/// The inherited formatting of a node. It is a plain value: deriving the context of a child
/// makes a new one and leaves the parent's as it was.
#[derive(Debug, Clone, Copy, PartialEq, Eq, Structural)]
pub struct ChildData {
    /// 0 outside headings, 1 to 6 for `h1` to `h6`, 7 for `sub`.
    pub heading_weight: u16,
    pub flags: ChildDataFlags,
    /// `None` stands for the default, left.
    pub alignment: Option<ChildAlignment>,
    /// The number of the current item of an ordered list; `None` outside ordered lists.
    pub li_ordered_number: Option<usize>,
}

impl ChildData {
    /// The context at the root: no heading, no flag, left aligned, no list.
    pub open spec fn initial() -> ChildData {
        ChildData {
            heading_weight: 0,
            flags: ChildDataFlags { bits: 0 },
            alignment: None,
            li_ordered_number: None,
        }
    }

    pub fn heading(self, weight: u16) -> (out: Self)
        ensures
            out == (ChildData { heading_weight: weight, ..self }),
    {
        let mut out = self;
        out.heading_weight = weight;
        out
    }

    pub fn insert(self, flags: ChildDataFlags) -> (out: Self)
        ensures
            out == (ChildData { flags: self.flags.with(flags), ..self }),
    {
        let mut out = self;
        out.flags.insert(flags);
        out
    }

    pub fn ordered(self) -> (out: Self)
        ensures
            out == (ChildData { li_ordered_number: Some(1usize), ..self }),
    {
        let mut out = self;
        out.li_ordered_number = Some(1);
        out
    }
}

impl Default for ChildData {
    fn default() -> (out: Self)
        ensures
            out == ChildData::initial(),
    {
        ChildData {
            heading_weight: 0,
            flags: ChildDataFlags::empty(),
            alignment: None,
            li_ordered_number: None,
        }
    }
}

} // verus!
