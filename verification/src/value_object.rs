use vstd::prelude::*;

verus! {

/// Raw additional command-line flags, as uploaded by a caller (base64
/// decoded bytes). Present only for steps that accept tool-specific tuning.
pub struct Flags {
    flags: Vec<u8>,
}

impl View for Flags {
    type V = Seq<u8>;

    closed spec fn view(&self) -> Seq<u8> {
        self.flags@
    }
}

impl Flags {
    /// Wrap raw flag bytes.
    pub fn new(flags: Vec<u8>) -> (r: Flags)
        ensures
            r@ == flags@,
    {
        Flags { flags }
    }

    /// The raw flag bytes.
    pub fn flags(&self) -> (r: &Vec<u8>)
        ensures
            r@ == self@,
    {
        &self.flags
    }
}

/// Uploaded program source, as carried through the upload path (base64
/// encoded bytes).
pub struct Source {
    source: Vec<u8>,
}

impl View for Source {
    type V = Seq<u8>;

    closed spec fn view(&self) -> Seq<u8> {
        self.source@
    }
}

impl Source {
    /// Wrap uploaded source bytes.
    pub fn new(source: Vec<u8>) -> (r: Source)
        ensures
            r@ == source@,
    {
        Source { source }
    }

    /// The uploaded source bytes.
    pub fn source(&self) -> (r: &Vec<u8>)
        ensures
            r@ == self@,
    {
        &self.source
    }
}

} // verus!
