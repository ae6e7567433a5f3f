use vstd::prelude::*;
use vstd::string::StringExecFns;

verus! {

/// The silicon generation of the host's secure processor. Its name is used
/// both as a path segment of the key-distribution service and as the stem of
/// the file that holds the revocation list.
#[derive(Debug, Clone, Copy, PartialEq, Eq, Structural)]
pub enum ProcessorGeneration {
    Naples,
    Rome,
    Milan,
    Genoa,
}

/// The canonical name of a generation.
pub open spec fn generation_name(g: ProcessorGeneration) -> Seq<char> {
    match g {
        ProcessorGeneration::Naples => "Naples"@,
        ProcessorGeneration::Rome => "Rome"@,
        ProcessorGeneration::Milan => "Milan"@,
        ProcessorGeneration::Genoa => "Genoa"@,
    }
}

impl ProcessorGeneration {
    /// The canonical name of this generation, as a fresh string.
    pub fn to_string(&self) -> (r: String)
        ensures
            r@ == generation_name(*self),
    {
        match self {
            ProcessorGeneration::Naples => String::from_str("Naples"),
            ProcessorGeneration::Rome => String::from_str("Rome"),
            ProcessorGeneration::Milan => String::from_str("Milan"),
            ProcessorGeneration::Genoa => String::from_str("Genoa"),
        }
    }
}

} // verus!
