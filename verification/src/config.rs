//! The identity of an input file: a real filesystem path or the virtual
//! standard-input stream, together with the pure mapping from an identity to
//! the key under which a source cache stores its text.
use vstd::prelude::*;

verus! {

/// The logical name of an input: either a real filesystem path or the virtual
/// standard-input stream. Only a real path may ever be read from the
/// filesystem; the virtual stream carries a fixed synthetic label used solely
/// for cache lookup and display.
#[derive(Debug, PartialEq, Eq)]
pub enum FileName {
    /// A real filesystem path.
    Real(String),
    /// The virtual standard-input stream.
    Stdin,
}

/// The mathematical value of a [`FileName`]: the path as a sequence of
/// characters, or the virtual stream.
pub ghost enum FileNameV {
    Real(Seq<char>),
    Stdin,
}

impl View for FileName {
    type V = FileNameV;

    open spec fn view(&self) -> FileNameV {
        match self {
            FileName::Real(path) => FileNameV::Real(path@),
            FileName::Stdin => FileNameV::Stdin,
        }
    }
}

impl Clone for FileName {
    fn clone(&self) -> (other: Self)
        ensures
            other@ == self@,
    {
        match self {
            FileName::Real(path) => FileName::Real(path.clone()),
            FileName::Stdin => FileName::Stdin,
        }
    }
}

/// The key under which a source cache stores the text of the given identity:
/// a real path maps to the path itself, the virtual stream to a fixed
/// synthetic label. Total over both variants.
pub open spec fn spec_identity_key(id: FileNameV) -> Seq<char> {
    match id {
        FileNameV::Real(path) => path,
        FileNameV::Stdin => "stdin"@,
    }
}

/// Translate a file identity into the cache's key, following
/// [`spec_identity_key`].
pub fn identity_key(filename: &FileName) -> (key: String)
    ensures
        key@ == spec_identity_key(filename@),
{
    match filename {
        FileName::Real(path) => path.clone(),
        FileName::Stdin => "stdin".to_owned(),
    }
}

} // verus!
