//! What the program is asked to analyse, and whether the path can be.
use vstd::prelude::*;

verus! {

/// Why a path cannot be analysed.
#[derive(Clone, Debug)]
pub enum PathError {
    /// Whether the path exists could not be found out; the message says why.
    Inaccessible(String),
    /// The path does not name a regular file.
    IsADirectory,
}

impl PathError {
    /// The message that explains the refusal.
    pub fn message(&self) -> (r: String)
        ensures
            self is Inaccessible ==> r@ == self->Inaccessible_0@,
            self is IsADirectory ==> r@ == "file is a directory"@,
    {
        match self {
            PathError::Inaccessible(m) => m.clone(),
            PathError::IsADirectory => "file is a directory".to_string(),
        }
    }
}

/// Decides from what the file system said of a path whether it can be
/// analysed: `exists` is the answer to whether it exists, `is_file` whether
/// it names a regular file. A failed existence query is passed on; anything
/// that is not a regular file is refused.
pub fn check_file_path(exists: &Result<bool, String>, is_file: bool) -> (r: Result<(), PathError>)
    ensures
        exists is Err ==> r is Err && r->Err_0 is Inaccessible && r->Err_0->Inaccessible_0@
            == exists->Err_0@,
        exists is Ok && is_file ==> r is Ok,
        exists is Ok && !is_file ==> r is Err && r->Err_0 is IsADirectory,
{
    match exists {
        Err(e) => {
            return Err(PathError::Inaccessible(e.clone()));
        },
        Ok(_) => {},
    }
    if !is_file {
        return Err(PathError::IsADirectory);
    }
    Ok(())
}

/// What the program was asked to do.
#[derive(Clone, Debug)]
pub struct Arguments {
    pub file_path: String,
    pub extensions_path: String,
    pub is_debug: bool,
    pub is_human: bool,
    /// Print the whole registry record, not only its name and category.
    pub more_info: bool,
}

} // verus!
