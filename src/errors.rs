use vstd::prelude::*;

verus! {

/// The kinds of I/O failure, as std reports them; their variants are plain
/// values that verified code may build and compare.
#[verifier::external_type_specification]
pub struct ExIoErrorKind(std::io::ErrorKind);

/// Failure reported by the tag reader; it is only carried, never inspected.
#[verifier::external_type_specification]
#[verifier::external_body]
pub struct ExLoftyError(lofty::error::LoftyError);

/// Kind of error that arose from Melody.
#[derive(Debug)]
pub enum MelodyErrorsKind {
    Io(std::io::ErrorKind),
    NotAbsolutePath,
    PathDoesNotExist,
    PathIsNotADir,
    PathIsNotAFile,
    ChildOfParentRecursion,
    FailedToFindParent,
    UnsupportedFileType,
    FailedToReadTag,
    UnkownFileType,
    CanNotReadFileEXT,
    EmptyQueue,
    NotPaused,
    AlreadyPlaying,
    MissingDuration,
    MetaDataError(lofty::error::LoftyError),
}

impl From<lofty::error::LoftyError> for MelodyErrorsKind {
    fn from(e: lofty::error::LoftyError) -> (r: MelodyErrorsKind) {
        MelodyErrorsKind::MetaDataError(e)
    }
}

impl vstd::std_specs::convert::FromSpecImpl<lofty::error::LoftyError> for MelodyErrorsKind {
    open spec fn obeys_from_spec() -> bool {
        true
    }

    open spec fn from_spec(e: lofty::error::LoftyError) -> MelodyErrorsKind {
        MelodyErrorsKind::MetaDataError(e)
    }
}

/// An error from Melody: its kind, a human description, and the file it
/// concerns, if any.
#[derive(Debug)]
pub struct MelodyErrors {
    kind: MelodyErrorsKind,
    description: String,
    file: Option<String>,
}

/// The text of an optional string, as a sequence of characters.
pub open spec fn opt_text(o: Option<String>) -> Option<Seq<char>> {
    match o {
        Some(s) => Some(s@),
        None => None,
    }
}

/// The text of an optional string slice, as a sequence of characters.
pub open spec fn opt_str_text(o: Option<&str>) -> Option<Seq<char>> {
    match o {
        Some(s) => Some(s@),
        None => None,
    }
}

impl MelodyErrors {
    /// The kind of this error.
    pub closed spec fn spec_kind(&self) -> MelodyErrorsKind {
        self.kind
    }

    /// The human description of this error.
    pub closed spec fn spec_description(&self) -> Seq<char> {
        self.description@
    }

    /// The file this error concerns, if any.
    pub closed spec fn spec_file(&self) -> Option<Seq<char>> {
        opt_text(self.file)
    }

    pub fn new(kind: MelodyErrorsKind, description: &str, file: Option<&str>) -> (r: Self)
        ensures
            r.spec_kind() == kind,
            r.spec_description() == description@,
            r.spec_file() == opt_str_text(file),
    {
        let file = match file {
            Some(f) => Some(f.to_string()),
            None => None,
        };
        MelodyErrors { kind, description: description.to_string(), file }
    }

    pub fn kind(&self) -> (r: &MelodyErrorsKind)
        ensures
            *r == self.spec_kind(),
    {
        &self.kind
    }

    pub fn description(&self) -> (r: &str)
        ensures
            r@ == self.spec_description(),
    {
        self.description.as_str()
    }

    pub fn file(&self) -> (r: Option<String>)
        ensures
            opt_text(r) == self.spec_file(),
    {
        match &self.file {
            Some(f) => Some(f.clone()),
            None => None,
        }
    }
}

} // verus!
