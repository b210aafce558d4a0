use vstd::prelude::*;

verus! {

/// Why a run cannot go on.
pub enum ScaffoldError {
    /// The working directory has no name that can be read as text.
    NoWorkingDirName,
    /// The local time, and so the year, could not be determined.
    NoLocalTime,
    /// The template called `name` could not be rendered.
    Template { name: String },
}

/// The text shown to the user for an error.
pub open spec fn message_of(e: ScaffoldError) -> Seq<char> {
    match e {
        ScaffoldError::NoWorkingDirName => "cannot determine the working directory's name"@,
        ScaffoldError::NoLocalTime => "cannot determine the local time"@,
        ScaffoldError::Template { name } => "failed to render data for template '"@ + name@ + "'"@,
    }
}

impl ScaffoldError {
    /// A message for the user.
    pub fn message(&self) -> (r: String)
        ensures
            r@ == message_of(*self),
    {
        match self {
            ScaffoldError::NoWorkingDirName => String::from_str("cannot determine the working directory's name"),
            ScaffoldError::NoLocalTime => String::from_str("cannot determine the local time"),
            ScaffoldError::Template { name } => {
                let mut m = String::from_str("failed to render data for template '");
                m.append(name.as_str());
                m.append("'");
                m
            },
        }
    }
}

} // verus!
