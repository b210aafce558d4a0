use vstd::prelude::*;
use crate::error::ScaffoldError;
use vstd::string::StrSliceExecFns;

verus! {

/// Author recorded when neither an explicit name nor the environment gives one.
pub const DEFAULT_AUTHOR: &'static str = "no_name";

/// The resolved values that drive one run of the scaffolder.
pub struct Settings {
    pub author: String,
    pub is_private: bool,
    pub project_name: String,
    pub year: i32,
    pub with_vue: bool,
}

/// The mathematical value of a `Settings`.
pub struct SettingsView {
    pub author: Seq<char>,
    pub is_private: bool,
    pub project_name: Seq<char>,
    pub year: int,
    pub with_vue: bool,
}

impl View for Settings {
    type V = SettingsView;

    open spec fn view(&self) -> SettingsView {
        SettingsView {
            author: self.author@,
            is_private: self.is_private,
            project_name: self.project_name@,
            year: self.year as int,
            with_vue: self.with_vue,
        }
    }
}

/// The author chosen from an explicit argument, then the environment, then the default.
pub open spec fn author_of(explicit: Option<Seq<char>>, env: Option<Seq<char>>) -> Seq<char> {
    match explicit {
        Some(a) => a,
        None => match env {
            Some(e) => e,
            None => DEFAULT_AUTHOR@,
        },
    }
}

pub open spec fn opt_view(o: Option<String>) -> Option<Seq<char>> {
    match o {
        Some(s) => Some(s@),
        None => None,
    }
}

/// Picks the author: an explicit argument wins over the environment value,
/// which wins over `DEFAULT_AUTHOR`.
pub fn resolve_author(explicit: Option<String>, env: Option<String>) -> (r: String)
    ensures
        r@ == author_of(opt_view(explicit), opt_view(env)),
{
    match explicit {
        Some(a) => a,
        None => match env {
            Some(e) => e,
            None => String::from_str(DEFAULT_AUTHOR),
        },
    }
}

/// The options given on the command line.
pub struct Cli {
    /// The project name, if one was given.
    pub name: Option<String>,
    pub is_private: bool,
    /// The author, if one was given.
    pub author: Option<String>,
    pub with_vue: bool,
}

/// The project name, and whether a directory of that name must be created: a given
/// name is taken as it is and asks for the directory; otherwise the working
/// directory's name is used in place. Without a name for the working directory there
/// is no project name.
pub open spec fn project_name_of(explicit: Option<Seq<char>>, basename: Option<Seq<char>>) -> Option<
    (Seq<char>, bool),
> {
    match basename {
        Some(b) if b.len() > 0 => match explicit {
            Some(n) => Some((n, true)),
            None => Some((b, false)),
        },
        _ => None,
    }
}

/// Picks the project name and tells whether its directory must be created.
pub fn resolve_project_name(explicit: Option<String>, basename: Option<String>) -> (r: Result<
    (String, bool),
    ScaffoldError,
>)
    ensures
        match project_name_of(opt_view(explicit), opt_view(basename)) {
            Some((n, create)) => r is Ok && r->Ok_0.0@ == n && r->Ok_0.1 == create,
            None => r is Err && r->Err_0 is NoWorkingDirName,
        },
{
    match basename {
        Some(b) => {
            if b.unicode_len() == 0 {
                return Err(ScaffoldError::NoWorkingDirName);
            }
            match explicit {
                Some(n) => Ok((n, true)),
                None => Ok((b, false)),
            }
        },
        None => Err(ScaffoldError::NoWorkingDirName),
    }
}

/// The settings of a run, and whether the project directory must be created first.
pub struct Resolution {
    pub settings: Settings,
    pub create_dir: bool,
}

/// Gathers the settings of a run from the command line, the author found in the
/// environment, the working directory's name and the current year.
pub fn resolve_settings(
    cli: Cli,
    env_author: Option<String>,
    basename: Option<String>,
    year: i32,
) -> (r: Result<Resolution, ScaffoldError>)
    ensures
        match project_name_of(opt_view(cli.name), opt_view(basename)) {
            Some((n, create)) => r is Ok && r->Ok_0.settings@ == (SettingsView {
                author: author_of(opt_view(cli.author), opt_view(env_author)),
                is_private: cli.is_private,
                project_name: n,
                year: year as int,
                with_vue: cli.with_vue,
            }) && r->Ok_0.create_dir == create,
            None => r is Err && r->Err_0 is NoWorkingDirName,
        },
{
    let (project_name, create_dir) = match resolve_project_name(cli.name, basename) {
        Ok(p) => p,
        Err(e) => return Err(e),
    };
    let settings = Settings {
        author: resolve_author(cli.author, env_author),
        is_private: cli.is_private,
        project_name,
        year,
        with_vue: cli.with_vue,
    };
    Ok(Resolution { settings, create_dir })
}

} // verus!
