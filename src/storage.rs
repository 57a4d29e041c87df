use vstd::prelude::*;

verus! {

/// Where the list's directory is, before any path is built.
#[derive(Debug, PartialEq, Eq)]
pub enum DataDir {
    /// The override directory itself.
    Override(String),
    /// The application's directory inside the data-home directory.
    DataHome(String),
    /// The application's directory inside the user's home.
    Home,
}

/// The override directory wins, then the data-home directory, then the home.
pub fn data_dir(override_dir: Option<String>, data_home: Option<String>) -> (r: DataDir)
    ensures
        r == match override_dir {
            Some(d) => DataDir::Override(d),
            None => match data_home {
                Some(d) => DataDir::DataHome(d),
                None => DataDir::Home,
            },
        },
{
    match override_dir {
        Some(d) => DataDir::Override(d),
        None => match data_home {
            Some(d) => DataDir::DataHome(d),
            None => DataDir::Home,
        },
    }
}

} // verus!
