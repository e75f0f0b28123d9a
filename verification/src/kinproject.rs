//! The owner's project directory: its fixed layout of public, private
//! and configuration paths.

use vstd::prelude::*;

verus! {

/// A backup project rooted at a directory, with `public/` and
/// `private/` trees and a `.kin/` configuration directory. The path
/// helpers name the layout; all file traffic stays with the caller.
pub struct KinProject {
    path: String,
}

impl KinProject {
    /// The project's root directory.
    pub closed spec fn path_view(&self) -> Seq<char> {
        self.path@
    }

    /// A project rooted at the given directory.
    pub fn from(path: &String) -> (r: KinProject)
        ensures
            r.path_view() == path@,
    {
        KinProject { path: path.clone() }
    }

    /// The tree of files shipped in clear text.
    pub fn public_dir(&self) -> (r: String)
        ensures
            r@ == self.path_view() + "/public"@,
    {
        self.path.clone().concat("/public")
    }

    /// The tree of files shipped only encrypted.
    pub fn private_dir(&self) -> (r: String)
        ensures
            r@ == self.path_view() + "/private"@,
    {
        self.path.clone().concat("/private")
    }

    /// The project's configuration directory.
    pub fn config_dir(&self) -> (r: String)
        ensures
            r@ == self.path_view() + "/.kin"@,
    {
        self.path.clone().concat("/.kin")
    }

    /// The settings file inside the configuration directory.
    pub fn config_file(&self) -> (r: String)
        ensures
            r@ == self.path_view() + "/.kin"@ + "/config.json"@,
    {
        self.config_dir().concat("/config.json")
    }

    /// The temporary file the private archive is staged in while it is
    /// built, before it is encrypted and removed.
    pub fn temp_file(&self) -> (r: String)
        ensures
            r@ == self.path_view() + "/.kin"@ + "/temp"@,
    {
        self.config_dir().concat("/temp")
    }
}

} // verus!
