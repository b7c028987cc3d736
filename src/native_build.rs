//! Where a build of the native library goes, and what it leaves behind.
//!
//! Running the build (copying sources, configuring, compiling, installing) is done by the
//! build tool around this crate; these types carry its settings and results.
use vstd::prelude::*;

verus! {

/// Settings of a build of the native library.
pub struct Build {
    out_dir: Option<String>,
}

impl View for Build {
    /// The output directory, if one is set.
    type V = Option<Seq<char>>;

    closed spec fn view(&self) -> Option<Seq<char>> {
        match &self.out_dir {
            Some(d) => Some(d@),
            None => None,
        }
    }
}

impl Build {
    /// Prepares a build into `out_dir`, where one is known (the build tool passes the
    /// `themis` directory under its output directory).
    pub fn with_out_dir(out_dir: Option<String>) -> (r: Build)
        ensures
            r@ == (match out_dir {
                Some(d) => Some(d@),
                None => None::<Seq<char>>,
            }),
    {
        Build { out_dir }
    }

    /// Overrides the output directory.
    pub fn out_dir(&mut self, path: &str) -> (r: &mut Self)
        ensures
            (*r)@ == Some(path@),
            *final(self) == *final(r),
    {
        self.out_dir = Some(path.to_owned());
        self
    }

    /// The output directory, if one is set.
    pub fn output_dir(&self) -> (r: Option<&str>)
        ensures
            r matches Some(d) ==> self@ == Some(d@),
            r is None ==> self@ is None,
    {
        match &self.out_dir {
            Some(d) => Some(d.as_str()),
            None => None,
        }
    }
}

/// What a build leaves behind: header and library directories, and the libraries to link.
pub struct Artifacts {
    include_dir: String,
    lib_dir: String,
    libs: Vec<String>,
}

impl View for Artifacts {
    /// Header directory, library directory, library names.
    type V = (Seq<char>, Seq<char>, Seq<String>);

    closed spec fn view(&self) -> (Seq<char>, Seq<char>, Seq<String>) {
        (self.include_dir@, self.lib_dir@, self.libs@)
    }
}

impl Artifacts {
    /// Records the results of a build.
    pub fn new(include_dir: String, lib_dir: String, libs: Vec<String>) -> (r: Artifacts)
        ensures
            r@ == (include_dir@, lib_dir@, libs@),
    {
        Artifacts { include_dir, lib_dir, libs }
    }

    /// Directory with installed headers.
    pub fn include_dir(&self) -> (r: &str)
        ensures
            r@ == self@.0,
    {
        self.include_dir.as_str()
    }

    /// Directory with installed libraries.
    pub fn lib_dir(&self) -> (r: &str)
        ensures
            r@ == self@.1,
    {
        self.lib_dir.as_str()
    }

    /// Names of the libraries that need to be linked.
    pub fn libs(&self) -> (r: &[String])
        ensures
            r@ == self@.2,
    {
        self.libs.as_slice()
    }
}

} // verus!
