use vstd::prelude::*;

verus! {

/// What a `Metadata` value holds: the host application's name, version and
/// repository URL.
pub struct MetadataView {
    pub name: Seq<char>,
    pub version: Seq<char>,
    pub repository: Seq<char>,
}

/// Information about the host application that is used to populate the crash
/// report and the message shown to users.
#[derive(Clone)]
pub struct Metadata {
    /// The name of the host application.
    name: String,
    /// The version of the host application.
    version: String,
    /// The URL of the repository of the host application.
    repository: String,
}

impl View for Metadata {
    type V = MetadataView;

    closed spec fn view(&self) -> MetadataView {
        MetadataView { name: self.name@, version: self.version@, repository: self.repository@ }
    }
}

impl Metadata {
    /// Creates a new metadata value from its three text fields, unchanged.
    pub fn new(name: String, version: String, repository: String) -> (r: Self)
        ensures
            r@.name == name@,
            r@.version == version@,
            r@.repository == repository@,
    {
        Metadata { name, version, repository }
    }

    /// The name of the host application.
    pub fn name(&self) -> (r: &str)
        ensures
            r@ == self@.name,
    {
        self.name.as_str()
    }

    /// The version of the host application.
    pub fn version(&self) -> (r: &str)
        ensures
            r@ == self@.version,
    {
        self.version.as_str()
    }

    /// The repository URL of the host application.
    pub fn repository(&self) -> (r: &str)
        ensures
            r@ == self@.repository,
    {
        self.repository.as_str()
    }
}

} // verus!
