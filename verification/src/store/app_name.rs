//! Application name configuration for storage paths.
use vstd::prelude::*;
use vstd::string::*;

verus! {

/// Application identifier used to determine the storage location.
#[derive(Debug, PartialEq, Eq)]
pub struct AppName {
    /// Typically a reverse domain name part, such as "com" or "org".
    pub qualifier: String,
    /// The organization or user name.
    pub organization: String,
    /// The application name.
    pub application: String,
}

/// The three texts of an [`AppName`].
pub struct AppNameView {
    pub qualifier: Seq<char>,
    pub organization: Seq<char>,
    pub application: Seq<char>,
}

impl View for AppName {
    type V = AppNameView;

    open spec fn view(&self) -> AppNameView {
        AppNameView {
            qualifier: self.qualifier@,
            organization: self.organization@,
            application: self.application@,
        }
    }
}

impl AppName {
    /// Create a new application name.
    pub fn new(qualifier: &str, organization: &str, application: &str) -> (name: Self)
        ensures
            name@ == (AppNameView {
                qualifier: qualifier@,
                organization: organization@,
                application: application@,
            }),
    {
        AppName {
            qualifier: String::from_str(qualifier),
            organization: String::from_str(organization),
            application: String::from_str(application),
        }
    }
}

impl Clone for AppName {
    fn clone(&self) -> (copy: Self)
        ensures
            copy@ == self@,
    {
        AppName {
            qualifier: self.qualifier.clone(),
            organization: self.organization.clone(),
            application: self.application.clone(),
        }
    }
}

} // verus!
