//! The parameter record of the list command: which forge to ask, and an
//! optional filter on repository names.

use vstd::prelude::*;

use crate::gitea_url::GiteaUrl;

verus! {

/// The resolved list parameters, as contracts speak of them.
#[verifier::ext_equal]
pub struct ListModel {
    pub gitea_url: Seq<char>,
    pub filter: Option<Seq<char>>,
}

/// The immutable parameter record of the list command. Its URL is the
/// serialization of a parsed absolute URL, as [`GiteaUrl`] holds it.
pub struct ListParameters {
    gitea_url: GiteaUrl,
    filter: Option<String>,
}

impl View for ListParameters {
    type V = ListModel;

    closed spec fn view(&self) -> ListModel {
        ListModel { gitea_url: self.gitea_url@, filter: self.filter.deep_view() }
    }
}

impl ListParameters {
    pub fn new(gitea_url: GiteaUrl, filter: Option<String>) -> (r: ListParameters)
        ensures
            r@.gitea_url == gitea_url@,
            r@.filter == filter.deep_view(),
    {
        ListParameters { gitea_url, filter }
    }

    pub fn gitea_url(&self) -> (r: &GiteaUrl)
        ensures
            r@ == self@.gitea_url,
    {
        &self.gitea_url
    }

    pub fn filter(&self) -> (r: &Option<String>)
        ensures
            r.deep_view() == self@.filter,
    {
        &self.filter
    }
}

} // verus!
