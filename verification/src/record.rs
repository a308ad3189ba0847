//! The record of one modification, as the data source delivers it.

use vstd::prelude::*;
use vstd::string::StringExecFns;

verus! {

/// The version of the record's shape. It is part of the path of the data
/// set, so that a change of shape leaves every older copy behind.
pub const MOD_VERSION: &'static str = "3.2";

/// One modification.
#[derive(Clone, Debug, PartialEq, Eq)]
pub struct Mod {
    /// The name, plain.
    pub name: String,
    /// The name, with colour markup.
    pub name_markup: String,
    /// The link to the repository.
    pub link: String,
    /// The repository, as `owner/repo`.
    pub repo: String,
    /// The short description, plain.
    pub desc: String,
    /// The short description, with colour markup.
    pub desc_markup: Option<String>,
    /// The path of an icon inside the repository.
    pub icon: Option<String>,
    /// The stars of the repository.
    pub stars: u32,
    /// The author, plain.
    pub author: String,
    /// The author, with colour markup.
    pub author_markup: Option<String>,
    /// The last commit, as an ISO 8601 timestamp.
    pub date: String,
    /// The last commit, in milliseconds since 1970-01-01T00:00:00Z.
    pub date_tt: u64,
    /// The text of the readme.
    pub readme: String,
    /// The version that the modification declares.
    pub version: Option<String>,
    /// The kinds of assets it brings.
    pub assets: Vec<String>,
    /// The kinds of content it brings.
    pub contents: Vec<String>,
    /// The name to display, with colour markup.
    pub display_name: Option<String>,
    /// The link to a wiki.
    pub wiki: Option<String>,
}

impl Mod {
    /// A record from its parts, without a wiki.
    pub fn new(
        name: String,
        name_markup: String,
        link: String,
        repo: String,
        desc: String,
        desc_markup: Option<String>,
        icon: Option<String>,
        stars: u32,
        author: String,
        author_markup: Option<String>,
        date: String,
        date_tt: u64,
        readme: String,
        version: Option<String>,
        assets: Vec<String>,
        contents: Vec<String>,
        display_name: Option<String>,
    ) -> (made: Mod)
        ensures
            made == (Mod {
                name,
                name_markup,
                link,
                repo,
                desc,
                desc_markup,
                icon,
                stars,
                author,
                author_markup,
                date,
                date_tt,
                readme,
                version,
                assets,
                contents,
                display_name,
                wiki: None,
            }),
    {
        Mod {
            name,
            name_markup,
            link,
            repo,
            desc,
            desc_markup,
            icon,
            stars,
            author,
            author_markup,
            date,
            date_tt,
            readme,
            version,
            assets,
            contents,
            display_name,
            wiki: None,
        }
    }

    /// The last commit, in milliseconds since 1970-01-01T00:00:00Z.
    pub fn date_tt(&self) -> (millis: u64)
        ensures
            millis == self.date_tt,
    {
        self.date_tt
    }

    /// Where the archive of the repository's main branch is.
    pub open spec fn spec_archive_link(&self) -> Seq<char> {
        "https://github.com/"@ + self.repo@ + "/archive/master.zip"@
    }

    /// The link to the archive of the repository's main branch.
    pub fn archive_link(&self) -> (link: String)
        ensures
            link@ == self.spec_archive_link(),
    {
        let mut link = String::from_str("https://github.com/");
        link.append(self.repo.as_str());
        link.append("/archive/master.zip");
        link
    }
}

} // verus!
