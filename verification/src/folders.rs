//! The category-folder vocabulary of the download tree.
//!
//! The folder names are a user-facing contract (the exchange's own
//! vocabulary). They are carried as one configuration value handed to the
//! classifier and the planner, so the engine can be exercised with any
//! vocabulary.

use vstd::prelude::*;
use vstd::string::*;

verus! {

/// The names of the category subfolders under `Download/<company>/`.
#[derive(Debug, Clone)]
pub struct FolderNames {
    /// declaration drafts
    pub declare: String,
    /// meeting drafts
    pub meeting: String,
    /// registration drafts
    pub register: String,
    /// query-and-reply, issuer and sponsor
    pub sponsor: String,
    /// query-and-reply, accountant
    pub accountant: String,
    /// query-and-reply, lawyer
    pub lawyer: String,
    /// query-and-reply not matching any known filename prefix
    pub unclassified: String,
    /// registration results, termination notices and meeting announcements
    pub result_folder: String,
}

pub struct FolderNamesView {
    pub declare: Seq<char>,
    pub meeting: Seq<char>,
    pub register: Seq<char>,
    pub sponsor: Seq<char>,
    pub accountant: Seq<char>,
    pub lawyer: Seq<char>,
    pub unclassified: Seq<char>,
    pub result_folder: Seq<char>,
}

impl View for FolderNames {
    type V = FolderNamesView;

    open spec fn view(&self) -> FolderNamesView {
        FolderNamesView {
            declare: self.declare@,
            meeting: self.meeting@,
            register: self.register@,
            sponsor: self.sponsor@,
            accountant: self.accountant@,
            lawyer: self.lawyer@,
            unclassified: self.unclassified@,
            result_folder: self.result_folder@,
        }
    }
}

/// The exchange's own folder vocabulary.
pub open spec fn spec_standard_folders() -> FolderNamesView {
    FolderNamesView {
        declare: "申报稿"@,
        meeting: "上会稿"@,
        register: "注册稿"@,
        sponsor: "问询与回复/发行人与保荐机构"@,
        accountant: "问询与回复/会计师"@,
        lawyer: "问询与回复/律师"@,
        unclassified: "问询与回复/未分组"@,
        result_folder: "结果"@,
    }
}

impl FolderNames {
    /// The standard vocabulary, in the exchange's own terms.
    pub fn standard() -> (r: FolderNames)
        ensures
            r@ == spec_standard_folders(),
    {
        FolderNames {
            declare: String::from_str("申报稿"),
            meeting: String::from_str("上会稿"),
            register: String::from_str("注册稿"),
            sponsor: String::from_str("问询与回复/发行人与保荐机构"),
            accountant: String::from_str("问询与回复/会计师"),
            lawyer: String::from_str("问询与回复/律师"),
            unclassified: String::from_str("问询与回复/未分组"),
            result_folder: String::from_str("结果"),
        }
    }
}

} // verus!
