//! The languages the Google translate speech endpoint accepts, with their
//! request codes.

use vstd::prelude::*;

verus! {

/// A language selectable for the Google translate backend.
#[derive(Clone, Copy, Debug, PartialEq, Eq, Structural)]
pub enum Languages {
    English,
    Spanish,
    French,
    German,
    Italian,
    Portuguese,
    Dutch,
    Russian,
    Japanese,
    Korean,
    Chinese,
    Hindi,
    Arabic,
    Turkish,
}

impl Languages {
    /// The request code of each language.
    pub open spec fn spec_code(&self) -> Seq<char> {
        match self {
            Languages::English => "en"@,
            Languages::Spanish => "es"@,
            Languages::French => "fr"@,
            Languages::German => "de"@,
            Languages::Italian => "it"@,
            Languages::Portuguese => "pt"@,
            Languages::Dutch => "nl"@,
            Languages::Russian => "ru"@,
            Languages::Japanese => "ja"@,
            Languages::Korean => "ko"@,
            Languages::Chinese => "zh"@,
            Languages::Hindi => "hi"@,
            Languages::Arabic => "ar"@,
            Languages::Turkish => "tr"@,
        }
    }

    /// The code this language is named by in a request.
    pub fn as_code(&self) -> (r: String)
        ensures
            r@ == self.spec_code(),
    {
        match self {
            Languages::English => "en".to_owned(),
            Languages::Spanish => "es".to_owned(),
            Languages::French => "fr".to_owned(),
            Languages::German => "de".to_owned(),
            Languages::Italian => "it".to_owned(),
            Languages::Portuguese => "pt".to_owned(),
            Languages::Dutch => "nl".to_owned(),
            Languages::Russian => "ru".to_owned(),
            Languages::Japanese => "ja".to_owned(),
            Languages::Korean => "ko".to_owned(),
            Languages::Chinese => "zh".to_owned(),
            Languages::Hindi => "hi".to_owned(),
            Languages::Arabic => "ar".to_owned(),
            Languages::Turkish => "tr".to_owned(),
        }
    }
}

impl Default for Languages {
    /// English is the default language.
    fn default() -> (r: Self)
        ensures
            r == Languages::English,
    {
        Languages::English
    }
}

} // verus!
