//! Utility models.

use vstd::prelude::*;

use crate::model::resource::names_view;
use crate::model::resource::Name;
use crate::model::resource::NameView;

verus! {

/// The view of one language record.
pub ghost struct LanguageView {
    /// The identifier for this resource.
    pub id: int,
    /// The name for this resource.
    pub name: Seq<char>,
    /// Whether games are published in this language.
    pub official: bool,
    /// The two-letter code of the language.
    pub iso639: Seq<char>,
    /// The two-letter code of the country where this language is spoken.
    pub iso3166: Seq<char>,
    /// The localized names.
    pub names: Seq<NameView>,
}

/// Languages for translations of API resource information.
#[derive(Default, Debug, Clone, PartialEq, Eq)]
pub struct Language {
    /// The identifier for this resource.
    pub id: i64,
    /// The name for this resource.
    pub name: String,
    /// Whether or not the games are published in this language.
    pub official: bool,
    /// The two-letter code of the country where this language is spoken. Note that it is not unique.
    pub iso639: String,
    /// The two-letter code of the language. Note that it is not unique.
    pub iso3166: String,
    /// The name of this resource listed in different languages.
    pub names: Vec<Name>,
}

impl View for Language {
    type V = LanguageView;

    open spec fn view(&self) -> LanguageView {
        LanguageView {
            id: self.id as int,
            name: self.name@,
            official: self.official,
            iso639: self.iso639@,
            iso3166: self.iso3166@,
            names: names_view(self.names@),
        }
    }
}

} // verus!
