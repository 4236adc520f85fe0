//! The models the subtitling tool can be asked to use.

use vstd::prelude::*;

verus! {

/// How large a model the tool loads. One member so far; the rest of the
/// library goes through [`ModelQuality::token`] and [`ModelQuality::all`], so
/// a new member is added here and nowhere else.
#[derive(Clone, Copy, Debug, PartialEq, Eq, Structural)]
pub enum ModelQuality {
    Medium,
}

impl ModelQuality {
    /// The word that names this model on the command line.
    pub open spec fn token_text(self) -> Seq<char> {
        match self {
            ModelQuality::Medium => "medium"@,
        }
    }

    /// The name under which a selector shows this model.
    pub open spec fn name_text(self) -> Seq<char> {
        match self {
            ModelQuality::Medium => "Medium"@,
        }
    }

    /// Every model, in the order a selector lists them.
    pub open spec fn members() -> Seq<ModelQuality> {
        seq![ModelQuality::Medium]
    }

    pub fn token(self) -> (word: &'static str)
        ensures
            word@ == self.token_text(),
    {
        match self {
            ModelQuality::Medium => "medium",
        }
    }

    pub fn name(self) -> (word: &'static str)
        ensures
            word@ == self.name_text(),
    {
        match self {
            ModelQuality::Medium => "Medium",
        }
    }

    pub fn all() -> (list: Vec<ModelQuality>)
        ensures
            list@ == Self::members(),
    {
        let mut list: Vec<ModelQuality> = Vec::new();
        list.push(ModelQuality::Medium);
        assert(list@ =~= Self::members());
        list
    }

    /// A selector offers each model once: every model is in the list, and no
    /// entry of the list repeats another.
    pub proof fn lemma_members_complete(quality: ModelQuality)
        ensures
            Self::members().contains(quality),
            Self::members().no_duplicates(),
    {
        assert(Self::members()[0] == quality);
    }
}

} // verus!
