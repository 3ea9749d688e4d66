use vstd::prelude::*;

verus! {

/// The name of the model a default client talks to.
pub open spec fn default_model_spec() -> Seq<char> {
    seq!['g', 'p', 't', '-', '3', '.', '5', '-', 't', 'u', 'r', 'b', 'o']
}

/// Settings of a client of a GPT model.
#[derive(Debug)]
pub struct Gpt {
    pub model: String,
}

impl Clone for Gpt {
    fn clone(&self) -> (r: Self)
        ensures
            r == *self,
    {
        Gpt { model: self.model.clone() }
    }
}

impl Default for Gpt {
    fn default() -> (r: Gpt)
        ensures
            r.model@ == default_model_spec(),
    {
        proof {
            reveal_strlit("gpt-3.5-turbo");
            assert("gpt-3.5-turbo"@ =~= default_model_spec());
        }
        Gpt { model: "gpt-3.5-turbo".to_owned() }
    }
}

/// The model an agent completes with.
#[derive(Debug)]
pub enum LanguageModel {
    Gpt(Gpt),
}

impl From<Gpt> for LanguageModel {
    fn from(value: Gpt) -> Self {
        LanguageModel::Gpt(value)
    }
}

impl vstd::std_specs::convert::FromSpecImpl<Gpt> for LanguageModel {
    open spec fn obeys_from_spec() -> bool {
        true
    }

    open spec fn from_spec(v: Gpt) -> Self {
        LanguageModel::Gpt(v)
    }
}

impl LanguageModel {
    /// The GPT settings inside.
    pub fn inner_gpt(&self) -> (r: Option<&Gpt>)
        ensures
            r is Some && *r->Some_0 == self->Gpt_0,
    {
        match self {
            LanguageModel::Gpt(g) => Some(g),
        }
    }

    /// The GPT settings inside, to change them in place.
    pub fn inner_mut_gpt(&mut self) -> (r: Option<&mut Gpt>)
        ensures
            r is Some,
            *r->Some_0 == old(self)->Gpt_0,
            *final(self) == LanguageModel::Gpt(*final(r->Some_0)),
    {
        match self {
            LanguageModel::Gpt(g) => Some(g),
        }
    }

    /// A GPT model with the default settings.
    pub fn default_gpt() -> (r: Self)
        ensures
            r->Gpt_0.model@ == default_model_spec(),
    {
        let gpt = Gpt::default();
        LanguageModel::Gpt(gpt)
    }
}

} // verus!
