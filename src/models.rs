use vstd::prelude::*;

verus! {

/// The joke service's response, as received: every field but the error flag
/// may be absent, and absence alone signals nothing.
#[derive(Debug, Clone)]
pub struct Joke {
    pub id: Option<u32>,
    pub joke: Option<String>,
    pub setup: Option<String>,
    pub delivery: Option<String>,
    pub category: Option<String>,
    pub error: bool,
}

/// The mathematical value of a [`Joke`]: its texts as character sequences.
pub ghost struct JokeModel {
    pub id: Option<u32>,
    pub joke: Option<Seq<char>>,
    pub setup: Option<Seq<char>>,
    pub delivery: Option<Seq<char>>,
    pub category: Option<Seq<char>>,
    pub error: bool,
}

/// The characters of an optional text.
pub open spec fn text_of(t: Option<String>) -> Option<Seq<char>> {
    match t {
        Some(s) => Some(s@),
        None => None,
    }
}

impl View for Joke {
    type V = JokeModel;

    open spec fn view(&self) -> JokeModel {
        JokeModel {
            id: self.id,
            joke: text_of(self.joke),
            setup: text_of(self.setup),
            delivery: text_of(self.delivery),
            category: text_of(self.category),
            error: self.error,
        }
    }
}

/// What a payload amounts to once classified: exactly one of three forms.
#[derive(Debug, Clone, PartialEq)]
pub enum JokeType {
    /// A joke told in one text.
    Single(String),
    /// A joke in two parts: the setup, then the delivery.
    TwoPart(String, String),
    /// No joke could be had; the text says why.
    Error(String),
}

/// The mathematical value of a [`JokeType`].
pub ghost enum Classification {
    Single(Seq<char>),
    TwoPart(Seq<char>, Seq<char>),
    Error(Seq<char>),
}

impl View for JokeType {
    type V = Classification;

    open spec fn view(&self) -> Classification {
        match self {
            JokeType::Single(t) => Classification::Single(t@),
            JokeType::TwoPart(s, d) => Classification::TwoPart(s@, d@),
            JokeType::Error(m) => Classification::Error(m@),
        }
    }
}

} // verus!
