use crate::models::{Classification, Joke, JokeModel, JokeType};
use vstd::prelude::*;

verus! {

/// The reason given when the service itself reports an error.
pub open spec fn service_error_reason() -> Seq<char> {
    "Error occurred while fetching joke"@
}

/// The reason given when the payload holds no usable joke text.
pub open spec fn no_joke_reason() -> Seq<char> {
    "No joke found"@
}

/// The classification of a payload, by precedence: the error flag first, then
/// the single text, then a complete setup and delivery pair.
pub open spec fn classification_of(p: JokeModel) -> Classification {
    if p.error {
        Classification::Error(service_error_reason())
    } else if p.joke is Some {
        Classification::Single(p.joke->0)
    } else if p.setup is Some && p.delivery is Some {
        Classification::TwoPart(p.setup->0, p.delivery->0)
    } else {
        Classification::Error(no_joke_reason())
    }
}

/// Decides which presentable form a payload takes and extracts its text.
/// Total: every combination of present and absent fields gives one result.
pub fn classify(joke: Joke) -> (r: JokeType)
    ensures
        r@ == classification_of(joke@),
        joke.error ==> r@ == Classification::Error(service_error_reason()),
        !joke.error && joke.joke is Some ==> r@ == Classification::Single(joke@.joke->0),
        !joke.error && joke.joke is None && joke.setup is Some && joke.delivery is Some
            ==> r@ == Classification::TwoPart(joke@.setup->0, joke@.delivery->0),
        !joke.error && joke.joke is None && (joke.setup is None || joke.delivery is None)
            ==> r@ == Classification::Error(no_joke_reason()),
{
    if joke.error {
        return JokeType::Error("Error occurred while fetching joke".to_string());
    }
    match (joke.joke, joke.setup, joke.delivery) {
        (Some(text), _, _) => JokeType::Single(text),
        (None, Some(setup), Some(delivery)) => JokeType::TwoPart(setup, delivery),
        _ => JokeType::Error("No joke found".to_string()),
    }
}

/// Classifying one payload twice gives identical results: any two results
/// that [`classify`] may return for the same payload are equal.
pub proof fn lemma_classify_twice(joke: Joke, first: JokeType, second: JokeType)
    requires
        first@ == classification_of(joke@),
        second@ == classification_of(joke@),
    ensures
        first@ == second@,
{
}

} // verus!
