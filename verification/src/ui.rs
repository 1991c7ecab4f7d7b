//! Choices that the operator makes among releases or assets.

use crate::ghapi::{asset_line, release_line, text_of, Asset, Release};
use vstd::prelude::*;
use vstd::string::StringExecFns;

verus! {

/// Something that can be offered to the operator for choice, by the line that describes it.
pub trait Choosable {
    fn to_string(&self) -> String;
}

impl Choosable for Release {
    /// The line that offers the release: its name, its description and, in brackets, a time of
    /// publication.
    fn to_string(&self) -> (r: String)
        ensures
            exists|date: Seq<char>| r@ == #[trigger] release_line(
                self.name@,
                text_of(self.desc),
                date,
            ),
    {
        Release::to_string(self)
    }
}

impl Choosable for Asset {
    /// The line that offers the asset: a size, its name and its label.
    fn to_string(&self) -> (r: String)
        ensures
            exists|size: Seq<char>| r@ == #[trigger] asset_line(
                size,
                self.name@,
                text_of(self.label),
            ),
    {
        Asset::to_string(self)
    }
}

/// Why no choice was made.
#[derive(Debug, Clone, Copy, PartialEq, Eq, Structural)]
pub enum ChoiceError {
    /// There was nothing to choose from.
    NoChoices,
    /// The operator left the prompt without a choice.
    Cancelled,
}

/// What `ChoiceError::message` says of each error.
pub open spec fn choice_error_text(error: ChoiceError) -> Seq<char> {
    match error {
        ChoiceError::NoChoices => "No choices available!"@,
        ChoiceError::Cancelled => "cancelled."@,
    }
}

impl ChoiceError {
    /// The error in words, for the operator.
    pub fn message(&self) -> (r: String)
        ensures
            r@ == choice_error_text(*self),
    {
        match self {
            ChoiceError::NoChoices => String::from_str("No choices available!"),
            ChoiceError::Cancelled => String::from_str("cancelled."),
        }
    }
}

/// The position that a prompt over `count` options settles on, given what the operator
/// picked. Without options there is nothing to choose. A pick that names none of the options
/// counts as none.
pub open spec fn chosen(count: nat, picked: Option<usize>) -> Result<int, ChoiceError> {
    if count == 0 {
        Err(ChoiceError::NoChoices)
    } else {
        match picked {
            Some(i) => if i < count {
                Ok(i as int)
            } else {
                Err(ChoiceError::Cancelled)
            },
            None => Err(ChoiceError::Cancelled),
        }
    }
}

/// Settles the position chosen among `count` options.
pub fn choose_index(count: usize, picked: Option<usize>) -> (r: Result<usize, ChoiceError>)
    ensures
        match r {
            Ok(i) => chosen(count as nat, picked) == Ok::<int, ChoiceError>(i as int),
            Err(error) => chosen(count as nat, picked) == Err::<int, ChoiceError>(error),
        },
{
    if count == 0 {
        return Err(ChoiceError::NoChoices);
    }
    match picked {
        Some(i) => {
            if i < count {
                Ok(i)
            } else {
                Err(ChoiceError::Cancelled)
            }
        },
        None => Err(ChoiceError::Cancelled),
    }
}

/// The option that the operator chose: the one at the position picked.
pub fn choose_one<T: Choosable>(options: &[T], picked: Option<usize>) -> (r: Result<&T, ChoiceError>)
    ensures
        match r {
            Ok(option) => chosen(options@.len(), picked) is Ok && *option == options@[chosen(
                options@.len(),
                picked,
            ).unwrap()],
            Err(error) => chosen(options@.len(), picked) == Err::<int, ChoiceError>(error),
        },
{
    match choose_index(options.len(), picked) {
        Ok(i) => Ok(&options[i]),
        Err(error) => Err(error),
    }
}

} // verus!
