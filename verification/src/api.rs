//! Failures as the service reports them, and the payload that carries one to
//! a client.

use vstd::prelude::*;
use crate::error::{EmbedderError, EmbedderErrorView};
use crate::text::{decimal, decimal_string, lemma_decimal_injective};

verus! {

/// The status that every failure is answered with.
pub const INTERNAL_SERVER_ERROR: u16 = 500;

/// The machine-readable part of an [`ErrorItem`].
#[derive(Clone, Debug, PartialEq, Eq)]
pub struct ErrorValue {
    pub reason: String,
}

/// One entry of a payload's list of errors, bound to one input.
#[derive(Clone, Debug, PartialEq, Eq)]
pub struct ErrorItem {
    pub location: Option<String>,
    pub message: String,
    pub value: ErrorValue,
}

/// The payload that describes a failure to a client.
#[derive(Clone, Debug, PartialEq, Eq)]
pub struct ErrorModel {
    pub title: String,
    pub status: u16,
    pub description: String,
    pub log_reference: Option<String>,
    pub uri_reference: Option<String>,
    pub errors: Vec<ErrorItem>,
}

/// Every way in which a request, or the service as a whole, can fail.
#[derive(Debug, PartialEq, Eq)]
#[non_exhaustive]
pub enum EmbedderAPIError {
    /// The command line could not be parsed.
    ArgsError(String),
    /// The embedding library failed.
    EmbedderError(EmbedderError),
    /// Binding or serving the socket failed.
    IoError(String),
    /// The web framework failed.
    AxumError(String),
    /// The service was stopped by a termination signal.
    UserTerminated,
    /// Some inputs could not be embedded: the index of each such input, the
    /// message and the reason.
    CannotEmbedInput(Vec<(usize, String, String)>),
    /// The named feature does not exist yet.
    NotImplemented(String),
    /// The worker that was to run the transform did not finish it.
    ConcurrencyError(String),
}

/// An [`EmbedderAPIError`] with its texts as sequences of characters.
pub enum EmbedderAPIErrorView {
    ArgsError(Seq<char>),
    EmbedderError(EmbedderErrorView),
    IoError(Seq<char>),
    AxumError(Seq<char>),
    UserTerminated,
    CannotEmbedInput(Seq<(usize, Seq<char>, Seq<char>)>),
    NotImplemented(Seq<char>),
    ConcurrencyError(Seq<char>),
}

/// A failed input with its texts as sequences of characters.
pub open spec fn input_view(input: (usize, String, String)) -> (usize, Seq<char>, Seq<char>) {
    (input.0, input.1@, input.2@)
}

impl View for EmbedderAPIError {
    type V = EmbedderAPIErrorView;

    open spec fn view(&self) -> EmbedderAPIErrorView {
        match *self {
            EmbedderAPIError::ArgsError(error) => EmbedderAPIErrorView::ArgsError(error@),
            EmbedderAPIError::EmbedderError(error) => EmbedderAPIErrorView::EmbedderError(error@),
            EmbedderAPIError::IoError(error) => EmbedderAPIErrorView::IoError(error@),
            EmbedderAPIError::AxumError(error) => EmbedderAPIErrorView::AxumError(error@),
            EmbedderAPIError::UserTerminated => EmbedderAPIErrorView::UserTerminated,
            EmbedderAPIError::CannotEmbedInput(inputs) => EmbedderAPIErrorView::CannotEmbedInput(
                inputs@.map_values(|input: (usize, String, String)| input_view(input)),
            ),
            EmbedderAPIError::NotImplemented(feature) => EmbedderAPIErrorView::NotImplemented(
                feature@,
            ),
            EmbedderAPIError::ConcurrencyError(error) => EmbedderAPIErrorView::ConcurrencyError(
                error@,
            ),
        }
    }
}

impl EmbedderAPIErrorView {
    /// The name of the kind of failure: the same for every failure of one
    /// kind, whatever it carries.
    pub open spec fn variant(self) -> Seq<char> {
        match self {
            EmbedderAPIErrorView::ArgsError(_) => "ArgsError"@,
            EmbedderAPIErrorView::EmbedderError(_) => "EmbedderError"@,
            EmbedderAPIErrorView::IoError(_) => "IoError"@,
            EmbedderAPIErrorView::AxumError(_) => "AxumError"@,
            EmbedderAPIErrorView::UserTerminated => "UserTerminated"@,
            EmbedderAPIErrorView::CannotEmbedInput(_) => "CannotEmbedInput"@,
            EmbedderAPIErrorView::NotImplemented(_) => "NotImplemented"@,
            EmbedderAPIErrorView::ConcurrencyError(_) => "ConcurrencyError"@,
        }
    }

    /// Whether `self` and `other` are failures of one kind.
    pub open spec fn same_kind(self, other: Self) -> bool {
        match (self, other) {
            (EmbedderAPIErrorView::ArgsError(_), EmbedderAPIErrorView::ArgsError(_)) => true,
            (EmbedderAPIErrorView::EmbedderError(_), EmbedderAPIErrorView::EmbedderError(_)) => true,
            (EmbedderAPIErrorView::IoError(_), EmbedderAPIErrorView::IoError(_)) => true,
            (EmbedderAPIErrorView::AxumError(_), EmbedderAPIErrorView::AxumError(_)) => true,
            (EmbedderAPIErrorView::UserTerminated, EmbedderAPIErrorView::UserTerminated) => true,
            (
                EmbedderAPIErrorView::CannotEmbedInput(_),
                EmbedderAPIErrorView::CannotEmbedInput(_),
            ) => true,
            (EmbedderAPIErrorView::NotImplemented(_), EmbedderAPIErrorView::NotImplemented(_)) => true,
            (
                EmbedderAPIErrorView::ConcurrencyError(_),
                EmbedderAPIErrorView::ConcurrencyError(_),
            ) => true,
            _ => false,
        }
    }

    /// The text that describes this failure to a reader.
    pub open spec fn message(self) -> Seq<char> {
        match self {
            EmbedderAPIErrorView::ArgsError(error) => error,
            EmbedderAPIErrorView::EmbedderError(error) => error.message(),
            EmbedderAPIErrorView::IoError(error) => error,
            EmbedderAPIErrorView::AxumError(error) => error,
            EmbedderAPIErrorView::UserTerminated => "User terminated."@,
            EmbedderAPIErrorView::CannotEmbedInput(_) => "Cannot embed some of the inputs."@,
            EmbedderAPIErrorView::NotImplemented(feature) => feature + " is not yet implemented."@,
            EmbedderAPIErrorView::ConcurrencyError(error) => error,
        }
    }
}

impl From<EmbedderError> for EmbedderAPIError {
    /// A failure of the embedding library is a failure of the service.
    fn from(error: EmbedderError) -> (wrapped: Self) {
        EmbedderAPIError::EmbedderError(error)
    }
}

impl vstd::std_specs::convert::FromSpecImpl<EmbedderError> for EmbedderAPIError {
    open spec fn obeys_from_spec() -> bool {
        true
    }

    open spec fn from_spec(error: EmbedderError) -> Self {
        EmbedderAPIError::EmbedderError(error)
    }
}

/// Where in the request the input with index `index` stands.
pub open spec fn location_spec(index: usize) -> Seq<char> {
    "documents."@ + decimal(index as nat)
}

/// Whether `item` reports the failed input `input`.
pub open spec fn reports(item: ErrorItem, input: (usize, String, String)) -> bool {
    &&& item.location matches Some(location)
    &&& location@ == location_spec(input.0)
    &&& item.message@ == input.1@
    &&& item.value.reason@ == input.2@
}

impl EmbedderAPIError {
    /// The status code for the error.
    pub fn status_code(&self) -> (status: u16)
        ensures
            status == INTERNAL_SERVER_ERROR,
    {
        INTERNAL_SERVER_ERROR
    }

    /// The name of the kind of failure.
    pub fn variant(&self) -> (name: String)
        ensures
            name@ == self@.variant(),
    {
        match self {
            EmbedderAPIError::ArgsError(_) => String::from_str("ArgsError"),
            EmbedderAPIError::EmbedderError(_) => String::from_str("EmbedderError"),
            EmbedderAPIError::IoError(_) => String::from_str("IoError"),
            EmbedderAPIError::AxumError(_) => String::from_str("AxumError"),
            EmbedderAPIError::UserTerminated => String::from_str("UserTerminated"),
            EmbedderAPIError::CannotEmbedInput(_) => String::from_str("CannotEmbedInput"),
            EmbedderAPIError::NotImplemented(_) => String::from_str("NotImplemented"),
            EmbedderAPIError::ConcurrencyError(_) => String::from_str("ConcurrencyError"),
        }
    }

    /// Writes out the description of this failure.
    pub fn message(&self) -> (text: String)
        ensures
            text@ == self@.message(),
    {
        match self {
            EmbedderAPIError::ArgsError(error) => error.clone(),
            EmbedderAPIError::EmbedderError(error) => error.message(),
            EmbedderAPIError::IoError(error) => error.clone(),
            EmbedderAPIError::AxumError(error) => error.clone(),
            EmbedderAPIError::UserTerminated => String::from_str("User terminated."),
            EmbedderAPIError::CannotEmbedInput(_) => String::from_str(
                "Cannot embed some of the inputs.",
            ),
            EmbedderAPIError::NotImplemented(feature) => {
                let mut text = feature.clone();
                text.append(" is not yet implemented.");
                text
            },
            EmbedderAPIError::ConcurrencyError(error) => error.clone(),
        }
    }

    /// The payload for a client: the kind as title, the status, the
    /// description, and one entry for each input that a
    /// [`EmbedderAPIError::CannotEmbedInput`] names, in the same order.
    pub fn to_error_model(&self) -> (model: ErrorModel)
        ensures
            model.title@ == self@.variant(),
            model.status == INTERNAL_SERVER_ERROR,
            model.description@ == self@.message(),
            model.log_reference is None,
            model.uri_reference is None,
            match *self {
                EmbedderAPIError::CannotEmbedInput(inputs) => {
                    &&& model.errors@.len() == inputs@.len()
                    &&& forall|i: int|
                        0 <= i < inputs@.len() ==> reports(#[trigger] model.errors@[i], inputs@[i])
                },
                _ => model.errors@.len() == 0,
            },
    {
        let errors = match self {
            EmbedderAPIError::CannotEmbedInput(inputs) => error_items(inputs),
            _ => Vec::new(),
        };
        ErrorModel {
            title: self.variant(),
            status: self.status_code(),
            description: self.message(),
            log_reference: None,
            uri_reference: None,
            errors,
        }
    }
}

/// The entry that reports the failed input with index `index`.
fn error_item(index: usize, message: &String, reason: &String) -> (item: ErrorItem)
    ensures
        item.location matches Some(location) && location@ == location_spec(index),
        item.message@ == message@,
        item.value.reason@ == reason@,
{
    let mut location = String::from_str("documents.");
    let number = decimal_string(index);
    location.append(number.as_str());
    ErrorItem {
        location: Some(location),
        message: message.clone(),
        value: ErrorValue { reason: reason.clone() },
    }
}

/// One entry for each failed input, in the order of `inputs`.
fn error_items(inputs: &Vec<(usize, String, String)>) -> (items: Vec<ErrorItem>)
    ensures
        items@.len() == inputs@.len(),
        forall|i: int| 0 <= i < inputs@.len() ==> reports(#[trigger] items@[i], inputs@[i]),
{
    let mut items: Vec<ErrorItem> = Vec::new();
    let mut at: usize = 0;
    while at < inputs.len()
        invariant
            at <= inputs@.len(),
            items@.len() == at,
            forall|i: int| 0 <= i < at ==> reports(#[trigger] items@[i], inputs@[i]),
        decreases inputs@.len() - at,
    {
        let input = &inputs[at];
        let item = error_item(input.0, &input.1, &input.2);
        items.push(item);
        at += 1;
    }
    items
}

/// The name of a failure tells its kind and nothing else: failures of one
/// kind have one name, whatever they carry, and failures of two kinds have
/// two names.
pub proof fn lemma_variant_names_the_kind(one: EmbedderAPIErrorView, other: EmbedderAPIErrorView)
    ensures
        one.variant() == other.variant() <==> one.same_kind(other),
{
    reveal_strlit("ArgsError");
    reveal_strlit("EmbedderError");
    reveal_strlit("IoError");
    reveal_strlit("AxumError");
    reveal_strlit("UserTerminated");
    reveal_strlit("CannotEmbedInput");
    reveal_strlit("NotImplemented");
    reveal_strlit("ConcurrencyError");
    assert("ArgsError"@.len() == 9 && "AxumError"@.len() == 9);
    assert("EmbedderError"@.len() == 13);
    assert("IoError"@.len() == 7);
    assert("UserTerminated"@.len() == 14 && "NotImplemented"@.len() == 14);
    assert("CannotEmbedInput"@.len() == 16 && "ConcurrencyError"@.len() == 16);
    assert("ArgsError"@[1] != "AxumError"@[1]);
    assert("UserTerminated"@[0] != "NotImplemented"@[0]);
    assert("CannotEmbedInput"@[1] != "ConcurrencyError"@[1]);
}

/// Every input has a location of its own: two inputs at the same location
/// are the same input.
pub proof fn lemma_location_identifies_input(index: usize, other: usize)
    requires
        location_spec(index) == location_spec(other),
    ensures
        index == other,
{
    let prefix = "documents."@;
    assert(location_spec(index).subrange(prefix.len() as int, location_spec(index).len() as int)
        =~= decimal(index as nat));
    assert(location_spec(other).subrange(prefix.len() as int, location_spec(other).len() as int)
        =~= decimal(other as nat));
    lemma_decimal_injective(index as nat, other as nat);
}

} // verus!
