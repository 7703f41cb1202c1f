//! What can go wrong while talking to the exchange.

use vstd::prelude::*;

verus! {

/// An error of the client. The text says what the failing side reported.
#[derive(Debug)]
pub enum Error {
    /// An order or a cancel names a coin that the exchange does not list.
    AssetNotFound,
    /// A request could not be written as JSON, or a response could not be read.
    JsonParse(String),
    /// The connection could not be opened or used, or was closed.
    Websocket(String),
    /// An action could not be written as MessagePack.
    RmpParse(String),
    /// The wallet could not sign.
    SignatureFailure(String),
    /// A request over HTTP failed.
    GenericRequest(String),
}

/// An [`Error`] with its text taken as a sequence of characters.
#[verifier::ext_equal]
pub enum ErrorView {
    AssetNotFound,
    JsonParse(Seq<char>),
    Websocket(Seq<char>),
    RmpParse(Seq<char>),
    SignatureFailure(Seq<char>),
    GenericRequest(Seq<char>),
}

impl View for Error {
    type V = ErrorView;

    open spec fn view(&self) -> ErrorView {
        match self {
            Error::AssetNotFound => ErrorView::AssetNotFound,
            Error::JsonParse(text) => ErrorView::JsonParse(text@),
            Error::Websocket(text) => ErrorView::Websocket(text@),
            Error::RmpParse(text) => ErrorView::RmpParse(text@),
            Error::SignatureFailure(text) => ErrorView::SignatureFailure(text@),
            Error::GenericRequest(text) => ErrorView::GenericRequest(text@),
        }
    }
}

/// A result with its error, if any, taken by its view.
pub open spec fn outcome_view<T>(outcome: Result<T, Error>) -> Result<T, ErrorView> {
    match outcome {
        Ok(value) => Ok(value),
        Err(error) => Err(error@),
    }
}

/// The view of an error keeps its kind and its text, and the view of an outcome keeps the
/// value: from the view one can tell what the outcome is.
pub proof fn law_view_keeps_the_outcome<T>(outcome: Result<T, Error>)
    ensures
        match outcome {
            Ok(value) => outcome_view(outcome) == Ok::<T, ErrorView>(value),
            Err(error) => match (error, outcome_view(outcome)) {
                (Error::AssetNotFound, Err(ErrorView::AssetNotFound)) => true,
                (Error::JsonParse(text), Err(ErrorView::JsonParse(chars))) => text@ == chars,
                (Error::Websocket(text), Err(ErrorView::Websocket(chars))) => text@ == chars,
                (Error::RmpParse(text), Err(ErrorView::RmpParse(chars))) => text@ == chars,
                (Error::SignatureFailure(text), Err(ErrorView::SignatureFailure(chars))) => text@
                    == chars,
                (Error::GenericRequest(text), Err(ErrorView::GenericRequest(chars))) => text@
                    == chars,
                _ => false,
            },
        },
{
}

} // verus!
