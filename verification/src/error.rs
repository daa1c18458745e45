//! What can go wrong with a completion.
use vstd::prelude::*;

verus! {

/// Why a completion failed.
#[derive(Debug, PartialEq, Eq)]
pub enum CompletionError {
    /// The request cannot be built.
    RequestError(String),
    /// The response cannot be read.
    ResponseError(String),
    /// The provider refused or failed.
    ProviderError(String),
}

/// What a `CompletionError` stands for.
pub enum CompletionErrorView {
    RequestError(Seq<char>),
    ResponseError(Seq<char>),
    ProviderError(Seq<char>),
}

impl View for CompletionError {
    type V = CompletionErrorView;

    open spec fn view(&self) -> CompletionErrorView {
        match self {
            CompletionError::RequestError(text) => CompletionErrorView::RequestError(text@),
            CompletionError::ResponseError(text) => CompletionErrorView::ResponseError(text@),
            CompletionError::ProviderError(text) => CompletionErrorView::ProviderError(text@),
        }
    }
}

impl CompletionError {
    /// A request error with the given text.
    pub fn request(text: &str) -> (r: CompletionError)
        ensures
            r@ == CompletionErrorView::RequestError(text@),
    {
        CompletionError::RequestError(text.to_string())
    }

    /// A response error with the given text.
    pub fn response(text: &str) -> (r: CompletionError)
        ensures
            r@ == CompletionErrorView::ResponseError(text@),
    {
        CompletionError::ResponseError(text.to_string())
    }

    /// A provider error with the given text.
    pub fn provider(text: &str) -> (r: CompletionError)
        ensures
            r@ == CompletionErrorView::ProviderError(text@),
    {
        CompletionError::ProviderError(text.to_string())
    }
}

} // verus!
