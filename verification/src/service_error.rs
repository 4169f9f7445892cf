//! Errors of a replay run.

use vstd::prelude::*;
use vstd::string::*;

verus! {

/// What can go wrong while a run is set up or an entry is replayed.
#[derive(Debug)]
pub enum ServiceError {
    /// The configuration names no new target.
    EmptyNewUrl,
    /// The configuration names no old target.
    EmptyOldUrl,
    /// The configured request method, held here, is neither GET nor POST.
    UnsupportedMethod(String),
    /// A call timed out or failed in transport; the text is the transport's.
    Transport(String),
    /// The dispatch queue has lost its workers.
    ChannelClosed,
}

/// Mathematical value of a [`ServiceError`].
pub enum ServiceErrorView {
    EmptyNewUrl,
    EmptyOldUrl,
    UnsupportedMethod(Seq<char>),
    Transport(Seq<char>),
    ChannelClosed,
}

impl View for ServiceError {
    type V = ServiceErrorView;

    open spec fn view(&self) -> ServiceErrorView {
        match self {
            ServiceError::EmptyNewUrl => ServiceErrorView::EmptyNewUrl,
            ServiceError::EmptyOldUrl => ServiceErrorView::EmptyOldUrl,
            ServiceError::UnsupportedMethod(method) => ServiceErrorView::UnsupportedMethod(method@),
            ServiceError::Transport(text) => ServiceErrorView::Transport(text@),
            ServiceError::ChannelClosed => ServiceErrorView::ChannelClosed,
        }
    }
}

impl ServiceErrorView {
    /// The text that describes the error to a reader of the run's log.
    pub open spec fn message(self) -> Seq<char> {
        match self {
            ServiceErrorView::EmptyNewUrl => "input new_url is empty"@,
            ServiceErrorView::EmptyOldUrl => "input old_url is empty"@,
            ServiceErrorView::UnsupportedMethod(method) => "unkonw request method :"@ + method,
            ServiceErrorView::Transport(text) => text,
            ServiceErrorView::ChannelClosed => "send to channel fail"@,
        }
    }
}

impl ServiceError {
    /// The text that describes the error to a reader of the run's log.
    pub fn message(&self) -> (text: String)
        ensures
            text@ == self@.message(),
    {
        match self {
            ServiceError::EmptyNewUrl => String::from_str("input new_url is empty"),
            ServiceError::EmptyOldUrl => String::from_str("input old_url is empty"),
            ServiceError::UnsupportedMethod(method) => {
                let mut text = String::from_str("unkonw request method :");
                text.append(method.as_str());
                text
            },
            ServiceError::Transport(text) => text.clone(),
            ServiceError::ChannelClosed => String::from_str("send to channel fail"),
        }
    }
}

} // verus!
