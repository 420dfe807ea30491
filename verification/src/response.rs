//! The answer every command gives the user interface.

use vstd::prelude::*;

verus! {

/// The outcome of a command: either a success with a message and optional
/// data, or a failure carrying an error text.
#[derive(Debug, Clone)]
pub struct ApiResponse {
    pub success: bool,
    pub message: String,
    pub data: Option<String>,
    pub error: Option<String>,
    pub needs_manual_connect: Option<bool>,
}

/// The mathematical content of an [`ApiResponse`].
pub struct ResponseView {
    pub success: bool,
    pub message: Seq<char>,
    pub data: Option<Seq<char>>,
    pub error: Option<Seq<char>>,
    pub needs_manual_connect: Option<bool>,
}

/// The view of an optional string.
pub open spec fn opt_view(o: Option<String>) -> Option<Seq<char>> {
    match o {
        Some(s) => Some(s@),
        None => None,
    }
}

impl View for ApiResponse {
    type V = ResponseView;

    open spec fn view(&self) -> ResponseView {
        ResponseView {
            success: self.success,
            message: self.message@,
            data: opt_view(self.data),
            error: opt_view(self.error),
            needs_manual_connect: self.needs_manual_connect,
        }
    }
}

/// A successful answer with the given message and data.
pub open spec fn succeeded(message: Seq<char>, data: Option<Seq<char>>) -> ResponseView {
    ResponseView { success: true, message, data, error: None, needs_manual_connect: None }
}

/// A failed answer with the given error text.
pub open spec fn failed(error: Seq<char>) -> ResponseView {
    ResponseView {
        success: false,
        message: Seq::empty(),
        data: None,
        error: Some(error),
        needs_manual_connect: None,
    }
}

impl ResponseView {
    /// An answer is consistent when a success carries no error and a failure
    /// carries an error and nothing else.
    pub open spec fn consistent(self) -> bool {
        if self.success {
            self.error is None
        } else {
            &&& self.error is Some
            &&& self.message.len() == 0
            &&& self.data is None
            &&& self.needs_manual_connect is None
        }
    }
}

/// Every answer built from [`succeeded`] or [`failed`] is consistent.
pub proof fn lemma_answers_consistent(message: Seq<char>, data: Option<Seq<char>>, error: Seq<char>)
    ensures
        succeeded(message, data).consistent(),
        failed(error).consistent(),
{
}

impl ApiResponse {
    /// A failed answer carrying `error`.
    pub fn failure(error: String) -> (r: ApiResponse)
        ensures
            r@ == failed(error@),
    {
        ApiResponse {
            success: false,
            message: String::new(),
            data: None,
            error: Some(error),
            needs_manual_connect: None,
        }
    }

    /// A failed answer carrying the text `error`.
    pub fn failure_str(error: &str) -> (r: ApiResponse)
        ensures
            r@ == failed(error@),
    {
        ApiResponse::failure(String::from_str(error))
    }

    /// A copy of this answer.
    pub fn copy(&self) -> (r: ApiResponse)
        ensures
            r@ == self@,
    {
        let data = match &self.data {
            Some(d) => Some(d.clone()),
            None => None,
        };
        let error = match &self.error {
            Some(e) => Some(e.clone()),
            None => None,
        };
        ApiResponse {
            success: self.success,
            message: self.message.clone(),
            data,
            error,
            needs_manual_connect: self.needs_manual_connect,
        }
    }

    /// A successful answer with `message` and `data`.
    pub fn success(message: String, data: Option<String>) -> (r: ApiResponse)
        ensures
            r@ == succeeded(message@, opt_view(data)),
    {
        ApiResponse { success: true, message, data, error: None, needs_manual_connect: None }
    }
}

} // verus!
