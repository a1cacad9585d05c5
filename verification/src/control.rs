//! What the command line asks of the daemon, and what the daemon replies.

use vstd::prelude::*;

use crate::json::{self, Json};

verus! {

/// What the command line asks of the daemon.
#[derive(Debug)]
#[allow(inconsistent_fields)]
pub enum ControlRequest {
    Start { name: String },
    StartAll,
    Stop { name: String },
    Restart { name: String },
    Status { name: Option<String> },
    Shutdown,
}

impl Clone for ControlRequest {
    fn clone(&self) -> (copy: ControlRequest)
        ensures
            copy == *self,
    {
        match self {
            ControlRequest::Start { name } => ControlRequest::Start { name: name.clone() },
            ControlRequest::StartAll => ControlRequest::StartAll,
            ControlRequest::Stop { name } => ControlRequest::Stop { name: name.clone() },
            ControlRequest::Restart { name } => ControlRequest::Restart { name: name.clone() },
            ControlRequest::Status { name } => ControlRequest::Status {
                name: match name {
                    Some(name) => Some(name.clone()),
                    None => None,
                },
            },
            ControlRequest::Shutdown => ControlRequest::Shutdown,
        }
    }
}

/// What the daemon replies.
#[derive(Debug)]
pub struct ControlResponse {
    pub ok: bool,
    pub error: Option<String>,
    pub data: Option<Json>,
}

impl Clone for ControlResponse {
    fn clone(&self) -> (copy: ControlResponse)
        ensures
            copy.ok == self.ok,
            copy.error == self.error,
            json::held(copy.data) == json::held(self.data),
    {
        ControlResponse {
            ok: self.ok,
            error: match &self.error {
                Some(message) => Some(message.clone()),
                None => None,
            },
            data: match &self.data {
                Some(value) => Some(value.clone()),
                None => None,
            },
        }
    }
}

impl ControlResponse {
    /// The request was carried out.
    pub fn ok() -> (response: ControlResponse)
        ensures
            response.ok,
            response.error is None,
            response.data is None,
    {
        ControlResponse { ok: true, error: None, data: None }
    }

    /// The request failed.
    pub fn err(message: &str) -> (response: ControlResponse)
        ensures
            !response.ok,
            response.error is Some,
            response.error->0@ == message@,
            response.data is None,
    {
        ControlResponse { ok: false, error: Some(message.to_owned()), data: None }
    }

    /// The request was carried out, and this is what it asked for.
    pub fn data(value: Json) -> (response: ControlResponse)
        ensures
            response.ok,
            response.error is None,
            response.data == Some(value),
    {
        ControlResponse { ok: true, error: None, data: Some(value) }
    }

    /// What is said of a reply that reports a failure; `None` where the reply
    /// reports none.
    pub open spec fn failure(self) -> Option<Seq<char>> {
        if self.ok {
            None
        } else {
            match self.error {
                Some(message) => Some(message@),
                None => Some("unknown error"@),
            }
        }
    }

    /// What is said of a reply that reports a failure; `None` where the reply
    /// reports none.
    pub fn failure_message(&self) -> (message: Option<String>)
        ensures
            crate::text::text_of(message) == self.failure(),
    {
        if self.ok {
            None
        } else {
            match &self.error {
                Some(message) => Some(message.clone()),
                None => Some("unknown error".to_owned()),
            }
        }
    }
}

} // verus!
