//! The answer to a request for the statistics relay: an HTTP status and the
//! envelope that the hosting platform expects as the body.

use vstd::prelude::*;

verus! {

/// The HTTP status of an answer. A run of the relay ends in one of two: all
/// went well, or something failed on the way. The third is for a request
/// that no route takes.
#[derive(Clone, Copy, Debug, PartialEq, Eq, Structural)]
pub enum Status {
    Success,
    NotFound,
    InternalServerError,
}

impl Status {
    /// The status code as a number.
    pub open spec fn code_of(self) -> u16 {
        match self {
            Status::Success => 200,
            Status::NotFound => 404,
            Status::InternalServerError => 500,
        }
    }

    pub fn code(self) -> (c: u16)
        ensures
            c == self.code_of(),
    {
        match self {
            Status::Success => 200,
            Status::NotFound => 404,
            Status::InternalServerError => 500,
        }
    }
}

/// What a run reports as its result.
#[derive(Clone, Copy, Debug, PartialEq, Eq, Structural)]
pub enum ReturnValue {
    Succeeded,
    Failed,
}

impl ReturnValue {
    /// The word that stands for the result in the envelope.
    pub open spec fn word(self) -> Seq<char> {
        match self {
            ReturnValue::Succeeded => "ok"@,
            ReturnValue::Failed => "error"@,
        }
    }

    pub fn as_str(self) -> (t: &'static str)
        ensures
            t@ == self.word(),
    {
        match self {
            ReturnValue::Succeeded => "ok",
            ReturnValue::Failed => "error",
        }
    }
}

/// The body of an answer: the log lines of the run, in the order in which
/// they were written, and its result.
#[derive(Debug)]
pub struct Envelope {
    pub logs: Vec<String>,
    pub return_value: ReturnValue,
}

/// An envelope as plain data.
pub struct EnvelopeView {
    pub logs: Seq<Seq<char>>,
    pub return_value: ReturnValue,
}

impl View for Envelope {
    type V = EnvelopeView;

    open spec fn view(&self) -> EnvelopeView {
        EnvelopeView { logs: self.logs.deep_view(), return_value: self.return_value }
    }
}

/// A whole answer: the status and the envelope that goes with it.
#[derive(Debug)]
pub struct Reply {
    pub status: Status,
    pub envelope: Envelope,
}

/// An answer as plain data.
pub struct ReplyView {
    pub status: Status,
    pub envelope: EnvelopeView,
}

impl View for Reply {
    type V = ReplyView;

    open spec fn view(&self) -> ReplyView {
        ReplyView { status: self.status, envelope: self.envelope@ }
    }
}

/// The answer of a run that went well: status 200, no log line, result `ok`.
pub open spec fn success_view() -> ReplyView {
    ReplyView {
        status: Status::Success,
        envelope: EnvelopeView { logs: Seq::empty(), return_value: ReturnValue::Succeeded },
    }
}

/// The answer of a run that failed: status 500, the one log line that says
/// what failed, result `error`.
pub open spec fn failure_view(message: Seq<char>) -> ReplyView {
    ReplyView {
        status: Status::InternalServerError,
        envelope: EnvelopeView { logs: seq![message], return_value: ReturnValue::Failed },
    }
}

impl Reply {
    /// The answer of a run that went well.
    pub fn success() -> (reply: Reply)
        ensures
            reply@ == success_view(),
    {
        let logs: Vec<String> = Vec::new();
        assert(logs.deep_view() =~= Seq::<Seq<char>>::empty());
        Reply { status: Status::Success, envelope: Envelope { logs, return_value: ReturnValue::Succeeded } }
    }

    /// The answer of a run that failed, with the line that says what failed.
    pub fn failure(message: String) -> (reply: Reply)
        ensures
            reply@ == failure_view(message@),
    {
        let mut logs: Vec<String> = Vec::new();
        logs.push(message);
        assert(logs.deep_view() =~= seq![message@]);
        Reply {
            status: Status::InternalServerError,
            envelope: Envelope { logs, return_value: ReturnValue::Failed },
        }
    }
}

} // verus!
