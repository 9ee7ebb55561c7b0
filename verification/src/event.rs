//! Status events of a connectivity test.

use vstd::prelude::*;
use vstd::string::*;
use crate::json::{lemma_member_views, Json, JsonValue};

verus! {

/// One status event of a connectivity test.
///
/// A test reports its progress as a finite sequence of these. The event with
/// `done` set closes the sequence; `error` tells whether the step it reports
/// failed.
#[derive(Debug)]
pub struct TestSourceMessage {
    pub error: bool,
    pub done: bool,
    pub message: String,
}

/// The mathematical value of a [`TestSourceMessage`].
pub struct StatusEvent {
    pub error: bool,
    pub done: bool,
    pub message: Seq<char>,
}

impl View for TestSourceMessage {
    type V = StatusEvent;

    open spec fn view(&self) -> StatusEvent {
        StatusEvent { error: self.error, done: self.done, message: self.message@ }
    }
}

impl StatusEvent {
    /// The document that goes to the observer for the event: an object with
    /// the members `error`, `done` and `message`, in this order.
    pub open spec fn json(self) -> Json {
        Json::Object(
            seq![
                ("error"@, Json::Bool(self.error)),
                ("done"@, Json::Bool(self.done)),
                ("message"@, Json::String(self.message)),
            ],
        )
    }
}

impl TestSourceMessage {
    /// Writes the event as the document that goes to the observer.
    pub fn to_json(&self) -> (doc: JsonValue)
        ensures
            doc@ == self@.json(),
    {
        let mut members: Vec<(String, JsonValue)> = Vec::new();
        members.push((String::from_str("error"), JsonValue::Bool(self.error)));
        members.push((String::from_str("done"), JsonValue::Bool(self.done)));
        members.push((String::from_str("message"), JsonValue::String(self.message.clone())));
        let doc = JsonValue::Object(members);
        proof {
            lemma_member_views(doc->Object_0@, 3);
            assert(doc@->Object_0 =~= self@.json()->Object_0);
        }
        doc
    }

    /// An event that reports a step that went well and leaves the test running.
    pub fn progress(message: String) -> (event: Self)
        ensures
            event@ == (StatusEvent { error: false, done: false, message: message@ }),
    {
        TestSourceMessage { error: false, done: false, message }
    }

    /// The event that ends a test with a failure.
    pub fn failure(message: String) -> (event: Self)
        ensures
            event@ == (StatusEvent { error: true, done: true, message: message@ }),
    {
        TestSourceMessage { error: true, done: true, message }
    }

    /// The event that ends a test with success.
    pub fn success(message: String) -> (event: Self)
        ensures
            event@ == (StatusEvent { error: false, done: true, message: message@ }),
    {
        TestSourceMessage { error: false, done: true, message }
    }
}

} // verus!
