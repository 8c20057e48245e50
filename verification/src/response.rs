//! The record that a dialog reports to the process that opened it: whether
//! the user confirmed or cancelled, and what the form held.

use crate::json::{json_literal, json_string};
use vstd::prelude::*;

verus! {

/// One entry of a response: a field's identifier and its value as text.
#[derive(Debug)]
pub struct ResponseBody {
    pub id: String,
    pub value: String,
}

/// The mathematical value of a `ResponseBody`.
pub struct ResponseBodyView {
    pub id: Seq<char>,
    pub value: Seq<char>,
}

impl View for ResponseBody {
    type V = ResponseBodyView;

    open spec fn view(&self) -> ResponseBodyView {
        ResponseBodyView { id: self.id@, value: self.value@ }
    }
}

/// How the dialog ended.
#[derive(Clone, Copy, Debug, PartialEq, Eq, Structural)]
pub enum ResponseType {
    Confirmed,
    Cancelled,
}

/// The record of a finished dialog.
#[derive(Debug)]
pub struct Response {
    response_type: ResponseType,
    body: Vec<ResponseBody>,
}

/// The mathematical value of a `Response`.
pub struct ResponseView {
    pub response_type: ResponseType,
    pub body: Seq<ResponseBodyView>,
}

/// The mathematical values of a list of entries.
pub open spec fn body_view(body: Seq<ResponseBody>) -> Seq<ResponseBodyView> {
    body.map_values(|entry: ResponseBody| entry@)
}

/// The response of a cancelled dialog: no entries.
pub open spec fn cancel_view() -> ResponseView {
    ResponseView { response_type: ResponseType::Cancelled, body: Seq::empty() }
}

/// The response of a confirmed dialog with the entries `body`.
pub open spec fn ok_view(body: Seq<ResponseBodyView>) -> ResponseView {
    ResponseView { response_type: ResponseType::Confirmed, body }
}

/// The text of one entry: an object with the members `id` and `value`.
pub open spec fn entry_text(entry: ResponseBodyView) -> Seq<char> {
    "{\"id\":"@ + json_literal(entry.id) + ",\"value\":"@ + json_literal(entry.value) + "}"@
}

/// The texts of the entries of `body`, in their order, with a comma between
/// each two.
pub open spec fn entries_text(body: Seq<ResponseBodyView>) -> Seq<char>
    decreases body.len(),
{
    if body.len() == 0 {
        Seq::empty()
    } else if body.len() == 1 {
        entry_text(body[0])
    } else {
        entries_text(body.drop_last()) + ","@ + entry_text(body.last())
    }
}

/// The text of the discriminator.
pub open spec fn type_text(response_type: ResponseType) -> Seq<char> {
    match response_type {
        ResponseType::Confirmed => "\"ok\""@,
        ResponseType::Cancelled => "\"cancel\""@,
    }
}

/// The text of a response: one JSON object on one line, with the members
/// `type` and `body`.
pub open spec fn response_text(response: ResponseView) -> Seq<char> {
    "{\"type\":"@ + type_text(response.response_type) + ",\"body\":["@ + entries_text(
        response.body,
    ) + "]}"@
}

impl View for Response {
    type V = ResponseView;

    closed spec fn view(&self) -> ResponseView {
        ResponseView { response_type: self.response_type, body: body_view(self.body@) }
    }
}

impl ResponseBody {
    /// Writes the entry as a JSON object.
    pub fn encode(&self) -> (written: String)
        ensures
            written@ == entry_text(self@),
    {
        let mut written = "{\"id\":".to_string();
        written.append(json_string(self.id.as_str()).as_str());
        written.append(",\"value\":");
        written.append(json_string(self.value.as_str()).as_str());
        written.append("}");
        written
    }
}

impl Response {
    /// The response of a confirmed dialog: the discriminator `ok` and the
    /// entries of `body` in their order.
    pub fn ok(body: Vec<ResponseBody>) -> (response: Response)
        ensures
            response@ == ok_view(body_view(body@)),
    {
        Response { response_type: ResponseType::Confirmed, body }
    }

    /// The response of a cancelled dialog: the discriminator `cancel` and no
    /// entry.
    pub fn cancel() -> (response: Response)
        ensures
            response@ == cancel_view(),
    {
        let response = Response { response_type: ResponseType::Cancelled, body: Vec::new() };
        assert(body_view(response.body@) == Seq::<ResponseBodyView>::empty());
        response
    }

    /// How the dialog ended.
    pub fn response_type(&self) -> (response_type: ResponseType)
        ensures
            response_type == self@.response_type,
    {
        self.response_type
    }

    /// The entries, in the order of the form's fields.
    pub fn body(&self) -> (body: &Vec<ResponseBody>)
        ensures
            body_view(body@) == self@.body,
    {
        &self.body
    }

    /// Writes the response as the one line of text that the dialog prints.
    pub fn encode(&self) -> (line: String)
        ensures
            line@ == response_text(self@),
    {
        let mut line = "{\"type\":".to_string();
        match self.response_type {
            ResponseType::Confirmed => line.append("\"ok\""),
            ResponseType::Cancelled => line.append("\"cancel\""),
        }
        line.append(",\"body\":[");
        let ghost head = line@;
        let ghost entries = self@.body;
        let mut i: usize = 0;
        while i < self.body.len()
            invariant
                i <= self.body.len(),
                entries == body_view(self.body@),
                line@ == head + entries_text(entries.take(i as int)),
            decreases self.body.len() - i,
        {
            let ghost seen = entries.take(i + 1);
            proof {
                assert(seen.drop_last() == entries.take(i as int));
                assert(seen.last() == self.body@[i as int]@);
            }
            if i > 0 {
                line.append(",");
            }
            line.append(self.body[i].encode().as_str());
            proof {
                if i > 0 {
                    assert(line@ == head + (entries_text(seen.drop_last()) + ","@ + entry_text(
                        seen.last(),
                    )));
                } else {
                    assert(seen[0] == seen.last());
                    assert(entries_text(entries.take(0)) == Seq::<char>::empty());
                    assert(line@ == head + entry_text(seen.last()));
                }
            }
            i = i + 1;
        }
        assert(entries.take(i as int) == entries);
        line.append("]}");
        line
    }
}

} // verus!
