//! The translation-API-compatibility operation.
//!
//! It accepts a structured request carrying a list of source texts and — by
//! design of the system it is compatible with, not as a general batch
//! translator — translates only the first element. The HTTP layer parses the
//! request body into [`TextListBody`] and serializes a [`Translation`] back
//! out; every rule about what the request means lives here.

use vstd::prelude::*;

use crate::errors::OcrError;
use crate::orchestrator::{HttpReply, STATUS_ERROR, STATUS_OK};

verus! {

/// One element of the request's text list, as far as this operation reads it:
/// a source text, or a value of some other shape.
#[derive(Debug)]
pub enum JsonItem {
    /// A textual element.
    Text(String),
    /// An element that is not text.
    NonText,
}

/// The structured request body, after parsing.
#[derive(Debug)]
pub enum TextListBody {
    /// The body was not a well-formed document; carries the parser's message.
    Invalid(String),
    /// A well-formed document without a `text_list` member.
    MissingTextList,
    /// A `text_list` member that is not a list.
    NotAList,
    /// The elements of the `text_list` list, in order.
    List(Vec<JsonItem>),
}

/// What the operation does with a parsed request: respond at once, or
/// translate the first element of the list.
#[derive(Debug)]
pub enum ImTranslateNext {
    /// Answer the caller without translating anything.
    Respond(HttpReply),
    /// Feed the carried text — the first element of the list — to the
    /// translation stage.
    Translate(String),
}

/// The body reported when the request was not a well-formed document.
pub open spec fn spec_invalid_body(detail: Seq<char>) -> Seq<char> {
    "immersive_translate error: "@ + detail
}

/// Decides the compatibility operation from the parsed request: a malformed
/// document or a missing `text_list` is reported to the caller; a `text_list`
/// that is no list, or an empty one, succeeds with an empty body; otherwise
/// only the first element is translated, and it must be text.
pub fn imtranslate_plan(body: TextListBody) -> (r: ImTranslateNext)
    ensures
        body matches TextListBody::Invalid(d) ==> r is Respond
            && r->Respond_0.status == STATUS_ERROR
            && r->Respond_0.body@ == spec_invalid_body(d@),
        body is MissingTextList ==> r is Respond && r->Respond_0.status == STATUS_ERROR
            && r->Respond_0.body@ == "immersive_translate error: text_list not found in body_json"@,
        body is NotAList ==> r is Respond && r->Respond_0.status == STATUS_OK
            && r->Respond_0.body@ == Seq::<char>::empty(),
        body matches TextListBody::List(l) && l@.len() == 0 ==> r is Respond
            && r->Respond_0.status == STATUS_OK && r->Respond_0.body@ == Seq::<char>::empty(),
        body matches TextListBody::List(l) && l@.len() > 0 && l@[0] is NonText ==> r is Respond
            && r->Respond_0.status == STATUS_ERROR
            && r->Respond_0.body@ == "immersive_translate error: first_text not string"@,
        body matches TextListBody::List(l) ==> (l@.len() > 0 && l@[0] is Text ==> r is Translate
            && r->Translate_0@ == l@[0]->Text_0@),
{
    match body {
        TextListBody::Invalid(d) => {
            let mut msg = "immersive_translate error: ".to_owned();
            msg.append(d.as_str());
            ImTranslateNext::Respond(HttpReply { status: STATUS_ERROR, body: msg })
        },
        TextListBody::MissingTextList => ImTranslateNext::Respond(
            HttpReply {
                status: STATUS_ERROR,
                body: "immersive_translate error: text_list not found in body_json".to_owned(),
            },
        ),
        TextListBody::NotAList => ImTranslateNext::Respond(
            HttpReply { status: STATUS_OK, body: String::new() },
        ),
        TextListBody::List(mut l) => {
            if l.len() == 0 {
                ImTranslateNext::Respond(HttpReply { status: STATUS_OK, body: String::new() })
            } else {
                let first = l.remove(0);
                match first {
                    JsonItem::Text(t) => ImTranslateNext::Translate(t),
                    JsonItem::NonText => ImTranslateNext::Respond(
                        HttpReply {
                            status: STATUS_ERROR,
                            body: "immersive_translate error: first_text not string".to_owned(),
                        },
                    ),
                }
            }
        },
    }
}

/// The translation record embedded in a successful response, tagged with the
/// fixed source and target languages of the compatibility protocol.
#[derive(Debug)]
pub struct Translation {
    /// The translated text.
    pub text: String,
    /// The source language tag.
    pub from: String,
    /// The target language tag.
    pub to: String,
}

/// The outcome of the compatibility operation once translation was attempted.
#[derive(Debug)]
pub enum ImTranslateOutcome {
    /// The translation failed; answer with this response.
    Failure(HttpReply),
    /// The translation succeeded; the response embeds this record as the one
    /// element of its `translations` list.
    Success(Translation),
}

/// Finishes the compatibility operation from the translation submission:
/// a successful reply becomes the translation record with the protocol's
/// language tags; anything else surfaces as an error response.
pub fn imtranslate_finish(submitted: bool, reply: Option<Result<String, OcrError>>) -> (r:
    ImTranslateOutcome)
    ensures
        !submitted ==> r is Failure && r->Failure_0.status == STATUS_ERROR
            && r->Failure_0.body@ == OcrError::Unavailable.spec_message(),
        submitted && reply is None ==> r is Failure && r->Failure_0.status == STATUS_ERROR
            && r->Failure_0.body@ == "translate error"@,
        submitted && reply is Some && reply->0 is Err ==> r is Failure
            && r->Failure_0.status == STATUS_ERROR && r->Failure_0.body@
            == reply->0->Err_0.spec_message(),
        submitted && reply is Some && reply->0 is Ok ==> r is Success && r->Success_0.text@
            == reply->0->Ok_0@ && r->Success_0.from@ == "en"@ && r->Success_0.to@ == "zh_CN"@,
{
    if !submitted {
        ImTranslateOutcome::Failure(
            HttpReply { status: STATUS_ERROR, body: OcrError::Unavailable.message() },
        )
    } else {
        match reply {
            None => ImTranslateOutcome::Failure(
                HttpReply { status: STATUS_ERROR, body: "translate error".to_owned() },
            ),
            Some(Err(e)) => ImTranslateOutcome::Failure(
                HttpReply { status: STATUS_ERROR, body: e.message() },
            ),
            Some(Ok(t)) => ImTranslateOutcome::Success(
                Translation { text: t, from: "en".to_owned(), to: "zh_CN".to_owned() },
            ),
        }
    }
}

} // verus!
