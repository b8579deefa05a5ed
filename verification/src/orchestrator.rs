//! The request orchestrator: maps engine-level outcomes to caller-visible
//! responses, composes recognize-then-translate, and implements the
//! translation-compatibility rules.
//!
//! The HTTP layer only moves bytes: it hands the functions here the plain
//! values a request carries and sends back the status and body they decide.

use vstd::prelude::*;

use crate::errors::OcrError;

verus! {

/// Status of a successful response.
pub const STATUS_OK: u16 = 200;

/// Status of a response reporting a failure.
pub const STATUS_ERROR: u16 = 500;

/// One response as the HTTP layer sends it: a status and a textual body.
#[derive(Debug)]
pub struct HttpReply {
    /// The HTTP status code.
    pub status: u16,
    /// The response body.
    pub body: String,
}

/// The recognition language a request is served with: the language the
/// request names, or the configured default when it names none.
pub fn effective_lang(header_lang: Option<String>, default_lang: &str) -> (r: String)
    ensures
        match header_lang {
            Some(h) => r@ == h@,
            None => r@ == default_lang@,
        },
{
    match header_lang {
        Some(h) => h,
        None => default_lang.to_owned(),
    }
}

/// Maps a recognition outcome to the response of the recognition-only
/// operation: the recognized text on success, the failure's message with an
/// error status otherwise.
pub fn ocr_outcome(result: Result<String, OcrError>) -> (r: HttpReply)
    ensures
        result is Ok ==> r.status == STATUS_OK && r.body@ == result->Ok_0@,
        result is Err ==> r.status == STATUS_ERROR && r.body@ == result->Err_0.spec_message(),
{
    match result {
        Ok(text) => HttpReply { status: STATUS_OK, body: text },
        Err(e) => HttpReply { status: STATUS_ERROR, body: e.message() },
    }
}

/// Maps a translation submission to the response of the translation-only
/// operation. `submitted` is false when the actor was never configured or is
/// gone: the caller gets an explicit unavailability error at once, never a
/// hang. A missing reply — the actor dropped the channel unanswered — and an
/// engine failure each surface as an error body.
pub fn translate_outcome(submitted: bool, reply: Option<Result<String, OcrError>>) -> (r:
    HttpReply)
    ensures
        !submitted ==> r.status == STATUS_ERROR && r.body@ == OcrError::Unavailable.spec_message(),
        submitted && reply is None ==> r.status == STATUS_ERROR && r.body@ == "translate error"@,
        submitted && reply is Some && reply->0 is Ok ==> r.status == STATUS_OK && r.body@
            == reply->0->Ok_0@,
        submitted && reply is Some && reply->0 is Err ==> r.status == STATUS_ERROR && r.body@
            == reply->0->Err_0.spec_message(),
{
    if !submitted {
        HttpReply { status: STATUS_ERROR, body: OcrError::Unavailable.message() }
    } else {
        match reply {
            None => HttpReply { status: STATUS_ERROR, body: "translate error".to_owned() },
            Some(Ok(t)) => HttpReply { status: STATUS_OK, body: t },
            Some(Err(e)) => HttpReply { status: STATUS_ERROR, body: e.message() },
        }
    }
}

/// The documented shape of a combined recognize-then-translate success body:
/// the recognized text, a separator line, the translated text.
pub open spec fn spec_combined(recognized: Seq<char>, translated: Seq<char>) -> Seq<char> {
    recognized + "\n------------\n"@ + translated
}

/// Renders the combined success body of recognize-then-translate.
pub fn combine_texts(recognized: &str, translated: &str) -> (r: String)
    ensures
        r@ == spec_combined(recognized@, translated@),
{
    let mut s = recognized.to_owned();
    s.append("\n------------\n");
    s.append(translated);
    proof {
        assert(s@ =~= spec_combined(recognized@, translated@));
    }
    s
}

/// What the composed pipeline does after its first stage: respond at once, or
/// go on to translate the recognized text.
#[derive(Debug)]
pub enum PipelineNext {
    /// Answer the caller without any further stage.
    Respond(HttpReply),
    /// Feed the carried recognized text to the translation stage.
    Translate(String),
}

/// The first stage of recognize-then-translate. A recognition failure
/// short-circuits the pipeline: the response is that stage's error and the
/// translation stage is never invoked.
pub fn recognition_stage(result: Result<String, OcrError>) -> (r: PipelineNext)
    ensures
        result is Err <==> r is Respond,
        result is Err ==> r->Respond_0.status == STATUS_ERROR && r->Respond_0.body@
            == result->Err_0.spec_message(),
        result is Ok ==> r is Translate && r->Translate_0@ == result->Ok_0@,
{
    match result {
        Ok(text) => PipelineNext::Translate(text),
        Err(e) => PipelineNext::Respond(
            HttpReply { status: STATUS_ERROR, body: e.message() },
        ),
    }
}

/// The second stage of recognize-then-translate: combines the recognized and
/// translated texts on success, and surfaces the translation failure — the
/// unavailability, the dropped reply, or the engine's message — otherwise.
pub fn pipeline_finish(
    recognized: String,
    submitted: bool,
    reply: Option<Result<String, OcrError>>,
) -> (r: HttpReply)
    ensures
        !submitted ==> r.status == STATUS_ERROR && r.body@ == OcrError::Unavailable.spec_message(),
        submitted && reply is None ==> r.status == STATUS_ERROR && r.body@ == "translate error"@,
        submitted && reply is Some && reply->0 is Ok ==> r.status == STATUS_OK && r.body@
            == spec_combined(recognized@, reply->0->Ok_0@),
        submitted && reply is Some && reply->0 is Err ==> r.status == STATUS_ERROR && r.body@
            == reply->0->Err_0.spec_message(),
{
    if !submitted {
        HttpReply { status: STATUS_ERROR, body: OcrError::Unavailable.message() }
    } else {
        match reply {
            None => HttpReply { status: STATUS_ERROR, body: "translate error".to_owned() },
            Some(Ok(t)) => HttpReply {
                status: STATUS_OK,
                body: combine_texts(recognized.as_str(), t.as_str()),
            },
            Some(Err(e)) => HttpReply { status: STATUS_ERROR, body: e.message() },
        }
    }
}

} // verus!
