use ocr_server::config::{listen_addr, traineddata_path, u16_decimal, ServerConf};
use ocr_server::errors::OcrError;
use ocr_server::imtranslate::{
    imtranslate_finish, imtranslate_plan, ImTranslateNext, ImTranslateOutcome, JsonItem,
    TextListBody,
};
use ocr_server::orchestrator::{
    combine_texts, effective_lang, ocr_outcome, pipeline_finish, recognition_stage,
    translate_outcome, PipelineNext,
};
use ocr_server::root_greeting;

#[test]
fn greeting_text() {
    assert_eq!(root_greeting(), "Hello, flameshot!");
}

#[test]
fn decimal_rendering() {
    assert_eq!(u16_decimal(0), "0");
    assert_eq!(u16_decimal(7), "7");
    assert_eq!(u16_decimal(5000), "5000");
    assert_eq!(u16_decimal(65535), "65535");
}

#[test]
fn listen_address() {
    let mut conf = ServerConf::default();
    conf.host = "127.0.0.1".to_string();
    conf.port = 5000;
    assert_eq!(listen_addr(&conf), "127.0.0.1:5000");
}

#[test]
fn traineddata_location() {
    let mut conf = ServerConf::default();
    conf.tesseract_data = "tessdata".to_string();
    conf.tesseract_default_lang = "eng".to_string();
    assert_eq!(traineddata_path(&conf), "tessdata/eng.traineddata");
}

#[test]
fn default_config_is_empty() {
    let conf = ServerConf::default();
    assert_eq!(conf.host, "");
    assert_eq!(conf.port, 0);
    assert_eq!(conf.tesseract_data, "");
    assert_eq!(conf.tesseract_default_lang, "");
    assert!(conf.llama_model_path.is_none());
}

#[test]
fn language_override() {
    assert_eq!(effective_lang(Some("jpn".to_string()), "eng"), "jpn");
    assert_eq!(effective_lang(None, "eng"), "eng");
}

#[test]
fn recognition_success_and_failure() {
    let ok = ocr_outcome(Ok("some text".to_string()));
    assert_eq!(ok.status, 200);
    assert_eq!(ok.body, "some text");
    let err = ocr_outcome(Err(OcrError::Recognition("engine broke".to_string())));
    assert_eq!(err.status, 500);
    assert_eq!(err.body, "engine broke");
}

#[test]
fn blank_image_recognition_is_success() {
    // A blank image recognizes to empty-or-whitespace text; that is still a
    // successful outcome, not a failure.
    let empty = ocr_outcome(Ok("".to_string()));
    assert_eq!(empty.status, 200);
    assert_eq!(empty.body, "");
    let whitespace = ocr_outcome(Ok(" \n".to_string()));
    assert_eq!(whitespace.status, 200);
    assert_eq!(whitespace.body, " \n");
}

#[test]
fn translate_unavailable_fails_fast() {
    let r = translate_outcome(false, None);
    assert_eq!(r.status, 500);
    assert_eq!(r.body, "translation unavailable");
}

#[test]
fn translate_reply_paths() {
    let ok = translate_outcome(true, Some(Ok("translated".to_string())));
    assert_eq!(ok.status, 200);
    assert_eq!(ok.body, "translated");
    let dropped = translate_outcome(true, None);
    assert_eq!(dropped.status, 500);
    assert_eq!(dropped.body, "translate error");
    let failed = translate_outcome(true, Some(Err(OcrError::Engine("oom".to_string()))));
    assert_eq!(failed.status, 500);
    assert_eq!(failed.body, "oom");
}

#[test]
fn combined_body_format() {
    assert_eq!(
        combine_texts("recognized", "translated"),
        "recognized\n------------\ntranslated"
    );
}

#[test]
fn pipeline_short_circuits_on_recognition_failure() {
    let next = recognition_stage(Err(OcrError::Recognition("no image".to_string())));
    match next {
        PipelineNext::Respond(r) => {
            assert_eq!(r.status, 500);
            assert_eq!(r.body, "no image");
        }
        PipelineNext::Translate(_) => panic!("translation stage must not be invoked"),
    }
}

#[test]
fn pipeline_continues_on_recognition_success() {
    let next = recognition_stage(Ok("page text".to_string()));
    match next {
        PipelineNext::Translate(t) => assert_eq!(t, "page text"),
        PipelineNext::Respond(_) => panic!("a successful stage must continue"),
    }
}

#[test]
fn pipeline_finish_combines() {
    let r = pipeline_finish(
        "page text".to_string(),
        true,
        Some(Ok("translated page".to_string())),
    );
    assert_eq!(r.status, 200);
    assert_eq!(r.body, "page text\n------------\ntranslated page");
}

#[test]
fn pipeline_finish_surfaces_failures() {
    let unavailable = pipeline_finish("t".to_string(), false, None);
    assert_eq!(unavailable.status, 500);
    assert_eq!(unavailable.body, "translation unavailable");
    let dropped = pipeline_finish("t".to_string(), true, None);
    assert_eq!(dropped.status, 500);
    assert_eq!(dropped.body, "translate error");
    let failed = pipeline_finish(
        "t".to_string(),
        true,
        Some(Err(OcrError::Engine("bad state".to_string()))),
    );
    assert_eq!(failed.status, 500);
    assert_eq!(failed.body, "bad state");
}

#[test]
fn text_list_missing_is_reported() {
    let r = imtranslate_plan(TextListBody::MissingTextList);
    match r {
        ImTranslateNext::Respond(h) => {
            assert_eq!(h.status, 500);
            assert_eq!(
                h.body,
                "immersive_translate error: text_list not found in body_json"
            );
        }
        ImTranslateNext::Translate(_) => panic!("nothing to translate"),
    }
}

#[test]
fn empty_text_list_is_empty_success() {
    let r = imtranslate_plan(TextListBody::List(Vec::new()));
    match r {
        ImTranslateNext::Respond(h) => {
            assert_eq!(h.status, 200);
            assert_eq!(h.body, "");
        }
        ImTranslateNext::Translate(_) => panic!("nothing to translate"),
    }
}

#[test]
fn non_list_text_list_is_empty_success() {
    let r = imtranslate_plan(TextListBody::NotAList);
    match r {
        ImTranslateNext::Respond(h) => {
            assert_eq!(h.status, 200);
            assert_eq!(h.body, "");
        }
        ImTranslateNext::Translate(_) => panic!("nothing to translate"),
    }
}

#[test]
fn invalid_document_is_reported() {
    let r = imtranslate_plan(TextListBody::Invalid("expected value at line 1".to_string()));
    match r {
        ImTranslateNext::Respond(h) => {
            assert_eq!(h.status, 500);
            assert_eq!(
                h.body,
                "immersive_translate error: expected value at line 1"
            );
        }
        ImTranslateNext::Translate(_) => panic!("nothing to translate"),
    }
}

#[test]
fn non_text_first_element_is_reported() {
    let r = imtranslate_plan(TextListBody::List(vec![
        JsonItem::NonText,
        JsonItem::Text("hello".to_string()),
    ]));
    match r {
        ImTranslateNext::Respond(h) => {
            assert_eq!(h.status, 500);
            assert_eq!(h.body, "immersive_translate error: first_text not string");
        }
        ImTranslateNext::Translate(_) => panic!("a non-text element must not be translated"),
    }
}

#[test]
fn only_first_element_is_translated() {
    let r = imtranslate_plan(TextListBody::List(vec![
        JsonItem::Text("hello".to_string()),
        JsonItem::Text("world".to_string()),
    ]));
    match r {
        ImTranslateNext::Translate(t) => assert_eq!(t, "hello"),
        ImTranslateNext::Respond(_) => panic!("a textual first element must be translated"),
    }
}

#[test]
fn compatibility_success_embeds_language_tags() {
    let r = imtranslate_finish(true, Some(Ok("你好".to_string())));
    match r {
        ImTranslateOutcome::Success(t) => {
            assert_eq!(t.text, "你好");
            assert_eq!(t.from, "en");
            assert_eq!(t.to, "zh_CN");
        }
        ImTranslateOutcome::Failure(_) => panic!("a successful reply must succeed"),
    }
}

#[test]
fn compatibility_unavailable_fails_fast() {
    let r = imtranslate_finish(false, None);
    match r {
        ImTranslateOutcome::Failure(h) => {
            assert_eq!(h.status, 500);
            assert_eq!(h.body, "translation unavailable");
        }
        ImTranslateOutcome::Success(_) => panic!("no reply can succeed"),
    }
}

#[test]
fn error_messages() {
    assert_eq!(OcrError::Recognition("a".to_string()).message(), "a");
    assert_eq!(OcrError::Engine("b".to_string()).message(), "b");
    assert_eq!(OcrError::Config("c".to_string()).message(), "c");
    assert_eq!(OcrError::Protocol("d".to_string()).message(), "d");
    assert_eq!(OcrError::Unavailable.message(), "translation unavailable");
}
