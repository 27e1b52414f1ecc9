use clipocr_rs::baidu_ocr_api::{
    text_of_fetch, BaiduAccurateBasic, BaiduGeneralBasic, BaiduOcrApis, BaiduOcrResult, OcrApi,
    OcrResult, OcrState, OcrVariant, WordResult,
};
use clipocr_rs::error::OcrError;

fn result_of(words: &[&str]) -> BaiduOcrResult {
    let records: Vec<WordResult> = words.iter().map(|w| WordResult::new(w.to_string())).collect();
    BaiduOcrResult::new(1, words.len() as u32, records)
}

#[test]
fn general_url_has_token() {
    let state = OcrState::new("abc".to_string(), 0);
    let api = BaiduOcrApis::GeneralBasic(BaiduGeneralBasic::from_state(&state));
    assert_eq!(
        api.url(),
        "https://aip.baidubce.com/rest/2.0/ocr/v1/general_basic?access_token=abc"
    );
}

#[test]
fn accurate_url_has_token() {
    let state = OcrState::new("xyz".to_string(), 0);
    let api = BaiduOcrApis::AccurateBasic(BaiduAccurateBasic::from_state(&state));
    assert_eq!(
        api.url(),
        "https://aip.baidubce.com/rest/2.0/ocr/v1/accurate_basic?access_token=xyz"
    );
}

#[test]
fn extraction_keeps_order() {
    assert_eq!(result_of(&["A", "B", "C"]).extract_text(), vec!["A", "B", "C"]);
}

#[test]
fn extraction_keeps_duplicates_and_spaces() {
    assert_eq!(result_of(&[" x ", " x ", ""]).extract_text(), vec![" x ", " x ", ""]);
}

#[test]
fn hello_world_answer_gives_two_lines() {
    let res = BaiduOcrResult::new(0, 2, vec![
        WordResult::new("Hello".to_string()),
        WordResult::new("World".to_string()),
    ]);
    assert_eq!(res.words_result_num(), 2);
    assert_eq!(text_of_fetch(Ok(res)).unwrap(), vec!["Hello", "World"]);
}

#[test]
fn empty_answer_gives_no_lines() {
    let res = result_of(&[]);
    assert_eq!(text_of_fetch(Ok(res)).unwrap(), Vec::<String>::new());
}

#[test]
fn malformed_answer_error_is_passed_on() {
    let r = text_of_fetch::<BaiduOcrResult>(Err(OcrError::ResponseFormatError));
    assert_eq!(r, Err(OcrError::ResponseFormatError));
}

#[test]
fn transport_error_is_passed_on() {
    let r = text_of_fetch::<BaiduOcrResult>(Err(OcrError::TransportError));
    assert_eq!(r, Err(OcrError::TransportError));
}

#[test]
fn result_accessors() {
    let res = BaiduOcrResult::new(77, 1, vec![WordResult::new("w".to_string())]);
    assert_eq!(res.log_id(), 77);
    assert_eq!(res.words_result_num(), 1);
    assert_eq!(res.words_result().len(), 1);
    assert_eq!(res.words_result()[0].words(), "w");
}

#[test]
fn from_token_picks_endpoint() {
    let state = OcrState::new("t".to_string(), 0);
    assert_eq!(
        BaiduOcrApis::from_token(OcrVariant::General, &state).url(),
        "https://aip.baidubce.com/rest/2.0/ocr/v1/general_basic?access_token=t"
    );
    assert_eq!(
        BaiduOcrApis::from_token(OcrVariant::Accurate, &state).url(),
        "https://aip.baidubce.com/rest/2.0/ocr/v1/accurate_basic?access_token=t"
    );
}
