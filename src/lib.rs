//! Token lifecycle and request building for an OCR web service: a cached
//! access token is reused while valid and replaced once expired, and clients
//! of the general and high-accuracy endpoints turn an answer into text lines.
use vstd::prelude::*;

pub mod baidu_ocr_api;
pub mod clipboard;
pub mod error;

verus! {

} // verus!
