//! The upload of a file to the local database: what is stored, and what the
//! sender is told.
use crate::name_map::NameMap;
use vstd::prelude::*;
use vstd::string::*;

verus! {

/// What the sender is told where the form has no body.
pub open spec fn malformed_reply() -> Seq<char> {
    "{ \"error\": \"file not properly formatted\\n\" }"@
}

/// What the sender is told where the body could not be stored.
pub open spec fn failed_reply() -> Seq<char> {
    "{ \"error\": \"error uploading file\\n\" }"@
}

/// What the sender is told where the body is stored.
pub open spec fn done_reply() -> Seq<char> {
    "{ \"body\": \"Done uploading!\\n\" }"@
}

/// What is to be done with an upload.
#[derive(Debug)]
pub enum Upload {
    /// Store this text, then report with `upload_reply`.
    Store(String),
    /// Store nothing, and answer with this text.
    Reject(String),
}

/// What is to be done with an upload, by its characters.
pub enum UploadView {
    Store(Seq<char>),
    Reject(Seq<char>),
}

impl View for Upload {
    type V = UploadView;

    open spec fn view(&self) -> UploadView {
        match self {
            Upload::Store(text) => UploadView::Store(text@),
            Upload::Reject(text) => UploadView::Reject(text@),
        }
    }
}

/// Reads the form of an upload. The part named `body` is what is to be
/// stored; a form without that part is turned down.
pub fn upload_handler(contents: &NameMap<String>) -> (res: Upload)
    requires
        contents.wf(),
    ensures
        res@ == if contents@.contains_key("body"@) {
            UploadView::Store(contents@["body"@]@)
        } else {
            UploadView::Reject(malformed_reply())
        },
{
    match contents.get("body") {
        Some(body) => Upload::Store(body.clone()),
        None => Upload::Reject(
            String::from_str("{ \"error\": \"file not properly formatted\\n\" }"),
        ),
    }
}

/// What the sender is told once the body has been stored, or could not be.
pub fn upload_reply(stored: bool) -> (res: String)
    ensures
        res@ == if stored {
            done_reply()
        } else {
            failed_reply()
        },
{
    if stored {
        String::from_str("{ \"body\": \"Done uploading!\\n\" }")
    } else {
        String::from_str("{ \"error\": \"error uploading file\\n\" }")
    }
}

} // verus!
