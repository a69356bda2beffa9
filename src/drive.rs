use vstd::prelude::*;
use crate::store::OAuthState;
use crate::text::join;
use crate::types::{opt_text, AuthResponse, DriveFile};

verus! {

/// A token that stands for offline demo data instead of a real account.
pub const DEMO_TOKEN: &'static str = "DEMO_TOKEN_REPLACE_WITH_REAL_OAUTH";
/// The file-listing endpoint.
pub const FILES_ENDPOINT: &'static str = "https://www.googleapis.com/drive/v3/files";
/// The one page asked for holds at most this many files.
pub const PAGE_SIZE: &'static str = "20";
/// The fields asked for of each file.
pub const FILE_FIELDS: &'static str = "files(id,name,mimeType,modifiedTime,size,webViewLink)";

/// Message for a listing asked for before any token was stored.
pub const NOT_AUTHENTICATED: &'static str = "Not authenticated. Please authenticate first.";
/// Start of the message for a request that could not be sent.
pub const FETCH_FAILED: &'static str = "Failed to fetch files: ";
/// Start of the message for a non-success HTTP status.
pub const API_ERROR: &'static str = "Google Drive API error: ";
/// Start of the message for a body that does not decode.
pub const PARSE_FAILED: &'static str = "Failed to parse response: ";
/// Message of a logout.
pub const LOGGED_OUT: &'static str = "Logged out successfully";

pub const MIME_PRESENTATION: &'static str = "application/vnd.google-apps.presentation";
pub const MIME_SPREADSHEET: &'static str = "application/vnd.google-apps.spreadsheet";
pub const MIME_DOCUMENT: &'static str = "application/vnd.google-apps.document";
pub const MIME_FOLDER: &'static str = "application/vnd.google-apps.folder";

/// Relies on `chrono::Utc::now` and `DateTime::to_rfc3339`: the current time
/// as RFC 3339 text. Nothing is stated of which time it is.
#[verifier::external_body]
fn now_rfc3339() -> (r: String) {
    chrono::Utc::now().to_rfc3339()
}

/// Whether `f` has exactly these fields.
pub open spec fn file_is(
    f: DriveFile,
    id: Seq<char>,
    name: Seq<char>,
    mime_type: Seq<char>,
    modified_time: Seq<char>,
    size: Option<Seq<char>>,
    web_view_link: Seq<char>,
) -> bool {
    &&& f.id@ == id
    &&& f.name@ == name
    &&& f.mime_type@ == mime_type
    &&& f.modified_time@ == modified_time
    &&& opt_text(f.size) == size
    &&& opt_text(f.web_view_link) == Some(web_view_link)
}

/// The four demo records, all modified at `now`.
pub open spec fn is_demo_listing(files: Seq<DriveFile>, now: Seq<char>) -> bool {
    &&& files.len() == 4
    &&& file_is(files[0], "demo-1"@, "Project Presentation.pptx"@, MIME_PRESENTATION@, now,
        Some("2457600"@), "https://docs.google.com/presentation/d/demo-1"@)
    &&& file_is(files[1], "demo-2"@, "Budget 2024.xlsx"@, MIME_SPREADSHEET@, now,
        Some("1048576"@), "https://docs.google.com/spreadsheets/d/demo-2"@)
    &&& file_is(files[2], "demo-3"@, "Meeting Notes.docx"@, MIME_DOCUMENT@, now,
        Some("524288"@), "https://docs.google.com/document/d/demo-3"@)
    &&& file_is(files[3], "demo-4"@, "Photos"@, MIME_FOLDER@, now, None,
        "https://drive.google.com/drive/folders/demo-4"@)
}

/// The synthetic listing served for the demo token: a presentation, a
/// spreadsheet, a document and a folder, each modified at `now`.
pub fn demo_files(now: &str) -> (r: Vec<DriveFile>)
    ensures
        is_demo_listing(r@, now@),
{
    let mut v: Vec<DriveFile> = Vec::new();
    v.push(DriveFile {
        id: "demo-1".to_owned(),
        name: "Project Presentation.pptx".to_owned(),
        mime_type: MIME_PRESENTATION.to_owned(),
        modified_time: now.to_owned(),
        size: Some("2457600".to_owned()),
        web_view_link: Some("https://docs.google.com/presentation/d/demo-1".to_owned()),
    });
    v.push(DriveFile {
        id: "demo-2".to_owned(),
        name: "Budget 2024.xlsx".to_owned(),
        mime_type: MIME_SPREADSHEET.to_owned(),
        modified_time: now.to_owned(),
        size: Some("1048576".to_owned()),
        web_view_link: Some("https://docs.google.com/spreadsheets/d/demo-2".to_owned()),
    });
    v.push(DriveFile {
        id: "demo-3".to_owned(),
        name: "Meeting Notes.docx".to_owned(),
        mime_type: MIME_DOCUMENT.to_owned(),
        modified_time: now.to_owned(),
        size: Some("524288".to_owned()),
        web_view_link: Some("https://docs.google.com/document/d/demo-3".to_owned()),
    });
    v.push(DriveFile {
        id: "demo-4".to_owned(),
        name: "Photos".to_owned(),
        mime_type: MIME_FOLDER.to_owned(),
        modified_time: now.to_owned(),
        size: None,
        web_view_link: Some("https://drive.google.com/drive/folders/demo-4".to_owned()),
    });
    v
}

/// The one request that lists files: the first page of at most
/// `PAGE_SIZE` files, with `FILE_FIELDS`, sent with `bearer_token`.
pub struct FilesRequest {
    pub url: String,
    pub page_size: String,
    pub fields: String,
    pub bearer_token: String,
}

/// How a listing is served.
pub enum FileListing {
    /// Already known; nothing to send.
    Ready(Vec<DriveFile>),
    /// Send this request and decode its answer.
    Fetch(FilesRequest),
}

/// Decides how to serve a listing from what the store holds: no token is an
/// error, the demo token gives the demo records without any request, and
/// any other token gives the request to send.
pub fn google_drive_list_files(oauth_state: &OAuthState) -> (r: Result<FileListing, String>)
    ensures
        match oauth_state@ {
            None => r matches Err(e) && e@ == NOT_AUTHENTICATED@,
            Some(t) => if t == DEMO_TOKEN@ {
                r matches Ok(FileListing::Ready(files)) && is_demo_listing(
                    files@,
                    files@[0].modified_time@,
                )
            } else {
                r matches Ok(FileListing::Fetch(req)) && req.url@ == FILES_ENDPOINT@
                    && req.page_size@ == PAGE_SIZE@ && req.fields@ == FILE_FIELDS@
                    && req.bearer_token@ == t
            },
        },
{
    let token = match oauth_state.get_token() {
        Some(t) => t,
        None => return Err(NOT_AUTHENTICATED.to_owned()),
    };
    if token == DEMO_TOKEN.to_owned() {
        let now = now_rfc3339();
        let files = demo_files(now.as_str());
        assert(is_demo_listing(files@, now@));
        Ok(FileListing::Ready(files))
    } else {
        Ok(FileListing::Fetch(FilesRequest {
            url: FILES_ENDPOINT.to_owned(),
            page_size: PAGE_SIZE.to_owned(),
            fields: FILE_FIELDS.to_owned(),
            bearer_token: token,
        }))
    }
}

/// Whether an HTTP status code is a success (2xx).
pub open spec fn is_success_status(code: u16) -> bool {
    200 <= code <= 299
}

/// Judges the answer to a files request: a send failure, or a status that is
/// not 2xx (`status_text` is how the status reads, such as "404 Not Found"),
/// is an error; else the body is to be decoded.
pub fn check_files_response(sent: Result<(u16, String), String>) -> (r: Result<(), String>)
    ensures
        match sent {
            Err(e) => r matches Err(m) && m@ == FETCH_FAILED@ + e@,
            Ok((code, text)) => if is_success_status(code) {
                r is Ok
            } else {
                r matches Err(m) && m@ == API_ERROR@ + text@
            },
        },
{
    match sent {
        Err(e) => Err(join(FETCH_FAILED, e.as_str())),
        Ok((code, text)) => {
            if 200 <= code && code <= 299 {
                Ok(())
            } else {
                Err(join(API_ERROR, text.as_str()))
            }
        },
    }
}

/// The listing of a decoded body, unchanged, or the decoder's error.
pub fn decoded_files(body: Result<Vec<DriveFile>, String>) -> (r: Result<Vec<DriveFile>, String>)
    ensures
        match body {
            Ok(files) => r == Ok::<Vec<DriveFile>, String>(files),
            Err(e) => r matches Err(m) && m@ == PARSE_FAILED@ + e@,
        },
{
    match body {
        Ok(files) => Ok(files),
        Err(e) => Err(join(PARSE_FAILED, e.as_str())),
    }
}

/// Forgets the stored token; succeeds whether or not one was held.
pub fn google_drive_logout(oauth_state: &mut OAuthState) -> (r: Result<AuthResponse, String>)
    ensures
        final(oauth_state)@ == None::<Seq<char>>,
        r matches Ok(resp) && resp.says(true, LOGGED_OUT@),
{
    oauth_state.clear_token();
    Ok(AuthResponse { success: true, message: Some(LOGGED_OUT.to_owned()) })
}

/// Logging out succeeds and leaves the store empty, whatever it held
/// before: nothing, or the token of a completed authorization.
pub proof fn lemma_logout_empties(before: OAuthState, after: OAuthState, r: Result<AuthResponse, String>)
    requires
        after@ == None::<Seq<char>>,
        r matches Ok(resp) && resp.says(true, LOGGED_OUT@),
    ensures
        r matches Ok(resp) && resp.success,
        after@ is None,
{
}

} // verus!
