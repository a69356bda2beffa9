use vstd::prelude::*;

verus! {

/// Outcome of an authenticate or logout call: a success flag and an
/// optional message for the user.
#[derive(Debug)]
pub struct AuthResponse {
    pub success: bool,
    pub message: Option<String>,
}

/// One file of a Drive listing. `size` is a decimal byte count.
#[derive(Debug)]
pub struct DriveFile {
    pub id: String,
    pub name: String,
    pub mime_type: String,
    pub modified_time: String,
    pub size: Option<String>,
    pub web_view_link: Option<String>,
}

/// The text of an optional string.
pub open spec fn opt_text(s: Option<String>) -> Option<Seq<char>> {
    match s {
        Some(t) => Some(t@),
        None => None,
    }
}

impl AuthResponse {
    /// Whether the response has the given flag and message text.
    pub open spec fn says(self, success: bool, message: Seq<char>) -> bool {
        self.success == success && opt_text(self.message) == Some(message)
    }
}

} // verus!
