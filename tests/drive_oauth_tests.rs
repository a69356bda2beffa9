use drive_oauth::callback::{read_callback, CallbackError};
use drive_oauth::drive::{
    check_files_response, decoded_files, demo_files, google_drive_list_files, google_drive_logout,
    FileListing, DEMO_TOKEN,
};
use drive_oauth::session::{step, SessionAction, SessionEvent, SessionState, BAD_REQUEST_PAGE, SUCCESS_PAGE};
use drive_oauth::store::OAuthState;
use drive_oauth::types::DriveFile;

fn start_event() -> SessionEvent {
    SessionEvent::Start {
        client_id: "1234.apps.googleusercontent.com".to_string(),
        client_secret: "s3cr3t".to_string(),
    }
}

/// Runs a configured session up to the point where the request line is read.
fn session_awaiting_callback(store: &mut OAuthState) -> (SessionState, String) {
    let (state, action) = step(SessionState::Idle, start_event(), store);
    let csrf = match (&state, action) {
        (SessionState::LaunchingBrowser(req), SessionAction::OpenBrowser(url)) => {
            assert_eq!(url, req.url);
            req.csrf_token.clone()
        }
        _ => panic!("expected the browser to be opened"),
    };
    let (state, action) = step(state, SessionEvent::BrowserOpened(Ok(())), store);
    assert!(matches!(action, SessionAction::BindListener));
    let (state, action) = step(state, SessionEvent::ListenerBound(Ok(())), store);
    assert!(matches!(action, SessionAction::AcceptConnection));
    let (state, action) = step(state, SessionEvent::ConnectionAccepted(Ok(())), store);
    assert!(matches!(action, SessionAction::ReadRequestLine));
    (state, csrf)
}

#[test]
fn token_set_then_get_then_clear() {
    let mut store = OAuthState::new();
    assert_eq!(store.get_token(), None);
    store.set_token("ya29.first".to_string());
    assert_eq!(store.get_token(), Some("ya29.first".to_string()));
    store.set_token("ya29.second".to_string());
    assert_eq!(store.get_token(), Some("ya29.second".to_string()));
    store.clear_token();
    assert_eq!(store.get_token(), None);
}

#[test]
fn list_files_without_token_is_refused() {
    let store = OAuthState::new();
    match google_drive_list_files(&store) {
        Err(e) => assert!(e.contains("Not authenticated")),
        Ok(_) => panic!("listing must be refused"),
    }
}

#[test]
fn list_files_with_demo_token_gives_four_records() {
    let mut store = OAuthState::new();
    store.set_token(DEMO_TOKEN.to_string());
    let files = match google_drive_list_files(&store) {
        Ok(FileListing::Ready(files)) => files,
        _ => panic!("demo data expected without any request"),
    };
    let mimes: Vec<&str> = files.iter().map(|f| f.mime_type.as_str()).collect();
    assert_eq!(
        mimes,
        vec![
            "application/vnd.google-apps.presentation",
            "application/vnd.google-apps.spreadsheet",
            "application/vnd.google-apps.document",
            "application/vnd.google-apps.folder",
        ]
    );
    assert!(files[0].modified_time.contains('T'));
    assert_eq!(files[3].size, None);
}

#[test]
fn demo_files_fields() {
    let files = demo_files("2024-05-01T10:00:00+00:00");
    assert_eq!(files.len(), 4);
    assert_eq!(files[0].id, "demo-1");
    assert_eq!(files[0].name, "Project Presentation.pptx");
    assert_eq!(files[0].size, Some("2457600".to_string()));
    assert_eq!(files[1].name, "Budget 2024.xlsx");
    assert_eq!(files[1].size, Some("1048576".to_string()));
    assert_eq!(files[2].web_view_link, Some("https://docs.google.com/document/d/demo-3".to_string()));
    assert_eq!(files[2].size, Some("524288".to_string()));
    assert_eq!(files[3].web_view_link, Some("https://drive.google.com/drive/folders/demo-4".to_string()));
    assert!(files.iter().all(|f| f.modified_time == "2024-05-01T10:00:00+00:00"));
}

#[test]
fn list_files_with_real_token_builds_request() {
    let mut store = OAuthState::new();
    store.set_token("ya29.real".to_string());
    match google_drive_list_files(&store) {
        Ok(FileListing::Fetch(req)) => {
            assert_eq!(req.url, "https://www.googleapis.com/drive/v3/files");
            assert_eq!(req.page_size, "20");
            assert_eq!(req.fields, "files(id,name,mimeType,modifiedTime,size,webViewLink)");
            assert_eq!(req.bearer_token, "ya29.real");
        }
        _ => panic!("a request was expected"),
    }
}

#[test]
fn files_response_status_is_judged() {
    assert_eq!(check_files_response(Ok((200, "200 OK".to_string()))), Ok(()));
    assert_eq!(check_files_response(Ok((299, "299 <unknown status code>".to_string()))), Ok(()));
    assert_eq!(
        check_files_response(Ok((401, "401 Unauthorized".to_string()))),
        Err("Google Drive API error: 401 Unauthorized".to_string())
    );
    assert_eq!(
        check_files_response(Ok((199, "199 <unknown status code>".to_string()))),
        Err("Google Drive API error: 199 <unknown status code>".to_string())
    );
    assert_eq!(
        check_files_response(Err("connection refused".to_string())),
        Err("Failed to fetch files: connection refused".to_string())
    );
}

#[test]
fn decoded_files_pass_through_or_explain() {
    let file = DriveFile {
        id: "a".to_string(),
        name: "b".to_string(),
        mime_type: "text/plain".to_string(),
        modified_time: "2024-01-01T00:00:00Z".to_string(),
        size: None,
        web_view_link: None,
    };
    match decoded_files(Ok(vec![file])) {
        Ok(files) => assert_eq!(files[0].id, "a"),
        Err(_) => panic!("files expected"),
    }
    match decoded_files(Err("missing field `files`".to_string())) {
        Err(e) => assert_eq!(e, "Failed to parse response: missing field `files`"),
        Ok(_) => panic!("error expected"),
    }
}

#[test]
fn logout_without_and_after_authentication() {
    let mut store = OAuthState::new();
    let r = google_drive_logout(&mut store).unwrap();
    assert!(r.success);
    assert_eq!(r.message, Some("Logged out successfully".to_string()));
    assert_eq!(store.get_token(), None);
    store.set_token("ya29.token".to_string());
    let r = google_drive_logout(&mut store).unwrap();
    assert!(r.success);
    assert_eq!(store.get_token(), None);
}

#[test]
fn read_callback_accepts_matching_state() {
    let r = read_callback("GET /oauth/callback?state=abc&code=4%2F0Ax HTTP/1.1\r\n", "abc");
    match r {
        Ok(code) => assert_eq!(code, "4/0Ax"),
        Err(e) => panic!("unexpected {:?}", e),
    }
}

#[test]
fn read_callback_refuses_other_state() {
    let r = read_callback("GET /oauth/callback?code=good&state=xyz HTTP/1.1", "abc");
    assert!(matches!(r, Err(CallbackError::CsrfMismatch)));
    let r = read_callback("GET /oauth/callback?code=good HTTP/1.1", "abc");
    assert!(matches!(r, Err(CallbackError::CsrfMismatch)));
}

#[test]
fn read_callback_refuses_missing_code() {
    let r = read_callback("GET /oauth/callback?state=abc HTTP/1.1", "abc");
    assert!(matches!(r, Err(CallbackError::MissingCode)));
    assert_eq!(r.unwrap_err().message(), "no authorization code in callback");
}

#[test]
fn read_callback_refuses_bad_lines() {
    let r = read_callback("GET", "abc");
    assert!(matches!(r, Err(CallbackError::InvalidRequest)));
    assert_eq!(r.unwrap_err().message(), "Invalid request");
    let r = read_callback("GET http://[::1 HTTP/1.1", "abc");
    match r {
        Err(CallbackError::UrlParse(e)) => assert!(!e.is_empty()),
        other => panic!("unexpected {:?}", other),
    }
}

#[test]
fn unconfigured_credentials_end_without_listener() {
    let mut store = OAuthState::new();
    let event = SessionEvent::Start {
        client_id: "YOUR_CLIENT_ID_HERE".to_string(),
        client_secret: "real-secret".to_string(),
    };
    let (state, action) = step(SessionState::Idle, event, &mut store);
    assert!(matches!(state, SessionState::Finished));
    match action {
        SessionAction::Finish(Ok(resp)) => {
            assert!(!resp.success);
            assert!(resp.message.unwrap().contains("not configured"));
        }
        _ => panic!("a not-configured response was expected"),
    }
    let event = SessionEvent::Start {
        client_id: "1234.apps.googleusercontent.com".to_string(),
        client_secret: "YOUR_CLIENT_SECRET_HERE".to_string(),
    };
    let (_, action) = step(SessionState::Idle, event, &mut store);
    assert!(matches!(action, SessionAction::Finish(Ok(ref r)) if !r.success));
}

#[test]
fn authorization_url_carries_session_values() {
    let mut store = OAuthState::new();
    let (state, _) = step(SessionState::Idle, start_event(), &mut store);
    match state {
        SessionState::LaunchingBrowser(req) => {
            assert!(req.url.starts_with("https://accounts.google.com/o/oauth2/v2/auth?"));
            assert!(req.url.contains(&format!("state={}", req.csrf_token)));
            assert!(req.url.contains("client_id=1234.apps.googleusercontent.com"));
            assert!(req.url.contains("code_challenge_method=S256"));
            assert!(req.url.contains("redirect_uri=http%3A%2F%2Flocalhost%3A3000%2Foauth%2Fcallback"));
            assert!(req.url.contains("drive.readonly"));
            assert!(!req.url.contains(&req.pkce_verifier));
            assert_eq!(req.csrf_token.len(), 22);
            assert_eq!(req.pkce_verifier.len(), 43);
        }
        _ => panic!("expected a browser launch"),
    }
}

#[test]
fn two_sessions_use_fresh_values() {
    let mut store = OAuthState::new();
    let (a, _) = step(SessionState::Idle, start_event(), &mut store);
    let (b, _) = step(SessionState::Idle, start_event(), &mut store);
    match (a, b) {
        (SessionState::LaunchingBrowser(x), SessionState::LaunchingBrowser(y)) => {
            assert_ne!(x.csrf_token, y.csrf_token);
            assert_ne!(x.pkce_verifier, y.pkce_verifier);
        }
        _ => panic!("expected two browser launches"),
    }
}

#[test]
fn browser_failure_is_reported() {
    let mut store = OAuthState::new();
    let (state, _) = step(SessionState::Idle, start_event(), &mut store);
    let (state, action) = step(state, SessionEvent::BrowserOpened(Err("no browser".to_string())), &mut store);
    assert!(matches!(state, SessionState::Finished));
    match action {
        SessionAction::Finish(Err(e)) => {
            assert!(e.contains("failed to open browser"));
            assert_eq!(e, "failed to open browser: no browser");
        }
        _ => panic!("an error was expected"),
    }
}

#[test]
fn bind_accept_and_read_failures_are_reported() {
    let mut store = OAuthState::new();
    let (state, _) = step(SessionState::Idle, start_event(), &mut store);
    let (state, _) = step(state, SessionEvent::BrowserOpened(Ok(())), &mut store);
    let (_, action) = step(state, SessionEvent::ListenerBound(Err("address in use".to_string())), &mut store);
    assert!(matches!(action, SessionAction::Finish(Err(ref e)) if e == "Failed to start callback server: address in use"));
    let (state, _) = session_awaiting_callback(&mut store);
    let (_, action) = step(state, SessionEvent::RequestLineRead(Err("reset".to_string())), &mut store);
    assert!(matches!(action, SessionAction::Finish(Err(ref e)) if e == "Failed to read request: reset"));
}

#[test]
fn matching_callback_and_exchange_store_token() {
    let mut store = OAuthState::new();
    let (state, csrf) = session_awaiting_callback(&mut store);
    let line = format!("GET /oauth/callback?code=auth-code&state={} HTTP/1.1\r\n", csrf);
    let (state, action) = step(state, SessionEvent::RequestLineRead(Ok(line)), &mut store);
    match action {
        SessionAction::RespondAndExchange { page, code, pkce_verifier } => {
            assert_eq!(page, SUCCESS_PAGE);
            assert!(page.starts_with("HTTP/1.1 200 OK"));
            assert_eq!(code, "auth-code");
            assert_eq!(pkce_verifier.len(), 43);
        }
        _ => panic!("an exchange was expected"),
    }
    assert_eq!(store.get_token(), None);
    let (state, action) = step(state, SessionEvent::CodeExchanged(Ok("ya29.granted".to_string())), &mut store);
    assert!(matches!(state, SessionState::Finished));
    match action {
        SessionAction::Finish(Ok(resp)) => {
            assert!(resp.success);
            assert_eq!(resp.message, Some("Authentication successful!".to_string()));
        }
        _ => panic!("success was expected"),
    }
    assert_eq!(store.get_token(), Some("ya29.granted".to_string()));
}

#[test]
fn mismatched_state_gets_bad_request_page() {
    let mut store = OAuthState::new();
    let (state, _) = session_awaiting_callback(&mut store);
    let line = "GET /oauth/callback?code=auth-code&state=forged HTTP/1.1\r\n".to_string();
    let (state, action) = step(state, SessionEvent::RequestLineRead(Ok(line)), &mut store);
    assert!(matches!(state, SessionState::Finished));
    match action {
        SessionAction::RespondAndFail { page, error } => {
            assert_eq!(page, BAD_REQUEST_PAGE);
            assert!(page.starts_with("HTTP/1.1 400 Bad Request"));
            assert_eq!(error, "CSRF token mismatch");
        }
        _ => panic!("a refusal was expected"),
    }
    assert_eq!(store.get_token(), None);
}

#[test]
fn missing_code_fails_before_exchange() {
    let mut store = OAuthState::new();
    let (state, csrf) = session_awaiting_callback(&mut store);
    let line = format!("GET /oauth/callback?state={} HTTP/1.1", csrf);
    let (_, action) = step(state, SessionEvent::RequestLineRead(Ok(line)), &mut store);
    assert!(matches!(action, SessionAction::Finish(Err(ref e)) if e == "no authorization code in callback"));
}

#[test]
fn failed_exchange_keeps_store() {
    let mut store = OAuthState::new();
    store.set_token("ya29.old".to_string());
    let (state, action) = step(
        SessionState::Exchanging("v".repeat(43)),
        SessionEvent::CodeExchanged(Err("invalid_grant".to_string())),
        &mut store,
    );
    assert!(matches!(state, SessionState::Finished));
    assert!(matches!(action, SessionAction::Finish(Err(ref e)) if e == "failed to exchange code for token: invalid_grant"));
    assert_eq!(store.get_token(), Some("ya29.old".to_string()));
}

#[test]
fn out_of_order_event_ends_session() {
    let mut store = OAuthState::new();
    let (state, action) = step(SessionState::Idle, SessionEvent::BrowserOpened(Ok(())), &mut store);
    assert!(matches!(state, SessionState::Finished));
    assert!(matches!(action, SessionAction::Finish(Err(ref e)) if e == "Authorization step out of order"));
}
