use teil_ing::api;
use teil_ing::api::{Method, UploadBody, UploadResponse, VideoMeta};
use teil_ing::json::JsonField;

fn text_pairs(list: &[api::Pair]) -> Vec<(String, String)> {
    list.iter().map(|p| (p.name.clone(), p.value.clone())).collect()
}

fn p(name: &str, value: &str) -> (String, String) {
    (name.to_string(), value.to_string())
}

#[test]
fn ordinary_requests_carry_the_key() {
    let r = api::validate("k");
    assert_eq!(r.method, Method::Get);
    assert_eq!(r.url, "https://teil.ing/api/v1/images");
    assert_eq!(text_pairs(&r.headers), vec![p("X-API-Key", "k")]);
    assert_eq!(r.timeout_s, 30);
    assert!(r.fields.is_empty());
    assert!(r.file.is_none());

    assert_eq!(
        api::list_images("k", 20, -1).url,
        "https://teil.ing/api/v1/images?limit=20&offset=-1"
    );
    assert_eq!(api::get_quota("k").url, "https://teil.ing/api/v1/quota");
    assert_eq!(api::get_image_details("k", "a1").url, "https://teil.ing/api/v1/images/a1");
    let r = api::update_image("k", "a1");
    assert_eq!((r.method, r.url.as_str()), (Method::Patch, "https://teil.ing/api/v1/images/a1"));
    let r = api::delete_image("k", "a1");
    assert_eq!((r.method, r.url.as_str()), (Method::Delete, "https://teil.ing/api/v1/images/a1"));
    let r = api::download_file("k", "https://x/y");
    assert_eq!((r.method, r.url.as_str(), r.timeout_s), (Method::Get, "https://x/y", 180));
}

#[test]
fn image_uploads_send_only_options_that_are_on() {
    let r = api::upload_at("k", true, true, "T");
    assert_eq!(r.method, Method::Post);
    assert_eq!(r.url, "https://teil.ing/api/v1/upload");
    assert_eq!(r.timeout_s, 180);
    assert_eq!(text_pairs(&r.fields), vec![p("stripExif", "true"), p("private", "true")]);
    let file = r.file.unwrap();
    assert_eq!(file.part, "file");
    assert_eq!((file.filename.as_str(), file.mime_type.as_str()), ("screenshot-T.png", "image/png"));
    assert_eq!(
        text_pairs(&api::upload_at("k", true, false, "T").fields),
        vec![p("stripExif", "true")]
    );
    assert_eq!(
        text_pairs(&api::upload_at("k", false, true, "T").fields),
        vec![p("private", "true")]
    );
    assert!(api::upload_at("k", false, false, "T").fields.is_empty());
}

#[test]
fn image_uploads_are_named_after_the_present_time() {
    let r = api::upload("k", false, false);
    let name = r.file.unwrap().filename;
    assert!(name.starts_with("screenshot-"));
    assert!(name.ends_with(".png"));
    assert_eq!(name.len(), "screenshot-2026-07-20_15-30-45.png".len());
}

#[test]
fn video_uploads_state_the_announced_size() {
    let r = api::preflight_video("k", 12345);
    assert_eq!(r.method, Method::Post);
    assert_eq!(r.url, "https://teil.ing/api/videos/preflight");
    assert_eq!(text_pairs(&r.fields), vec![p("byteSize", "12345")]);
    let meta = VideoMeta { duration_ms: 61000, width: 1920, height: 1080 };
    let r = api::upload_video("k", "r.mp4", &meta, "t", 12345);
    assert_eq!(r.method, Method::Post);
    assert_eq!(r.url, "https://teil.ing/api/videos/upload");
    assert_eq!(r.timeout_s, 5400);
    assert_eq!(
        text_pairs(&r.headers),
        vec![
            p("X-API-Key", "k"),
            p("X-Upload-Ticket", "t"),
            p("X-Filename", "r.mp4"),
            p("X-Duration-Ms", "61000"),
            p("X-Width", "1920"),
            p("X-Height", "1080"),
            p("content-type", "application/octet-stream"),
            p("content-length", "12345"),
        ]
    );
}

#[test]
fn transfers_count_up_to_the_whole() {
    let mut transfer = api::Transfer::new(2500);
    let mut reports = Vec::new();
    for length in [1024, 1024, 452] {
        reports.push(transfer.chunk_sent(length));
    }
    assert_eq!(reports, vec![(1024, 2500), (2048, 2500), (2500, 2500)]);
    assert_eq!(api::Transfer::new(7).chunk_sent(7), (7, 7));
}

#[test]
fn updates_change_nothing_by_default() {
    let u = api::ImageUpdateRequest::default();
    assert!(u.password.is_none() && u.remove_password.is_none() && u.private.is_none());
    assert!(u.max_views.is_none() && u.valid_for_days.is_none());
    assert_eq!(api::default_kind(), "image");
}

#[test]
fn transport_errors_are_worded() {
    let chain = vec!["outer".to_string(), "inner".to_string(), "dns error".to_string()];
    assert_eq!(api::root_cause(&chain), "dns error");
    assert_eq!(api::reach_error(true, "x"), "Connection to teil.ing timed out.");
    assert_eq!(api::reach_error(false, "x"), "Could not reach teil.ing (x).");
    assert_eq!(
        api::download_reach_error(true, "x"),
        "Download timed out. Check your connection speed."
    );
    assert_eq!(api::download_reach_error(false, "x"), "Could not reach teil.ing (x).");
    assert_eq!(
        api::upload_reach_error(true, "x"),
        "Upload timed out. Check your connection speed."
    );
    assert_eq!(
        api::upload_reach_error(false, "x"),
        "Upload failed: could not reach teil.ing (x)."
    );
    assert_eq!(api::file_read_error("x"), "Could not read the recording file: x");
    assert_eq!(api::file_open_error("x"), "Could not open the recording file: x");
}

#[test]
fn status_codes_are_worded() {
    assert_eq!(api::status_error(401), "API key is invalid or expired.");
    assert_eq!(api::status_error(404), "Image not found.");
    assert_eq!(api::status_error(429), "Too many requests. Please wait and try again.");
    assert_eq!(api::status_error(503), "Server error (503). Please try again.");
    assert_eq!(api::status_reply(200), Ok(()));
    assert_eq!(api::status_reply(299), Ok(()));
    assert_eq!(api::status_reply(300), Err("Server error (300). Please try again.".to_string()));
    assert_eq!(api::status_reply(199), Err("Server error (199). Please try again.".to_string()));
}

#[test]
fn keys_are_judged_by_the_reply() {
    assert_eq!(api::validate_reply(200), Ok(true));
    assert_eq!(api::validate_reply(401), Ok(false));
    assert_eq!(api::validate_reply(403), Ok(false));
    assert_eq!(api::validate_reply(500), Err("Server error (500). Please try again.".to_string()));
}

#[test]
fn downloads_are_judged_by_the_reply() {
    assert_eq!(api::download_reply(206), Ok(()));
    for code in [401, 403] {
        assert_eq!(
            api::download_reply(code),
            Err("Not allowed to download this image.".to_string())
        );
    }
    assert_eq!(api::download_reply(404), Err("Image file not found.".to_string()));
    assert_eq!(
        api::download_reply(429),
        Err("Too many requests. Please wait and try again.".to_string())
    );
    assert_eq!(api::downloaded(Some(vec![1])), Ok(vec![1]));
    assert_eq!(api::downloaded(None), Err("Download was interrupted.".to_string()));
    assert_eq!(api::parsed(Some(3)), Ok(3));
    assert_eq!(api::parsed::<u8>(None), Err("Failed to parse response".to_string()));
}

fn response(share_url: Option<&str>, slug: Option<&str>) -> UploadResponse {
    UploadResponse {
        id: "id1".to_string(),
        slug: slug.map(|s| s.to_string()),
        share_url: share_url.map(|s| s.to_string()),
    }
}

#[test]
fn image_uploads_are_judged_by_the_reply() {
    let ok = |share: Option<&str>, slug: Option<&str>| {
        api::upload_reply(201, UploadBody::Parsed(response(share, slug)))
    };
    let u = ok(Some("https://s"), Some("abc")).unwrap();
    assert_eq!((u.id.as_str(), u.share_url.as_str()), ("id1", "https://s"));
    assert_eq!(ok(None, Some("abc")).unwrap().share_url, "https://teil.ing/i/abc");
    assert_eq!(ok(None, None).unwrap_err(), "Upload response missing share URL");
    assert_eq!(
        api::upload_reply(201, UploadBody::Unread).unwrap_err(),
        "Failed to read upload response"
    );
    assert_eq!(
        api::upload_reply(201, UploadBody::Unparsed).unwrap_err(),
        "Failed to parse upload response"
    );
    for (code, message) in [
        (401, "API key is invalid or expired. Please update your key."),
        (413, "Storage quota exceeded. Free up space or upgrade your plan."),
        (429, "Too many uploads. Please wait and try again."),
        (400, "The image could not be uploaded."),
        (200, "Server error (200). Please try again."),
    ] {
        assert_eq!(api::upload_reply(code, UploadBody::Unread).unwrap_err(), message);
    }
}

#[test]
fn video_errors_are_worded() {
    for (code, body, message) in [
        (401, "", "API key is invalid or expired."),
        (403, "{\"error\":\"Pro only\"}", "Video uploads require a teil.ing Pro subscription."),
        (403, "{\"error\":\"expired\"}", "The upload ticket was rejected — please retry."),
        (403, "no json", "The upload ticket was rejected — please retry."),
        (411, "", "Upload rejected: missing Content-Length."),
        (413, "{}", "The recording is too large or exceeds your storage quota."),
        (413, "{\"reason\":\"Too big\",\"error\":\"x\"}", "Too big"),
        (413, "{\"reason\":1,\"error\":\"x\"}", "The recording is too large or exceeds your storage quota."),
        (429, "", "Too many video uploads. Please wait and try again."),
        (400, "", "The server could not read the recording file."),
        (422, "[1]", "The recording was rejected by content moderation."),
        (422, "{\"error\":\"Nope\"}", "Nope"),
        (501, "", "Video uploads are not available right now."),
        (502, "", "Upload failed on the server. Please try again."),
        (500, "", "Server error (500). Please try again."),
    ] {
        assert_eq!(api::video_error(code, body), message);
    }
    assert_eq!(api::video_message(413, Some("m".to_string())), "m");
}

#[test]
fn preflights_give_a_ticket_or_a_reason() {
    assert_eq!(api::preflight_reply(200, "{\"ticket\":\"t1\"}"), Ok("t1".to_string()));
    assert_eq!(
        api::preflight_reply(200, "{\"ok\":true,\"ticket\":\"t1\"}"),
        Ok("t1".to_string())
    );
    assert_eq!(
        api::preflight_reply(200, "{\"ok\":false,\"reason\":\"blocked\",\"ticket\":\"t1\"}"),
        Err("blocked".to_string())
    );
    assert_eq!(
        api::preflight_reply(200, "{\"ok\":false}"),
        Err("The recording was rejected by content moderation.".to_string())
    );
    assert_eq!(
        api::preflight_reply(200, "oops"),
        Err("Unexpected preflight response.".to_string())
    );
    assert_eq!(
        api::preflight_reply(200, "{\"ticket\":5}"),
        Err("Preflight returned no upload ticket.".to_string())
    );
    for ticket in ["null", "true", "[\"t\"]", "{\"t\":1}"] {
        assert_eq!(
            api::preflight_reply(200, &format!("{{\"ticket\":{ticket}}}")),
            Err("Preflight returned no upload ticket.".to_string())
        );
    }
    for ok in ["true", "null", "0", "\"false\"", "[]", "{}"] {
        assert_eq!(
            api::preflight_reply(200, &format!("{{\"ok\":{ok},\"ticket\":\"t\"}}")),
            Ok("t".to_string())
        );
    }
    assert_eq!(
        api::preflight_reply(429, "{}"),
        Err("Too many video uploads. Please wait and try again.".to_string())
    );
    assert_eq!(
        api::preflight_decision(
            200,
            None,
            Some(JsonField::Missing),
            Some(JsonField::Text("t".to_string()))
        ),
        Ok("t".to_string())
    );
}

#[test]
fn video_uploads_are_judged_by_the_reply() {
    let u = api::upload_video_reply(201, Ok(response(None, Some("abc"))), "").unwrap();
    assert_eq!((u.id.as_str(), u.share_url.as_str()), ("id1", "https://teil.ing/v/abc"));
    let u = api::upload_video_reply(201, Ok(response(Some("s"), Some("abc"))), "").unwrap();
    assert_eq!(u.share_url, "s");
    assert_eq!(
        api::upload_video_reply(201, Ok(response(None, None)), "").unwrap_err(),
        "Upload succeeded but no share URL was returned."
    );
    assert_eq!(
        api::upload_video_reply(201, Err("cut off".to_string()), "").unwrap_err(),
        "cut off"
    );
    assert_eq!(
        api::upload_video_reply(413, Err(String::new()), "{\"error\":\"full\"}").unwrap_err(),
        "full"
    );
    assert_eq!(
        api::video_decision(502, Err(String::new()), None).unwrap_err(),
        "Upload failed on the server. Please try again."
    );
}
