//! What is asked of the server, and what its replies mean.

use vstd::prelude::*;

use crate::api::{
    default_kind, delete_image, download_file, download_reach_error, download_reply, downloaded, file_open_error,
    file_read_error, get_image_details, get_quota, list_images, pairs, parsed, preflight_decision,
    preflight_reply, preflight_video, reach_error, root_cause, status_error, status_reply, update_image, upload_at,
    upload_reach_error, upload_reply, upload_video, upload_video_reply, validate, validate_reply, video_decision, video_error,
    video_message, Pair, Request, Transfer, UploadBody, UploadResponse, Uploaded, VideoMeta,
};
use crate::json::{found, json_member, FieldModel, JsonField};
use crate::text::{contains, decimal, signed_decimal};

verus! {

proof fn lemma_pairs(list: Seq<Pair>)
    ensures
        pairs(list).len() == list.len(),
        forall|i: int|
            0 <= i < list.len() ==> pairs(list)[i] == ((#[trigger] list[i]).name@, list[i].value@),
{
}

// ---- Requests ------------------------------------------------------------------------

/// Whether a request carries the key, and nothing else.
pub open spec fn carries_only_the_key(r: Request, key: Seq<char>) -> bool {
    &&& r.headers@.len() == 1
    &&& r.headers@[0].name@ == "X-API-Key"@
    &&& r.headers@[0].value@ == key
    &&& r.fields@.len() == 0
    &&& r.file is None
    &&& r.timeout_s == 30
}

proof fn lemma_only_the_key(r: Request, key: Seq<char>)
    requires
        r@.headers == seq![("X-API-Key"@, key)],
        r@.fields == Seq::<(Seq<char>, Seq<char>)>::empty(),
        r@.file is None,
        r@.timeout_s == 30,
    ensures
        carries_only_the_key(r, key),
{
    lemma_pairs(r.headers@);
    lemma_pairs(r.fields@);
    assert(pairs(r.headers@)[0] == (r.headers@[0].name@, r.headers@[0].value@));
}

/// A key is tried out on the list of uploads, and the quota is asked for at its own place.
pub proof fn law_keys_are_tried_out(key: &str, tried: Request, quota: Request)
    requires
        call_ensures(validate, (key,), tried),
        call_ensures(get_quota, (key,), quota),
    ensures
        tried.method is Get && quota.method is Get,
        tried.url@ == "https://teil.ing/api/v1"@ + "/images"@,
        quota.url@ == "https://teil.ing/api/v1"@ + "/quota"@,
        carries_only_the_key(tried, key@),
        carries_only_the_key(quota, key@),
{
    lemma_only_the_key(tried, key@);
    lemma_only_the_key(quota, key@);
}

/// A page of the list is asked for by its length and where it starts, in that order.
pub proof fn law_pages_are_asked_for_by_length_and_start(
    key: &str,
    limit: i64,
    offset: i64,
    r: Request,
    tl: String,
    to: String,
)
    requires
        call_ensures(list_images, (key, limit, offset), r),
        call_ensures(signed_decimal, (limit,), tl),
        call_ensures(signed_decimal, (offset,), to),
    ensures
        r.method is Get,
        r.url@ == "https://teil.ing/api/v1"@ + "/images?limit="@ + tl@ + "&offset="@ + to@,
        carries_only_the_key(r, key@),
{
    lemma_only_the_key(r, key@);
}

/// Details, changes and deletion of an upload go to the same place, each in its own way.
pub proof fn law_uploads_have_one_place(key: &str, id: &str, get: Request, patch: Request, delete: Request)
    requires
        call_ensures(get_image_details, (key, id), get),
        call_ensures(update_image, (key, id), patch),
        call_ensures(delete_image, (key, id), delete),
    ensures
        get.method is Get,
        patch.method is Patch,
        delete.method is Delete,
        get.url@ == "https://teil.ing/api/v1"@ + "/images/"@ + id@,
        patch.url@ == get.url@,
        delete.url@ == get.url@,
        carries_only_the_key(get, key@),
        carries_only_the_key(patch, key@),
        carries_only_the_key(delete, key@),
{
    lemma_only_the_key(get, key@);
    lemma_only_the_key(patch, key@);
    lemma_only_the_key(delete, key@);
}

/// A picture is fetched from the very address that was given, with the key, and in more time.
pub proof fn law_pictures_are_fetched_from_their_address(key: &str, url: &str, r: Request)
    requires
        call_ensures(download_file, (key, url), r),
    ensures
        r.method is Get,
        r.url@ == url@,
        r.headers@.len() == 1,
        r.headers@[0].name@ == "X-API-Key"@,
        r.headers@[0].value@ == key@,
        r.fields@.len() == 0,
        r.file is None,
        r.timeout_s == 180,
{
    lemma_pairs(r.headers@);
    lemma_pairs(r.fields@);
    assert(pairs(r.headers@)[0] == (r.headers@[0].name@, r.headers@[0].value@));
}

/// Whether a request has a form field of this name.
pub open spec fn has_field(r: Request, name: Seq<char>) -> bool {
    exists|i: int| 0 <= i < r.fields@.len() && (#[trigger] r.fields@[i]).name@ == name
}

/// The form of a picture's upload says `true` to what is on, and nothing to what is off; its file
/// is a PNG that is named after the time.
pub proof fn law_forms_say_what_is_on(key: &str, strip: bool, private: bool, stamp: &str, r: Request)
    requires
        call_ensures(upload_at, (key, strip, private, stamp), r),
    ensures
        r.method is Post,
        r.url@ == "https://teil.ing/api/v1"@ + "/upload"@,
        r.headers@.len() == 1,
        r.headers@[0].name@ == "X-API-Key"@,
        r.headers@[0].value@ == key@,
        r.timeout_s == 180,
        has_field(r, "stripExif"@) <==> strip,
        has_field(r, "private"@) <==> private,
        forall|i: int|
            0 <= i < r.fields@.len() ==> (#[trigger] r.fields@[i]).value@ == "true"@ && (
            r.fields@[i].name@ == "stripExif"@ || r.fields@[i].name@ == "private"@),
        r.file matches Some(f) && f.part@ == "file"@ && f.filename@ == "screenshot-"@ + stamp@
            + ".png"@ && f.mime_type@ == "image/png"@,
{
    lemma_pairs(r.headers@);
    lemma_pairs(r.fields@);
    let fields = r.fields@;
    reveal_strlit("stripExif");
    reveal_strlit("private");
    assert("stripExif"@[0] != "private"@[0]);
    assert(pairs(r.headers@)[0] == (r.headers@[0].name@, r.headers@[0].value@));
    assert forall|i: int| 0 <= i < fields.len() implies (#[trigger] fields[i]).value@ == "true"@ && (
    fields[i].name@ == "stripExif"@ && strip || fields[i].name@ == "private"@ && private) by {
        assert(pairs(fields)[i] == (fields[i].name@, fields[i].value@));
    }
    if strip {
        assert(pairs(fields)[0] == (fields[0].name@, fields[0].value@));
        assert(fields[0].name@ == "stripExif"@);
    }
    if private {
        let last = fields.len() - 1;
        assert(pairs(fields)[last] == (fields[last].name@, fields[last].value@));
        assert(fields[last].name@ == "private"@);
    }
}

/// A video is announced with its size, and nothing else.
pub proof fn law_videos_are_announced_with_their_size(key: &str, size: u64, r: Request, text: String)
    requires
        call_ensures(preflight_video, (key, size), r),
        call_ensures(decimal, (size,), text),
    ensures
        r.method is Post,
        r.url@ == "https://teil.ing"@ + "/api/videos/preflight"@,
        r.headers@.len() == 1,
        r.headers@[0].name@ == "X-API-Key"@,
        r.headers@[0].value@ == key@,
        r.fields@.len() == 1,
        r.fields@[0].name@ == "byteSize"@,
        r.fields@[0].value@ == text@,
        r.file is None,
        r.timeout_s == 30,
{
    lemma_pairs(r.headers@);
    lemma_pairs(r.fields@);
    assert(pairs(r.headers@)[0] == (r.headers@[0].name@, r.headers@[0].value@));
    assert(pairs(r.fields@)[0] == (r.fields@[0].name@, r.fields@[0].value@));
}

/// Whether a request has this header, with this value.
pub open spec fn has_header(r: Request, name: Seq<char>, value: Seq<char>) -> bool {
    exists|i: int|
        0 <= i < r.headers@.len() && (#[trigger] r.headers@[i]).name@ == name && r.headers@[i].value@
            == value
}

/// A video is uploaded with its key, its ticket, its name, its duration, its width, its height,
/// its type and its length, each under its own header; there are no others.
pub proof fn law_videos_are_uploaded_with_what_is_known(
    key: &str,
    filename: &str,
    meta: VideoMeta,
    ticket: &str,
    total: u64,
    r: Request,
    duration: String,
    width: String,
    height: String,
    length: String,
)
    requires
        call_ensures(upload_video, (key, filename, &meta, ticket, total), r),
        call_ensures(decimal, (meta.duration_ms,), duration),
        call_ensures(decimal, (meta.width as u64,), width),
        call_ensures(decimal, (meta.height as u64,), height),
        call_ensures(decimal, (total,), length),
    ensures
        r.method is Post,
        r.url@ == "https://teil.ing"@ + "/api/videos/upload"@,
        r.timeout_s == 90 * 60,
        r.fields@.len() == 0,
        r.file is None,
        r.headers@.len() == 8,
        has_header(r, "X-API-Key"@, key@),
        has_header(r, "X-Upload-Ticket"@, ticket@),
        has_header(r, "X-Filename"@, filename@),
        has_header(r, "X-Duration-Ms"@, duration@),
        has_header(r, "X-Width"@, width@),
        has_header(r, "X-Height"@, height@),
        has_header(r, "content-type"@, "application/octet-stream"@),
        has_header(r, "content-length"@, length@),
{
    lemma_pairs(r.headers@);
    lemma_pairs(r.fields@);
    let h = r.headers@;
    assert(h[0].name@ == pairs(h)[0].0 && h[0].value@ == pairs(h)[0].1);
    assert(h[1].name@ == pairs(h)[1].0 && h[1].value@ == pairs(h)[1].1);
    assert(h[2].name@ == pairs(h)[2].0 && h[2].value@ == pairs(h)[2].1);
    assert(h[3].name@ == pairs(h)[3].0 && h[3].value@ == pairs(h)[3].1);
    assert(h[4].name@ == pairs(h)[4].0 && h[4].value@ == pairs(h)[4].1);
    assert(h[5].name@ == pairs(h)[5].0 && h[5].value@ == pairs(h)[5].1);
    assert(h[6].name@ == pairs(h)[6].0 && h[6].value@ == pairs(h)[6].1);
    assert(h[7].name@ == pairs(h)[7].0 && h[7].value@ == pairs(h)[7].1);
}

/// A transfer reports what was sent so far, of the whole.
pub proof fn law_transfers_add_up(
    t: &mut Transfer,
    length: u64,
    r: (u64, u64),
    total: u64,
    fresh: Transfer,
)
    requires
        call_ensures(Transfer::chunk_sent, (t, length), r),
        call_ensures(Transfer::new, (total,), fresh),
        old(t).sent + length <= u64::MAX,
    ensures
        fresh.sent == 0 && fresh.total == total,
        r.0 == old(t).sent + length,
        r.1 == old(t).total,
        final(t).sent == r.0,
        final(t).total == old(t).total,
{
}

// ---- Replies -------------------------------------------------------------------------

/// The last cause of an error is the one that is told.
pub proof fn law_the_last_cause_is_told(chain: Vec<String>, r: String)
    requires
        call_ensures(root_cause, (&chain,), r),
        chain@.len() > 0,
    ensures
        r@ == chain@[chain@.len() - 1]@,
{
}

/// An unreachable server is named with the cause, and a timeout as one.
pub proof fn law_unreachable_servers_are_told_of(
    timed_out: bool,
    cause: &str,
    any: String,
    download: String,
    upload: String,
)
    requires
        call_ensures(reach_error, (timed_out, cause), any),
        call_ensures(download_reach_error, (timed_out, cause), download),
        call_ensures(upload_reach_error, (timed_out, cause), upload),
    ensures
        !timed_out ==> any@ == "Could not reach teil.ing ("@ + cause@ + ")."@ && download@ == any@
            && upload@ == "Upload failed: could not reach teil.ing ("@ + cause@ + ")."@,
        timed_out ==> any@ == "Connection to teil.ing timed out."@ && download@
            == "Download timed out. Check your connection speed."@ && upload@
            == "Upload timed out. Check your connection speed."@,
{
}

/// What keeps a recording's file from being read or opened is told.
pub proof fn law_unreadable_files_are_told_of(cause: &str, read: String, open: String)
    requires
        call_ensures(file_read_error, (cause,), read),
        call_ensures(file_open_error, (cause,), open),
    ensures
        read@ == "Could not read the recording file: "@ + cause@,
        open@ == "Could not open the recording file: "@ + cause@,
{
}

/// A key counts as valid only where the server says so, and as invalid only where it is refused;
/// anything else is an error.
pub proof fn law_only_the_server_decides_about_keys(code: u16, r: Result<bool, String>, text: String)
    requires
        call_ensures(validate_reply, (code,), r),
        call_ensures(status_error, (code,), text),
    ensures
        r == Ok::<bool, String>(true) <==> code == 200,
        r == Ok::<bool, String>(false) <==> code == 401 || code == 403,
        r is Err ==> r->Err_0@ == text@,
{
}

/// A request has worked exactly where its status is one of the two hundreds; else it is told why
/// not, in words for the usual cases and with the number for the rest.
pub proof fn law_statuses_are_worded(code: u16, r: Result<(), String>, text: String, number: String)
    requires
        call_ensures(status_reply, (code,), r),
        call_ensures(status_error, (code,), text),
        call_ensures(decimal, (code as u64,), number),
    ensures
        r is Ok <==> 200 <= code <= 299,
        r is Err ==> r->Err_0@ == text@,
        code == 401 ==> text@ == "API key is invalid or expired."@,
        code == 404 ==> text@ == "Image not found."@,
        code == 429 ==> text@ == "Too many requests. Please wait and try again."@,
        code != 401 && code != 404 && code != 429 ==> text@ == "Server error ("@ + number@
            + "). Please try again."@,
{
}

/// A download has worked exactly where its status is one of the two hundreds; a picture that may
/// not be seen, or is not there, is told of as such.
pub proof fn law_downloads_are_judged_by_status(code: u16, r: Result<(), String>, text: String)
    requires
        call_ensures(download_reply, (code,), r),
        call_ensures(status_error, (code,), text),
    ensures
        r is Ok <==> 200 <= code <= 299,
        code == 401 || code == 403 ==> r->Err_0@ == "Not allowed to download this image."@,
        code == 404 ==> r->Err_0@ == "Image file not found."@,
        r is Err && code != 401 && code != 403 && code != 404 ==> r->Err_0@ == text@,
{
}

/// What has arrived is passed on as it is; what has not is an error.
pub proof fn law_what_arrived_is_passed_on(
    bytes: Option<Vec<u8>>,
    r: Result<Vec<u8>, String>,
    value: Option<u64>,
    rv: Result<u64, String>,
)
    requires
        call_ensures(downloaded, (bytes,), r),
        call_ensures(parsed::<u64>, (value,), rv),
    ensures
        bytes is Some ==> r is Ok && r->Ok_0@ == bytes->0@,
        bytes is None ==> r is Err && r->Err_0@ == "Download was interrupted."@,
        value is Some ==> rv == Ok::<u64, String>(value->0),
        value is None ==> rv is Err && rv->Err_0@ == "Failed to parse response"@,
{
}

/// Whether an upload is known by its own id and the link to share: the one that the server gave,
/// or else the page with the slug.
pub open spec fn is_shared_at(u: Uploaded, raw: UploadResponse, page: Seq<char>) -> bool {
    &&& u.id@ == raw.id@
    &&& raw.share_url is Some ==> u.share_url@ == raw.share_url->0@
    &&& raw.share_url is None ==> raw.slug is Some && u.share_url@ == page + raw.slug->0@
}

/// A picture is uploaded exactly where the server has created it and tells of a link or a slug;
/// else the user is told why not.
pub proof fn law_picture_uploads_are_judged(code: u16, body: UploadBody, r: Result<Uploaded, String>, number: String)
    requires
        call_ensures(upload_reply, (code, body), r),
        call_ensures(decimal, (code as u64,), number),
    ensures
        r is Ok <==> code == 201 && body is Parsed && (body->Parsed_0.share_url is Some
            || body->Parsed_0.slug is Some),
        r is Ok ==> is_shared_at(r->Ok_0, body->Parsed_0, "https://teil.ing/i/"@),
        code == 201 && r is Err ==> r->Err_0@ == (match body {
            UploadBody::Unread => "Failed to read upload response"@,
            UploadBody::Unparsed => "Failed to parse upload response"@,
            UploadBody::Parsed(_) => "Upload response missing share URL"@,
        }),
        code == 401 ==> r->Err_0@ == "API key is invalid or expired. Please update your key."@,
        code == 413 ==> r->Err_0@ == "Storage quota exceeded. Free up space or upgrade your plan."@,
        code == 429 ==> r->Err_0@ == "Too many uploads. Please wait and try again."@,
        code == 400 ==> r->Err_0@ == "The image could not be uploaded."@,
        code != 201 && code != 401 && code != 413 && code != 429 && code != 400 ==> r->Err_0@
            == "Server error ("@ + number@ + "). Please try again."@,
{
}

/// A video is uploaded exactly where the server has created it and tells of a link or a slug; a
/// reply that could not be read is told of, and any other status in the words for videos.
pub proof fn law_video_uploads_are_judged(
    code: u16,
    reply: Result<UploadResponse, String>,
    sent: Option<String>,
    r: Result<Uploaded, String>,
    text: String,
)
    requires
        call_ensures(video_decision, (code, reply, sent), r),
        call_ensures(video_message, (code, sent), text),
    ensures
        r is Ok <==> code == 201 && reply is Ok && (reply->Ok_0.share_url is Some || reply->Ok_0.slug
            is Some),
        r is Ok ==> is_shared_at(r->Ok_0, reply->Ok_0, "https://teil.ing/v/"@),
        code == 201 && reply is Err ==> r->Err_0@ == reply->Err_0@,
        code == 201 && reply is Ok && r is Err ==> r->Err_0@
            == "Upload succeeded but no share URL was returned."@,
        code != 201 ==> r->Err_0@ == text@,
{
}

/// The statuses of the video routes are worded; what the server says itself is told where the
/// file is too large or rejected, and decides whether a subscription is missing.
pub proof fn law_video_statuses_are_worded(
    code: u16,
    sent: Option<String>,
    r: String,
    number: String,
    pro: bool,
    said: &str,
)
    requires
        call_ensures(video_message, (code, sent), r),
        call_ensures(decimal, (code as u64,), number),
        sent is Some ==> said@ == sent->0@,
        call_ensures(contains, (said, "Pro"), pro),
    ensures
        code == 401 ==> r@ == "API key is invalid or expired."@,
        code == 403 && sent is Some && pro ==> r@
            == "Video uploads require a teil.ing Pro subscription."@,
        code == 403 && !(sent is Some && pro) ==> r@
            == "The upload ticket was rejected \u{2014} please retry."@,
        code == 411 ==> r@ == "Upload rejected: missing Content-Length."@,
        (code == 413 || code == 422) && sent is Some ==> r@ == sent->0@,
        code == 413 && sent is None ==> r@
            == "The recording is too large or exceeds your storage quota."@,
        code == 422 && sent is None ==> r@ == "The recording was rejected by content moderation."@,
        code == 429 ==> r@ == "Too many video uploads. Please wait and try again."@,
        code == 400 ==> r@ == "The server could not read the recording file."@,
        code == 501 ==> r@ == "Video uploads are not available right now."@,
        code == 502 ==> r@ == "Upload failed on the server. Please try again."@,
        code != 401 && code != 403 && code != 411 && code != 413 && code != 422 && code != 429
            && code != 400 && code != 501 && code != 502 ==> r@ == "Server error ("@ + number@
            + "). Please try again."@,
{
}

/// A ticket is given exactly where the server agrees, does not say that it is not fine, and sends
/// one; it is used as it is. Otherwise the user is told why there is none.
pub proof fn law_tickets_come_from_the_server(
    code: u16,
    sent: Option<String>,
    ok: Option<JsonField>,
    ticket: Option<JsonField>,
    r: Result<String, String>,
    text: String,
    rejected: String,
)
    requires
        call_ensures(preflight_decision, (code, sent, ok, ticket), r),
        call_ensures(video_message, (code, sent), text),
        call_ensures(video_message, (422u16, sent), rejected),
    ensures
        r is Ok <==> code == 200 && ok is Some && ok != Some(JsonField::Flag(false)) && ticket is Some
            && ticket->0 is Text,
        r is Ok ==> r->Ok_0@ == ticket->0->Text_0@,
        code != 200 ==> r->Err_0@ == text@,
        code == 200 && ok is None ==> r->Err_0@ == "Unexpected preflight response."@,
        code == 200 && ok == Some(JsonField::Flag(false)) ==> r->Err_0@ == rejected@,
        code == 200 && ok is Some && ok != Some(JsonField::Flag(false)) && r is Err ==> r->Err_0@
            == "Preflight returned no upload ticket."@,
{
}

// ---- Replies, as they come -----------------------------------------------------------

/// Whether a text is the message that a video route sent along: its `reason`, or its `error` where
/// it has no `reason`; nothing where that is no text.
pub open spec fn is_message(body: Seq<char>, sent: Option<String>) -> bool {
    match json_member(body, "reason"@) {
        Some(FieldModel::Text(t)) => sent is Some && sent->0@ == t,
        Some(FieldModel::Missing) => match json_member(body, "error"@) {
            Some(FieldModel::Text(t)) => sent is Some && sent->0@ == t,
            _ => sent is None,
        },
        _ => sent is None,
    }
}

/// An error of a video route is worded with the message that its body holds.
pub proof fn law_video_errors_use_the_message_of_the_body(
    code: u16,
    body: &str,
    sent: Option<String>,
    r: String,
    text: String,
)
    requires
        call_ensures(video_error, (code, body), r),
        is_message(body@, sent),
        call_ensures(video_message, (code, sent), text),
    ensures
        r@ == text@,
{
}

/// A ticket is read out of the body: its `ok` decides, and its `ticket` is the ticket.
pub proof fn law_tickets_are_read_out_of_the_body(
    code: u16,
    body: &str,
    sent: Option<String>,
    ok: Option<JsonField>,
    ticket: Option<JsonField>,
    r: Result<String, String>,
    decided: Result<String, String>,
)
    requires
        call_ensures(preflight_reply, (code, body), r),
        is_message(body@, sent),
        found(ok) == json_member(body@, "ok"@),
        found(ticket) == json_member(body@, "ticket"@),
        call_ensures(preflight_decision, (code, sent, ok, ticket), decided),
    ensures
        r is Ok <==> decided is Ok,
        r is Ok ==> r->Ok_0@ == decided->Ok_0@,
        r is Err ==> r->Err_0@ == decided->Err_0@,
{
}

/// A video upload is judged with the message that its body holds.
pub proof fn law_video_uploads_are_judged_with_their_body(
    code: u16,
    reply: Result<UploadResponse, String>,
    body: &str,
    sent: Option<String>,
    r: Result<Uploaded, String>,
    decided: Result<Uploaded, String>,
)
    requires
        call_ensures(upload_video_reply, (code, reply, body), r),
        is_message(body@, sent),
        call_ensures(video_decision, (code, reply, sent), decided),
    ensures
        r is Ok <==> decided is Ok,
        r is Ok ==> r->Ok_0.id@ == decided->Ok_0.id@ && r->Ok_0.share_url@
            == decided->Ok_0.share_url@,
        r is Err ==> r->Err_0@ == decided->Err_0@,
{
}

/// An upload that states no kind is a picture.
pub proof fn law_uploads_are_pictures_unless_said(r: String)
    requires
        call_ensures(default_kind, (), r),
    ensures
        r@ == "image"@,
{
}

} // verus!
