//! The teil.ing API: the requests that the client makes, and what it makes of the replies.

use vstd::prelude::*;

use crate::json::{json_field, json_member, FieldModel, JsonField};
use crate::stamp::{
    is_stamp, local_stamp, screenshot_filename, screenshot_name,
};
use crate::text::{
    contains, decimal, decimal_text, join, join3, occurs_in, opt_text, signed_decimal, signed_text,
};

verus! {

/// Root of the versioned API.
pub const BASE: &'static str = "https://teil.ing/api/v1";

/// The routes outside of the versioned API live here.
pub const HOST: &'static str = "https://teil.ing";

// ---- Models --------------------------------------------------------------------------

/// An uploaded image or video.
#[derive(Debug, PartialEq, Eq)]
pub struct ImageResponse {
    pub id: String,
    pub slug: String,
    pub original_filename: String,
    pub mime_type: String,
    pub file_size: i64,
    pub image_url: Option<String>,
    pub thumbnail_url: Option<String>,
    pub has_password: bool,
    pub is_private: bool,
    pub view_count: i64,
    pub max_views: Option<i64>,
    pub valid_until: Option<String>,
    pub is_edited: bool,
    pub created_at: String,
    /// "image" or "video".
    pub kind: String,
    /// For a video: "uploading", "processing", "ready" or "failed".
    pub stream_status: Option<String>,
    pub duration_ms: Option<i64>,
    pub width: Option<i64>,
    pub height: Option<i64>,
    /// Signed playlist of a video that is ready. It expires.
    pub video_url: Option<String>,
}

/// What an upload is where the server does not say.
pub fn default_kind() -> (r: String)
    ensures
        r@ == "image"@,
{
    "image".to_owned()
}

/// A page of the list of uploads.
#[derive(Debug, PartialEq, Eq)]
pub struct ImageListResponse {
    pub images: Vec<ImageResponse>,
    pub limit: i64,
    pub offset: i64,
}

#[derive(Debug, PartialEq, Eq)]
pub struct QuotaResponse {
    pub storage_used: i64,
    pub storage_quota: Option<i64>,
    pub tier: String,
    pub image_count: i64,
}

/// The reply to an upload that worked.
#[derive(Debug, PartialEq, Eq)]
pub struct UploadResponse {
    pub id: String,
    pub slug: Option<String>,
    pub share_url: Option<String>,
}

/// Changes to an upload; only what is there is changed.
#[derive(Debug, PartialEq, Eq)]
pub struct ImageUpdateRequest {
    pub password: Option<String>,
    pub remove_password: Option<bool>,
    pub private: Option<bool>,
    pub max_views: Option<i64>,
    pub valid_for_days: Option<i64>,
}

impl Default for ImageUpdateRequest {
    /// No change at all.
    fn default() -> (r: Self)
        ensures
            r.password is None,
            r.remove_password is None,
            r.private is None,
            r.max_views is None,
            r.valid_for_days is None,
    {
        ImageUpdateRequest {
            password: None,
            remove_password: None,
            private: None,
            max_views: None,
            valid_for_days: None,
        }
    }
}

/// What is known of a recorded video.
#[derive(Clone, Copy, Debug, PartialEq, Eq, Structural)]
pub struct VideoMeta {
    pub duration_ms: u64,
    pub width: u32,
    pub height: u32,
}

// ---- Requests ------------------------------------------------------------------------

#[derive(Clone, Copy, Debug, PartialEq, Eq, Structural)]
pub enum Method {
    Get,
    Post,
    Patch,
    Delete,
}

/// A name and a value: a header or a form field.
#[derive(Debug, PartialEq, Eq)]
pub struct Pair {
    pub name: String,
    pub value: String,
}

impl View for Pair {
    type V = (Seq<char>, Seq<char>);

    open spec fn view(&self) -> (Seq<char>, Seq<char>) {
        (self.name@, self.value@)
    }
}

/// What pairs hold.
pub open spec fn pairs(list: Seq<Pair>) -> Seq<(Seq<char>, Seq<char>)> {
    list.map_values(|p: Pair| p@)
}

/// A file in a form, less its bytes.
#[derive(Debug, PartialEq, Eq)]
pub struct FilePart {
    /// The name of the part.
    pub part: String,
    pub filename: String,
    pub mime_type: String,
}

impl View for FilePart {
    type V = (Seq<char>, Seq<char>, Seq<char>);

    open spec fn view(&self) -> (Seq<char>, Seq<char>, Seq<char>) {
        (self.part@, self.filename@, self.mime_type@)
    }
}

/// A request to the server, less its body.
#[derive(Debug, PartialEq, Eq)]
pub struct Request {
    pub method: Method,
    pub url: String,
    pub headers: Vec<Pair>,
    /// Text fields of the body: of a form, unless said otherwise.
    pub fields: Vec<Pair>,
    /// The file that goes along in the form.
    pub file: Option<FilePart>,
    /// Time for the whole exchange.
    pub timeout_s: u64,
}

/// A request to the server, as a value.
pub ghost struct RequestModel {
    pub method: Method,
    pub url: Seq<char>,
    pub headers: Seq<(Seq<char>, Seq<char>)>,
    pub fields: Seq<(Seq<char>, Seq<char>)>,
    /// The part's name, and the file's name and type.
    pub file: Option<(Seq<char>, Seq<char>, Seq<char>)>,
    pub timeout_s: u64,
}

impl View for Request {
    type V = RequestModel;

    open spec fn view(&self) -> RequestModel {
        RequestModel {
            method: self.method,
            url: self.url@,
            headers: pairs(self.headers@),
            fields: pairs(self.fields@),
            file: match self.file {
                Some(p) => Some(p@),
                None => None,
            },
            timeout_s: self.timeout_s,
        }
    }
}

/// Time to connect, for every request of the API.
pub const CONNECT_TIMEOUT_S: u64 = 15;

/// Time for an ordinary request.
pub const TIMEOUT_S: u64 = 30;

/// Time for a request that carries a picture.
pub const TRANSFER_TIMEOUT_S: u64 = 180;

/// Time for a request that carries a video: 90 minutes.
pub const VIDEO_TIMEOUT_S: u64 = 5400;

/// A request of the API: it carries the key, and nothing else besides.
pub open spec fn keyed(method: Method, url: Seq<char>, key: Seq<char>, timeout_s: u64) -> RequestModel {
    RequestModel {
        method,
        url,
        headers: seq![("X-API-Key"@, key)],
        fields: Seq::empty(),
        file: None,
        timeout_s,
    }
}

fn pair(name: &str, value: &str) -> (r: Pair)
    ensures
        r@ == (name@, value@),
{
    Pair { name: name.to_owned(), value: value.to_owned() }
}

fn keyed_request(method: Method, url: String, key: &str, timeout_s: u64) -> (r: Request)
    ensures
        r@ == keyed(method, url@, key@, timeout_s),
{
    let mut headers: Vec<Pair> = Vec::new();
    headers.push(pair("X-API-Key", key));
    let r = Request { method, url, headers, fields: Vec::new(), file: None, timeout_s };
    assert(r@.headers =~= seq![("X-API-Key"@, key@)]);
    assert(r@.fields =~= Seq::empty());
    r
}

/// Asks whether a key is valid.
pub fn validate(key: &str) -> (r: Request)
    ensures
        r@ == keyed(Method::Get, "https://teil.ing/api/v1"@ + "/images"@, key@, 30),
{
    keyed_request(Method::Get, join(BASE, "/images"), key, TIMEOUT_S)
}

/// Asks for a page of the list of uploads.
pub fn list_images(key: &str, limit: i64, offset: i64) -> (r: Request)
    ensures
        r@ == keyed(
            Method::Get,
            "https://teil.ing/api/v1"@ + "/images?limit="@ + signed_text(limit as int)
                + "&offset="@ + signed_text(offset as int),
            key@,
            30,
        ),
{
    let page = join3(BASE, "/images?limit=", signed_decimal(limit).as_str());
    let url = join3(page.as_str(), "&offset=", signed_decimal(offset).as_str());
    keyed_request(Method::Get, url, key, TIMEOUT_S)
}

/// Asks for the storage quota.
pub fn get_quota(key: &str) -> (r: Request)
    ensures
        r@ == keyed(Method::Get, "https://teil.ing/api/v1"@ + "/quota"@, key@, 30),
{
    keyed_request(Method::Get, join(BASE, "/quota"), key, TIMEOUT_S)
}

/// The address of one upload.
pub open spec fn image_url(id: Seq<char>) -> Seq<char> {
    "https://teil.ing/api/v1"@ + "/images/"@ + id
}

/// Asks for the details of an upload.
pub fn get_image_details(key: &str, id: &str) -> (r: Request)
    ensures
        r@ == keyed(Method::Get, image_url(id@), key@, 30),
{
    keyed_request(Method::Get, join3(BASE, "/images/", id), key, TIMEOUT_S)
}

/// Changes an upload; the changes are the body.
pub fn update_image(key: &str, id: &str) -> (r: Request)
    ensures
        r@ == keyed(Method::Patch, image_url(id@), key@, 30),
{
    keyed_request(Method::Patch, join3(BASE, "/images/", id), key, TIMEOUT_S)
}

/// Deletes an upload.
pub fn delete_image(key: &str, id: &str) -> (r: Request)
    ensures
        r@ == keyed(Method::Delete, image_url(id@), key@, 30),
{
    keyed_request(Method::Delete, join3(BASE, "/images/", id), key, TIMEOUT_S)
}

/// Fetches a stored picture from its own address. The key goes along, so that private
/// ones can be fetched too.
pub fn download_file(key: &str, url: &str) -> (r: Request)
    ensures
        r@ == keyed(Method::Get, url@, key@, 180),
{
    keyed_request(Method::Get, url.to_owned(), key, TRANSFER_TIMEOUT_S)
}

/// The form fields of an image upload beside the file: each option only where it is on.
pub open spec fn upload_fields(strip_exif: bool, is_private: bool) -> Seq<(Seq<char>, Seq<char>)> {
    let strip = if strip_exif {
        seq![("stripExif"@, "true"@)]
    } else {
        Seq::empty()
    };
    if is_private {
        strip.push(("private"@, "true"@))
    } else {
        strip
    }
}

/// The upload of an image that was captured at a point in time.
pub open spec fn upload_request(
    key: Seq<char>,
    strip_exif: bool,
    is_private: bool,
    stamp: Seq<char>,
) -> RequestModel {
    RequestModel {
        fields: upload_fields(strip_exif, is_private),
        file: Some(("file"@, screenshot_name(stamp), "image/png"@)),
        ..keyed(Method::Post, "https://teil.ing/api/v1"@ + "/upload"@, key, 180)
    }
}

/// Uploads an image that was captured at a point in time; the file goes along in the form.
pub fn upload_at(key: &str, strip_exif: bool, is_private: bool, stamp: &str) -> (r: Request)
    ensures
        r@ == upload_request(key@, strip_exif, is_private, stamp@),
{
    let mut request = keyed_request(Method::Post, join(BASE, "/upload"), key, TRANSFER_TIMEOUT_S);
    let mut fields: Vec<Pair> = Vec::new();
    if strip_exif {
        fields.push(pair("stripExif", "true"));
    }
    if is_private {
        fields.push(pair("private", "true"));
    }
    assert(pairs(fields@) =~= upload_fields(strip_exif, is_private));
    request.fields = fields;
    request.file = Some(
        FilePart {
            part: "file".to_owned(),
            filename: screenshot_filename(stamp),
            mime_type: "image/png".to_owned(),
        },
    );
    request
}

/// Whether a request uploads an image, under the name of some point in time.
pub open spec fn uploads(request: RequestModel, key: Seq<char>, strip_exif: bool, is_private: bool) -> bool {
    exists|stamp: Seq<char>| #[trigger]
        is_stamp(stamp) && request == upload_request(key, strip_exif, is_private, stamp)
}

/// Uploads an image; the file goes along in the form, named after the present time.
pub fn upload(key: &str, strip_exif: bool, is_private: bool) -> (r: Request)
    ensures
        uploads(r@, key@, strip_exif, is_private),
{
    let stamp = local_stamp();
    upload_at(key, strip_exif, is_private, stamp.as_str())
}

/// An option that is off is not sent at all.
pub proof fn law_omitted_fields_mean_off(strip_exif: bool, is_private: bool)
    ensures
        upload_fields(strip_exif, is_private).contains(("stripExif"@, "true"@)) <==> strip_exif,
        upload_fields(strip_exif, is_private).contains(("private"@, "true"@)) <==> is_private,
        upload_fields(false, false) == Seq::<(Seq<char>, Seq<char>)>::empty(),
{
    reveal_strlit("stripExif");
    reveal_strlit("private");
    assert("stripExif"@[0] != "private"@[0]);
    let fields = upload_fields(strip_exif, is_private);
    if strip_exif {
        assert(fields[0] == ("stripExif"@, "true"@));
    }
    if is_private {
        assert(fields[fields.len() - 1] == ("private"@, "true"@));
    }
}

/// Announces a video of this size.
pub fn preflight_video(key: &str, byte_size: u64) -> (r: Request)
    ensures
        r@ == (RequestModel {
            fields: seq![("byteSize"@, decimal_text(byte_size as nat))],
            ..keyed(Method::Post, "https://teil.ing"@ + "/api/videos/preflight"@, key@, 30)
        }),
{
    let mut request = keyed_request(
        Method::Post,
        join(HOST, "/api/videos/preflight"),
        key,
        TIMEOUT_S,
    );
    let mut fields: Vec<Pair> = Vec::new();
    fields.push(pair("byteSize", decimal(byte_size).as_str()));
    assert(pairs(fields@) =~= seq![("byteSize"@, decimal_text(byte_size as nat))]);
    request.fields = fields;
    request
}

/// The headers of a video upload.
pub open spec fn video_headers(
    key: Seq<char>,
    ticket: Seq<char>,
    filename: Seq<char>,
    meta: VideoMeta,
    total: u64,
) -> Seq<(Seq<char>, Seq<char>)> {
    seq![
        ("X-API-Key"@, key),
        ("X-Upload-Ticket"@, ticket),
        ("X-Filename"@, filename),
        ("X-Duration-Ms"@, decimal_text(meta.duration_ms as nat)),
        ("X-Width"@, decimal_text(meta.width as nat)),
        ("X-Height"@, decimal_text(meta.height as nat)),
        ("content-type"@, "application/octet-stream"@),
        ("content-length"@, decimal_text(total as nat)),
    ]
}

/// Uploads a video of `total` bytes; the file is the body.
pub fn upload_video(key: &str, filename: &str, meta: &VideoMeta, ticket: &str, total: u64) -> (r:
    Request)
    ensures
        r@ == (RequestModel {
            method: Method::Post,
            url: "https://teil.ing"@ + "/api/videos/upload"@,
            headers: video_headers(key@, ticket@, filename@, *meta, total),
            fields: Seq::empty(),
            file: None,
            timeout_s: 5400,
        }),
{
    let mut headers: Vec<Pair> = Vec::new();
    headers.push(pair("X-API-Key", key));
    headers.push(pair("X-Upload-Ticket", ticket));
    headers.push(pair("X-Filename", filename));
    headers.push(pair("X-Duration-Ms", decimal(meta.duration_ms).as_str()));
    headers.push(pair("X-Width", decimal(meta.width as u64).as_str()));
    headers.push(pair("X-Height", decimal(meta.height as u64).as_str()));
    headers.push(pair("content-type", "application/octet-stream"));
    headers.push(pair("content-length", decimal(total).as_str()));
    assert(pairs(headers@) =~= video_headers(key@, ticket@, filename@, *meta, total));
    let r = Request {
        method: Method::Post,
        url: join(HOST, "/api/videos/upload"),
        headers,
        fields: Vec::new(),
        file: None,
        timeout_s: VIDEO_TIMEOUT_S,
    };
    assert(r@.fields =~= Seq::empty());
    r
}

/// The length that a video upload states is the size that its preflight announced, for a
/// file whose size stays the same.
pub proof fn law_upload_states_the_announced_size(
    key: Seq<char>,
    ticket: Seq<char>,
    filename: Seq<char>,
    meta: VideoMeta,
    size: u64,
    announced: RequestModel,
)
    requires
        announced.fields == seq![("byteSize"@, decimal_text(size as nat))],
    ensures
        video_headers(key, ticket, filename, meta, size).contains(
            ("content-length"@, announced.fields[0].1),
        ),
{
    assert(video_headers(key, ticket, filename, meta, size)[7].1 == announced.fields[0].1);
}

/// How far a file of `total` bytes is sent.
#[derive(Clone, Copy, Debug, PartialEq, Eq, Structural)]
pub struct Transfer {
    pub sent: u64,
    pub total: u64,
}

impl Transfer {
    /// Nothing of a file is sent.
    pub fn new(total: u64) -> (r: Transfer)
        ensures
            r == (Transfer { sent: 0, total }),
    {
        Transfer { sent: 0, total }
    }

    /// Takes in that another part of the file is sent, and tells how far it is: the bytes sent so
    /// far, and the bytes in all.
    pub fn chunk_sent(&mut self, length: u64) -> (r: (u64, u64))
        requires
            old(self).sent + length <= u64::MAX,
        ensures
            *final(self) == (Transfer { sent: (old(self).sent + length) as u64, ..*old(self) }),
            r == (final(self).sent, final(self).total),
    {
        self.sent = self.sent + length;
        (self.sent, self.total)
    }
}

/// How many bytes some parts have together.
pub open spec fn total_length(lengths: Seq<u64>) -> int
    decreases lengths.len(),
{
    if lengths.len() == 0 {
        0
    } else {
        total_length(lengths.drop_last()) + lengths.last()
    }
}

/// What is told of a file while its parts are sent: the bytes sent so far, and the bytes in all.
pub open spec fn reports(total: u64, lengths: Seq<u64>) -> Seq<(int, u64)> {
    Seq::new(lengths.len(), |i: int| (total_length(lengths.take(i + 1)), total))
}

/// Where a file's parts are sent one after the other, none of them empty, each report names
/// more bytes than the one before, of the same whole; and the last one names all of them.
pub proof fn law_reports_count_up_to_the_whole(total: u64, lengths: Seq<u64>)
    requires
        forall|k: int| 0 <= k < lengths.len() ==> #[trigger] lengths[k] > 0,
        total_length(lengths) == total,
    ensures
        forall|i: int|
            #![trigger reports(total, lengths)[i]]
            0 <= i < lengths.len() ==> 0 < reports(total, lengths)[i].0 <= total && reports(
                total,
                lengths,
            )[i].1 == total,
        forall|i: int, j: int|
            #![trigger reports(total, lengths)[i], reports(total, lengths)[j]]
            0 <= i < j < lengths.len() ==> reports(total, lengths)[i].0 < reports(
                total,
                lengths,
            )[j].0,
        lengths.len() > 0 ==> reports(total, lengths).last() == (total as int, total),
{
    let n = lengths.len() as int;
    assert(lengths.take(n) =~= lengths);
    assert forall|i: int|
        #![trigger reports(total, lengths)[i]]
        0 <= i < n implies 0 < reports(total, lengths)[i].0 <= total by {
        lemma_total_length_grows(lengths, 0, i + 1);
        lemma_total_length_grows(lengths, i + 1, n);
    }
    assert forall|i: int, j: int|
        #![trigger reports(total, lengths)[i], reports(total, lengths)[j]]
        0 <= i < j < n implies reports(total, lengths)[i].0 < reports(total, lengths)[j].0 by {
        lemma_total_length_grows(lengths, i + 1, j + 1);
    }
}

proof fn lemma_total_length_grows(lengths: Seq<u64>, i: int, j: int)
    requires
        forall|k: int| 0 <= k < lengths.len() ==> #[trigger] lengths[k] > 0,
        0 <= i <= j <= lengths.len(),
    ensures
        0 <= total_length(lengths.take(i)),
        i < j ==> total_length(lengths.take(i)) < total_length(lengths.take(j)),
        i == j ==> total_length(lengths.take(i)) == total_length(lengths.take(j)),
    decreases j,
{
    if j > 0 {
        assert(lengths.take(j).drop_last() =~= lengths.take(j - 1));
        if i < j {
            lemma_total_length_grows(lengths, i, j - 1);
        } else {
            lemma_total_length_grows(lengths, i - 1, i - 1);
        }
    }
}

/// One more part that is sent adds one more report, of what `Transfer::chunk_sent` then tells.
pub proof fn law_reports_follow_the_transfer(total: u64, lengths: Seq<u64>, next: u64)
    ensures
        reports(total, lengths.push(next)) == reports(total, lengths).push(
            (total_length(lengths) + next, total),
        ),
{
    assert(lengths.push(next).drop_last() =~= lengths);
    assert forall|i: int| 0 <= i < lengths.len() implies lengths.push(next).take(i + 1)
        =~= #[trigger] lengths.take(i + 1) by {}
    assert(lengths.push(next).take(lengths.len() as int + 1) =~= lengths.push(next));
    assert(reports(total, lengths.push(next)) =~= reports(total, lengths).push(
        (total_length(lengths) + next, total),
    ));
}

// ---- Replies -------------------------------------------------------------------------

/// The deepest cause of a transport error, given the error's own text and those of its
/// causes, from the outside in.
pub fn root_cause(chain: &Vec<String>) -> (r: String)
    requires
        chain@.len() > 0,
    ensures
        r@ == chain@.last()@,
{
    chain[chain.len() - 1].clone()
}

/// What the user is told where the server did not answer.
pub fn reach_error(timed_out: bool, cause: &str) -> (r: String)
    ensures
        r@ == (if timed_out {
            "Connection to teil.ing timed out."@
        } else {
            "Could not reach teil.ing ("@ + cause@ + ")."@
        }),
{
    if timed_out {
        "Connection to teil.ing timed out.".to_owned()
    } else {
        join3("Could not reach teil.ing (", cause, ").")
    }
}

/// What the user is told where the server did not answer to a download.
pub fn download_reach_error(timed_out: bool, cause: &str) -> (r: String)
    ensures
        r@ == (if timed_out {
            "Download timed out. Check your connection speed."@
        } else {
            "Could not reach teil.ing ("@ + cause@ + ")."@
        }),
{
    if timed_out {
        "Download timed out. Check your connection speed.".to_owned()
    } else {
        join3("Could not reach teil.ing (", cause, ").")
    }
}

/// What the user is told where the server did not answer to an upload.
pub fn upload_reach_error(timed_out: bool, cause: &str) -> (r: String)
    ensures
        r@ == (if timed_out {
            "Upload timed out. Check your connection speed."@
        } else {
            "Upload failed: could not reach teil.ing ("@ + cause@ + ")."@
        }),
{
    if timed_out {
        "Upload timed out. Check your connection speed.".to_owned()
    } else {
        join3("Upload failed: could not reach teil.ing (", cause, ").")
    }
}

/// What the user is told where the file of a recording could not be read.
pub fn file_read_error(cause: &str) -> (r: String)
    ensures
        r@ == "Could not read the recording file: "@ + cause@,
{
    join("Could not read the recording file: ", cause)
}

/// What the user is told where the file of a recording could not be opened.
pub fn file_open_error(cause: &str) -> (r: String)
    ensures
        r@ == "Could not open the recording file: "@ + cause@,
{
    join("Could not open the recording file: ", cause)
}

/// A server error that has no message of its own.
pub open spec fn server_error_text(code: u16) -> Seq<char> {
    "Server error ("@ + decimal_text(code as nat) + "). Please try again."@
}

fn server_error(code: u16) -> (r: String)
    ensures
        r@ == server_error_text(code),
{
    join3("Server error (", decimal(code as u64).as_str(), "). Please try again.")
}

/// The message for a status code that is no success.
pub open spec fn status_text(code: u16) -> Seq<char> {
    if code == 401 {
        "API key is invalid or expired."@
    } else if code == 404 {
        "Image not found."@
    } else if code == 429 {
        "Too many requests. Please wait and try again."@
    } else {
        server_error_text(code)
    }
}

/// The message for a status code that is no success.
pub fn status_error(code: u16) -> (r: String)
    ensures
        r@ == status_text(code),
{
    match code {
        401 => "API key is invalid or expired.".to_owned(),
        404 => "Image not found.".to_owned(),
        429 => "Too many requests. Please wait and try again.".to_owned(),
        _ => server_error(code),
    }
}

/// Whether a status code is a success.
pub open spec fn is_success(code: u16) -> bool {
    200 <= code < 300
}

/// Whether the key that was asked about is valid.
pub fn validate_reply(code: u16) -> (r: Result<bool, String>)
    ensures
        match r {
            Ok(valid) => valid && code == 200 || !valid && (code == 401 || code == 403),
            Err(e) => code != 200 && code != 401 && code != 403 && e@ == status_text(code),
        },
{
    match code {
        200 => Ok(true),
        401 => Ok(false),
        403 => Ok(false),
        _ => Err(status_error(code)),
    }
}

/// Whether an ordinary request worked.
pub fn status_reply(code: u16) -> (r: Result<(), String>)
    ensures
        match r {
            Ok(_) => is_success(code),
            Err(e) => !is_success(code) && e@ == status_text(code),
        },
{
    if 200 <= code && code < 300 {
        Ok(())
    } else {
        Err(status_error(code))
    }
}

/// The value that a reply's body holds, where it could be read.
pub fn parsed<T>(value: Option<T>) -> (r: Result<T, String>)
    ensures
        match (value, r) {
            (Some(v), Ok(got)) => got == v,
            (None, Err(e)) => e@ == "Failed to parse response"@,
            _ => false,
        },
{
    match value {
        Some(v) => Ok(v),
        None => Err("Failed to parse response".to_owned()),
    }
}

/// Whether a download worked.
pub fn download_reply(code: u16) -> (r: Result<(), String>)
    ensures
        match r {
            Ok(_) => is_success(code),
            Err(e) => !is_success(code) && e@ == (if code == 401 || code == 403 {
                "Not allowed to download this image."@
            } else if code == 404 {
                "Image file not found."@
            } else {
                status_text(code)
            }),
        },
{
    if 200 <= code && code < 300 {
        return Ok(());
    }
    Err(
        match code {
            401 => "Not allowed to download this image.".to_owned(),
            403 => "Not allowed to download this image.".to_owned(),
            404 => "Image file not found.".to_owned(),
            _ => status_error(code),
        },
    )
}

/// The bytes of a download, where all of them arrived.
pub fn downloaded(bytes: Option<Vec<u8>>) -> (r: Result<Vec<u8>, String>)
    ensures
        match (bytes, r) {
            (Some(b), Ok(got)) => got == b,
            (None, Err(e)) => e@ == "Download was interrupted."@,
            _ => false,
        },
{
    match bytes {
        Some(b) => Ok(b),
        None => Err("Download was interrupted.".to_owned()),
    }
}

/// The link to share an upload by: the one that the server gave, or else one made from the
/// upload's slug.
pub open spec fn share_link(raw: UploadResponse, page: Seq<char>) -> Option<Seq<char>> {
    match raw.share_url {
        Some(url) => Some(url@),
        None => match raw.slug {
            Some(slug) => Some(page + slug@),
            None => None,
        },
    }
}

fn pick_link(share_url: Option<String>, slug: Option<String>, page: &str) -> (r: Option<String>)
    ensures
        opt_text(r) == (match share_url {
            Some(url) => Some(url@),
            None => match slug {
                Some(slug) => Some(page@ + slug@),
                None => None,
            },
        }),
{
    match share_url {
        Some(url) => Some(url),
        None => match slug {
            Some(slug) => Some(join(page, slug.as_str())),
            None => None,
        },
    }
}

/// An upload that worked: its id and the link to share it by.
#[derive(Debug, PartialEq, Eq)]
pub struct Uploaded {
    pub id: String,
    pub share_url: String,
}

/// An upload's outcome, as a value.
pub open spec fn upload_outcome(r: Result<Uploaded, String>) -> Result<
    (Seq<char>, Seq<char>),
    Seq<char>,
> {
    match r {
        Ok(u) => Ok((u.id@, u.share_url@)),
        Err(e) => Err(e@),
    }
}

/// The body of the reply to an image upload, as far as it could be read.
#[derive(Debug, PartialEq, Eq)]
pub enum UploadBody {
    Unread,
    Unparsed,
    Parsed(UploadResponse),
}

/// What comes of an image upload.
pub open spec fn upload_verdict(code: u16, body: UploadBody) -> Result<
    (Seq<char>, Seq<char>),
    Seq<char>,
> {
    if code == 201 {
        match body {
            UploadBody::Unread => Err("Failed to read upload response"@),
            UploadBody::Unparsed => Err("Failed to parse upload response"@),
            UploadBody::Parsed(raw) => match share_link(raw, "https://teil.ing/i/"@) {
                Some(url) => Ok((raw.id@, url)),
                None => Err("Upload response missing share URL"@),
            },
        }
    } else if code == 401 {
        Err("API key is invalid or expired. Please update your key."@)
    } else if code == 413 {
        Err("Storage quota exceeded. Free up space or upgrade your plan."@)
    } else if code == 429 {
        Err("Too many uploads. Please wait and try again."@)
    } else if code == 400 {
        Err("The image could not be uploaded."@)
    } else {
        Err(server_error_text(code))
    }
}

/// What comes of an image upload.
pub fn upload_reply(code: u16, body: UploadBody) -> (r: Result<Uploaded, String>)
    ensures
        upload_outcome(r) == upload_verdict(code, body),
{
    match code {
        201 => match body {
            UploadBody::Unread => Err("Failed to read upload response".to_owned()),
            UploadBody::Unparsed => Err("Failed to parse upload response".to_owned()),
            UploadBody::Parsed(raw) => {
                match pick_link(raw.share_url, raw.slug, "https://teil.ing/i/") {
                    Some(url) => Ok(Uploaded { id: raw.id, share_url: url }),
                    None => Err("Upload response missing share URL".to_owned()),
                }
            },
        },
        401 => Err("API key is invalid or expired. Please update your key.".to_owned()),
        413 => Err("Storage quota exceeded. Free up space or upgrade your plan.".to_owned()),
        429 => Err("Too many uploads. Please wait and try again.".to_owned()),
        400 => Err("The image could not be uploaded.".to_owned()),
        _ => Err(server_error(code)),
    }
}

// ---- Replies to video uploads --------------------------------------------------------

/// The message that a video route sent along: its `reason`, or else its `error`, where
/// that is a text. Given are what its body holds under these two keys.
pub open spec fn server_message(
    reason: Option<FieldModel>,
    error: Option<FieldModel>,
) -> Option<Seq<char>> {
    match reason {
        Some(FieldModel::Text(t)) => Some(t),
        Some(FieldModel::Missing) => match error {
            Some(FieldModel::Text(t)) => Some(t),
            _ => None,
        },
        _ => None,
    }
}

/// The message that a video route sent along in its body.
pub open spec fn body_message(body: Seq<char>) -> Option<Seq<char>> {
    server_message(json_member(body, "reason"@), json_member(body, "error"@))
}

fn pick_message(reason: Option<JsonField>, error: Option<JsonField>) -> (r: Option<String>)
    ensures
        opt_text(r) == server_message(crate::json::found(reason), crate::json::found(error)),
{
    match reason {
        Some(JsonField::Text(t)) => Some(t),
        Some(JsonField::Missing) => match error {
            Some(JsonField::Text(t)) => Some(t),
            _ => None,
        },
        _ => None,
    }
}

fn read_message(body: &str) -> (r: Option<String>)
    ensures
        opt_text(r) == body_message(body@),
{
    pick_message(json_field(body, "reason"), json_field(body, "error"))
}

/// The message for a status code of a video route, given what the server sent along.
pub open spec fn video_text(code: u16, sent: Option<Seq<char>>) -> Seq<char> {
    if code == 401 {
        "API key is invalid or expired."@
    } else if code == 403 {
        if sent is Some && occurs_in("Pro"@, sent->0) {
            "Video uploads require a teil.ing Pro subscription."@
        } else {
            "The upload ticket was rejected \u{2014} please retry."@
        }
    } else if code == 411 {
        "Upload rejected: missing Content-Length."@
    } else if code == 413 {
        match sent {
            Some(m) => m,
            None => "The recording is too large or exceeds your storage quota."@,
        }
    } else if code == 429 {
        "Too many video uploads. Please wait and try again."@
    } else if code == 400 {
        "The server could not read the recording file."@
    } else if code == 422 {
        match sent {
            Some(m) => m,
            None => "The recording was rejected by content moderation."@,
        }
    } else if code == 501 {
        "Video uploads are not available right now."@
    } else if code == 502 {
        "Upload failed on the server. Please try again."@
    } else {
        server_error_text(code)
    }
}

/// The message for a status code of a video route, given what the server sent along.
pub fn video_message(code: u16, sent: Option<String>) -> (r: String)
    ensures
        r@ == video_text(code, opt_text(sent)),
{
    match code {
        401 => "API key is invalid or expired.".to_owned(),
        403 => {
            let pro: bool = match &sent {
                Some(m) => contains(m.as_str(), "Pro"),
                None => false,
            };
            if pro {
                "Video uploads require a teil.ing Pro subscription.".to_owned()
            } else {
                "The upload ticket was rejected \u{2014} please retry.".to_owned()
            }
        },
        411 => "Upload rejected: missing Content-Length.".to_owned(),
        413 => match sent {
            Some(m) => m,
            None => "The recording is too large or exceeds your storage quota.".to_owned(),
        },
        429 => "Too many video uploads. Please wait and try again.".to_owned(),
        400 => "The server could not read the recording file.".to_owned(),
        422 => match sent {
            Some(m) => m,
            None => "The recording was rejected by content moderation.".to_owned(),
        },
        501 => "Video uploads are not available right now.".to_owned(),
        502 => "Upload failed on the server. Please try again.".to_owned(),
        _ => server_error(code),
    }
}

/// The message for a status code of a video route and the body that came with it.
pub fn video_error(code: u16, body: &str) -> (r: String)
    ensures
        r@ == video_text(code, body_message(body@)),
{
    video_message(code, read_message(body))
}

/// What the announcement of a video comes to: the ticket to upload it with, or an error.
/// Given are the message that the body holds and what it holds under `ok` and `ticket`.
pub open spec fn preflight_verdict(
    code: u16,
    sent: Option<Seq<char>>,
    ok: Option<FieldModel>,
    ticket: Option<FieldModel>,
) -> Result<Seq<char>, Seq<char>> {
    if code != 200 {
        Err(video_text(code, sent))
    } else {
        match ok {
            None => Err("Unexpected preflight response."@),
            Some(FieldModel::Flag(false)) => Err(video_text(422, sent)),
            Some(_) => match ticket {
                Some(FieldModel::Text(t)) => Ok(t),
                _ => Err("Preflight returned no upload ticket."@),
            },
        }
    }
}

/// A text or an error, as a value.
pub open spec fn text_outcome(r: Result<String, String>) -> Result<Seq<char>, Seq<char>> {
    match r {
        Ok(t) => Ok(t@),
        Err(e) => Err(e@),
    }
}

/// Decides about the announcement of a video, given what its reply holds.
pub fn preflight_decision(
    code: u16,
    sent: Option<String>,
    ok: Option<JsonField>,
    ticket: Option<JsonField>,
) -> (r: Result<String, String>)
    ensures
        text_outcome(r) == preflight_verdict(
            code,
            opt_text(sent),
            crate::json::found(ok),
            crate::json::found(ticket),
        ),
{
    if code != 200 {
        return Err(video_message(code, sent));
    }
    match ok {
        None => Err("Unexpected preflight response.".to_owned()),
        Some(JsonField::Flag(false)) => Err(video_message(422, sent)),
        Some(_) => match ticket {
            Some(JsonField::Text(t)) => Ok(t),
            _ => Err("Preflight returned no upload ticket.".to_owned()),
        },
    }
}

/// What the announcement of a video comes to, given the server's reply.
pub fn preflight_reply(code: u16, body: &str) -> (r: Result<String, String>)
    ensures
        text_outcome(r) == preflight_verdict(
            code,
            body_message(body@),
            json_member(body@, "ok"@),
            json_member(body@, "ticket"@),
        ),
{
    preflight_decision(code, read_message(body), json_field(body, "ok"), json_field(body, "ticket"))
}

/// What comes of a video upload, given the message that its body holds. For a success, the
/// body was read into a reply or could not be, for a stated cause.
pub open spec fn video_verdict(
    code: u16,
    reply: Result<UploadResponse, String>,
    sent: Option<Seq<char>>,
) -> Result<(Seq<char>, Seq<char>), Seq<char>> {
    if code == 201 {
        match reply {
            Ok(raw) => match share_link(raw, "https://teil.ing/v/"@) {
                Some(url) => Ok((raw.id@, url)),
                None => Err("Upload succeeded but no share URL was returned."@),
            },
            Err(e) => Err(e@),
        }
    } else {
        Err(video_text(code, sent))
    }
}

/// Decides about a video upload, given what its reply holds.
pub fn video_decision(code: u16, reply: Result<UploadResponse, String>, sent: Option<String>) -> (r:
    Result<Uploaded, String>)
    ensures
        upload_outcome(r) == video_verdict(code, reply, opt_text(sent)),
{
    if code != 201 {
        return Err(video_message(code, sent));
    }
    match reply {
        Ok(raw) => match pick_link(raw.share_url, raw.slug, "https://teil.ing/v/") {
            Some(url) => Ok(Uploaded { id: raw.id, share_url: url }),
            None => Err("Upload succeeded but no share URL was returned.".to_owned()),
        },
        Err(e) => Err(e),
    }
}

/// What comes of a video upload, given the server's reply: the body is read into `reply`
/// for a success, and handed over as it is otherwise.
pub fn upload_video_reply(code: u16, reply: Result<UploadResponse, String>, body: &str) -> (r: Result<
    Uploaded,
    String,
>)
    ensures
        upload_outcome(r) == video_verdict(code, reply, body_message(body@)),
{
    video_decision(code, reply, read_message(body))
}

/// Whatever link the server gives is shared as it is; only without one is a link made from
/// the slug, and only without both does a successful upload fail.
pub proof fn law_given_links_are_shared(raw: UploadResponse, page: Seq<char>)
    ensures
        raw.share_url is Some ==> share_link(raw, page) == Some(raw.share_url->0@),
        raw.share_url is None && raw.slug is Some ==> share_link(raw, page) == Some(
            page + raw.slug->0@,
        ),
        share_link(raw, page) is None <==> raw.share_url is None && raw.slug is None,
{
}

} // verus!
