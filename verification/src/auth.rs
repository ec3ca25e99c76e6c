//! Signing in through the browser.
//!
//! The client opens a page on teil.ing, where the user approves this device. The page
//! answers with a deep link that carries a one-time code. The code and a verifier that
//! never left the client are then exchanged for an API key. What the browser sees of the
//! verifier is its SHA-256 digest.

use vstd::prelude::*;
use vstd::utf8::encode_utf8;

use crate::api::{pairs, text_outcome, Method, Pair, Request, RequestModel, HOST};
use crate::text::{decimal, decimal_text, join, join3, opt_text, same};

verus! {

/// The page that the browser opens.
pub const CONNECT_PAGE: &'static str = "https://teil.ing/connect";

/// A sign-in that waits for its deep link.
#[derive(Debug, PartialEq, Eq)]
pub struct PendingSignin {
    pub state: String,
    pub verifier: String,
}

// ---- Encodings -----------------------------------------------------------------------

/// The character of the URL-safe base64 alphabet for a 6-bit number.
pub open spec fn base64_char(v: int) -> char {
    if v < 26 {
        (65 + v) as char
    } else if v < 52 {
        (97 + (v - 26)) as char
    } else if v < 62 {
        (48 + (v - 52)) as char
    } else if v == 62 {
        '-'
    } else {
        '_'
    }
}

/// The 6 bits of a byte string that start at bit `6 * i`, counted from its front; beyond
/// its end there are zeros.
pub open spec fn sextet(bytes: Seq<u8>, i: int) -> int {
    let at = 6 * i / 8;
    let next = if at + 1 < bytes.len() {
        bytes[at + 1] as int
    } else {
        0
    };
    let window = bytes[at] * 256 + next;
    let skip = 6 * i % 8;
    (if skip == 0 {
        window / 1024
    } else if skip == 2 {
        window / 256
    } else if skip == 4 {
        window / 64
    } else {
        window / 16
    }) % 64
}

/// URL-safe base64 without padding: one character for every 6 bits, the last of them
/// filled up with zeros.
pub open spec fn base64_text(bytes: Seq<u8>) -> Seq<char> {
    Seq::new(((bytes.len() * 4 + 2) / 3) as nat, |i: int| base64_char(sextet(bytes, i)))
}

/// Encodes bytes by the `URL_SAFE_NO_PAD` engine of `base64`: the URL-safe alphabet of
/// RFC 4648, without padding.
#[verifier::external_body]
pub(crate) fn b64url(bytes: &[u8]) -> (r: String)
    ensures
        r@ == base64_text(bytes@),
{
    base64::Engine::encode(&base64::engine::general_purpose::URL_SAFE_NO_PAD, bytes)
}

/// The SHA-256 digest of a byte string.
pub uninterp spec fn sha256(bytes: Seq<u8>) -> Seq<u8>;

/// Digests bytes by `sha2::Sha256`. A digest has 32 bytes and depends on the bytes alone.
#[verifier::external_body]
pub(crate) fn sha256_digest(bytes: &[u8]) -> (r: Vec<u8>)
    ensures
        r@ == sha256(bytes@),
        r@.len() == 32,
{
    <sha2::Sha256 as sha2::Digest>::digest(bytes).to_vec()
}

/// Draws bytes from the thread's random number generator of `rand`. Of what they are,
/// nothing is claimed but their number. No more can be drawn than a buffer can hold.
#[verifier::external_body]
pub(crate) fn random_bytes(count: usize) -> (r: Vec<u8>)
    requires
        count <= isize::MAX,
    ensures
        r@.len() == count,
{
    let mut buf = vec![0u8; count];
    rand::RngCore::fill_bytes(&mut rand::thread_rng(), &mut buf);
    buf
}

/// Reads this computer's name by `whoami::devicename`. It is whatever the system says, so
/// nothing is claimed of it.
#[verifier::external_body]
pub(crate) fn device_name() -> String {
    whoami::devicename()
}

/// Whether a character belongs to the URL-safe base64 alphabet.
pub open spec fn is_base64(c: char) -> bool {
    'A' <= c <= 'Z' || 'a' <= c <= 'z' || '0' <= c <= '9' || c == '-' || c == '_'
}

/// URL-safe base64 uses its own alphabet and nothing else.
pub proof fn law_base64_stays_in_its_alphabet(bytes: Seq<u8>, i: int)
    requires
        0 <= i < base64_text(bytes).len(),
    ensures
        is_base64(base64_text(bytes)[i]),
{
    let at = 6 * i / 8;
    assert(0 <= at < bytes.len());
    let v = sextet(bytes, i);
    assert(0 <= v < 64);
    assert(base64_text(bytes)[i] == base64_char(v));
}

/// Whether a text is so many bytes, in URL-safe base64.
pub open spec fn is_token(text: Seq<char>, byte_count: nat) -> bool {
    exists|bytes: Seq<u8>| bytes.len() == byte_count && text == #[trigger] base64_text(bytes)
}

/// A random token of this many bytes, in URL-safe base64.
pub fn random_b64url(byte_count: usize) -> (r: String)
    requires
        byte_count <= isize::MAX,
    ensures
        is_token(r@, byte_count as nat),
        r@.len() == (byte_count * 4 + 2) / 3,
        forall|i: int| 0 <= i < r@.len() ==> is_base64(#[trigger] r@[i]),
{
    let bytes = random_bytes(byte_count);
    let token = b64url(bytes.as_slice());
    assert forall|i: int| 0 <= i < token@.len() implies is_base64(#[trigger] token@[i]) by {
        law_base64_stays_in_its_alphabet(bytes@, i);
    }
    token
}

/// The challenge that the browser is shown for a verifier.
pub open spec fn challenge_text(verifier: Seq<char>) -> Seq<char> {
    base64_text(sha256(encode_utf8(verifier)))
}

/// The challenge that the browser is shown for a verifier: its digest.
pub fn challenge(verifier: &str) -> (r: String)
    ensures
        r@ == challenge_text(verifier@),
        r@.len() == 43,
{
    let digest = sha256_digest(verifier.as_bytes());
    b64url(digest.as_slice())
}

/// An upper-case hexadecimal digit.
pub open spec fn hex_digit(v: int) -> char {
    if v < 10 {
        (48 + v) as char
    } else {
        (55 + v) as char
    }
}

/// A byte in a form value: letters, digits and `*-._` stand for themselves, a space
/// becomes a plus sign, and everything else a percent sign and two hexadecimal digits.
pub open spec fn form_byte(b: u8) -> Seq<char> {
    if 48 <= b <= 57 || 65 <= b <= 90 || 97 <= b <= 122 || b == 42 || b == 45 || b == 46 || b == 95 {
        seq![b as char]
    } else if b == 32 {
        seq!['+']
    } else {
        seq!['%', hex_digit(b as int / 16), hex_digit(b as int % 16)]
    }
}

/// The bytes of a form value.
pub open spec fn form_bytes(bytes: Seq<u8>) -> Seq<char>
    decreases bytes.len(),
{
    if bytes.len() == 0 {
        Seq::empty()
    } else {
        form_bytes(bytes.drop_last()) + form_byte(bytes.last())
    }
}

/// A text as a form value, by the bytes of its UTF-8 encoding.
pub open spec fn form_value(s: Seq<char>) -> Seq<char> {
    form_bytes(encode_utf8(s))
}

/// A field of a form: its name and its value.
pub open spec fn form_field(field: (Seq<char>, Seq<char>)) -> Seq<char> {
    form_value(field.0) + "="@ + form_value(field.1)
}

/// The fields of a form, one after the other.
pub open spec fn form_text(fields: Seq<(Seq<char>, Seq<char>)>) -> Seq<char>
    decreases fields.len(),
{
    if fields.len() == 0 {
        Seq::empty()
    } else if fields.len() == 1 {
        form_field(fields[0])
    } else {
        form_text(fields.drop_last()) + "&"@ + form_field(fields.last())
    }
}

/// A page's address with these fields as its query, as an outcome: it can always be made.
pub open spec fn page_link(page: Seq<char>, fields: Seq<(Seq<char>, Seq<char>)>) -> Result<
    Seq<char>,
    Seq<char>,
> {
    Ok(page + "?"@ + form_text(fields))
}

/// Adds fields to the page's address by `url::Url::parse_with_params`, which parses the address
/// and appends each pair to its query, in the encoding of HTML forms. The page is a valid address
/// without a query, and stands in the result as it is.
#[verifier::external_body]
pub(crate) fn page_with_params(page: &str, fields: &Vec<Pair>) -> (r: Result<String, String>)
    requires
        page@ == "https://teil.ing/connect"@,
    ensures
        text_outcome(r) == page_link(page@, pairs(fields@)),
{
    let params = fields.iter().map(|f| (f.name.as_str(), f.value.as_str()));
    match url::Url::parse_with_params(page, params) {
        Ok(url) => Ok(url.to_string()),
        Err(e) => Err(e.to_string()),
    }
}

/// The address that the browser opens: it names the device, and carries state and challenge.
pub open spec fn connect_url(device: Seq<char>, state: Seq<char>, challenge: Seq<char>) -> Seq<char> {
    "https://teil.ing/connect"@ + "?device="@ + form_value(device) + "&state="@ + form_value(state)
        + "&challenge="@ + form_value(challenge)
}

fn connect_fields(device: &str, state: &str, challenge: &str) -> (r: Vec<Pair>)
    ensures
        pairs(r@) == seq![("device"@, device@), ("state"@, state@), ("challenge"@, challenge@)],
{
    let fields = vec![
        Pair { name: "device".to_owned(), value: device.to_owned() },
        Pair { name: "state".to_owned(), value: state.to_owned() },
        Pair { name: "challenge".to_owned(), value: challenge.to_owned() },
    ];
    assert(pairs(fields@) =~= seq![
        ("device"@, device@),
        ("state"@, state@),
        ("challenge"@, challenge@),
    ]);
    fields
}

/// The three fields make the address that the browser opens.
proof fn lemma_connect_link(device: Seq<char>, state: Seq<char>, challenge: Seq<char>)
    ensures
        page_link(
            "https://teil.ing/connect"@,
            seq![("device"@, device), ("state"@, state), ("challenge"@, challenge)],
        ) == Ok::<Seq<char>, Seq<char>>(connect_url(device, state, challenge)),
{
    reveal_strlit("device");
    reveal_strlit("state");
    reveal_strlit("challenge");
    reveal_strlit("?");
    reveal_strlit("=");
    reveal_strlit("&");
    reveal_strlit("?device=");
    reveal_strlit("&state=");
    reveal_strlit("&challenge=");
    law_tokens_stand_in_the_address_as_they_are("device"@);
    law_tokens_stand_in_the_address_as_they_are("state"@);
    law_tokens_stand_in_the_address_as_they_are("challenge"@);
    let a = ("device"@, device);
    let b = ("state"@, state);
    let c = ("challenge"@, challenge);
    let all = seq![a, b, c];
    assert(all.drop_last() =~= seq![a, b]);
    assert(seq![a, b].drop_last() =~= seq![a]);
    assert(form_text(seq![a]) == form_field(a));
    assert(form_text(seq![a, b]) == form_field(a) + "&"@ + form_field(b));
    assert(form_text(all) == form_field(a) + "&"@ + form_field(b) + "&"@ + form_field(c));
    assert("?"@ + ("device"@ + "="@) =~= "?device="@);
    assert("&"@ + ("state"@ + "="@) =~= "&state="@);
    assert("&"@ + ("challenge"@ + "="@) =~= "&challenge="@);
    assert("https://teil.ing/connect"@ + "?"@ + form_text(all) =~= connect_url(
        device,
        state,
        challenge,
    ));
}

// ---- Starting ------------------------------------------------------------------------

/// Starts a sign-in with this verifier and state: it takes the place of one that was still
/// waiting, and the result is the address for the browser.
pub fn begin_with(
    pending: &mut Option<PendingSignin>,
    device: &str,
    verifier: String,
    state: String,
) -> (r: Result<String, String>)
    ensures
        r matches Ok(url) && url@ == connect_url(device@, state@, challenge_text(verifier@)),
        *final(pending) == Some(PendingSignin { state, verifier }),
{
    let shown = challenge(verifier.as_str());
    let fields = connect_fields(device, state.as_str(), shown.as_str());
    proof {
        lemma_connect_link(device@, state@, shown@);
    }
    match page_with_params(CONNECT_PAGE, &fields) {
        Ok(url) => {
            *pending = Some(PendingSignin { state, verifier });
            Ok(url)
        },
        Err(e) => Err(e),
    }
}

/// Whether a sign-in carries a verifier of 32 random bytes and a state of 24, in URL-safe
/// base64.
pub open spec fn is_fresh(p: PendingSignin) -> bool {
    &&& is_token(p.verifier@, 32)
    &&& is_token(p.state@, 24)
    &&& p.verifier@.len() == 43
    &&& p.state@.len() == 32
    &&& forall|i: int| 0 <= i < 43 ==> is_base64(#[trigger] p.verifier@[i])
    &&& forall|i: int| 0 <= i < 32 ==> is_base64(#[trigger] p.state@[i])
}

/// Starts a sign-in for this computer, with a fresh verifier and state.
pub fn begin(pending: &mut Option<PendingSignin>) -> (r: Result<String, String>)
    ensures
        *final(pending) matches Some(p) && {
            &&& is_fresh(p)
            &&& r matches Ok(url) && exists|device: Seq<char>|
                url@ == #[trigger] connect_url(device, p.state@, challenge_text(p.verifier@))
        },
{
    let verifier = random_b64url(32);
    let state = random_b64url(24);
    let device = device_name();
    begin_with(pending, device.as_str(), verifier, state)
}

// ---- The deep link -------------------------------------------------------------------

/// The parts of a deep link that matter here.
#[derive(Debug, PartialEq, Eq)]
pub struct DeepLink {
    pub scheme: String,
    pub host: Option<String>,
    /// The parameters, decoded, in their order.
    pub query: Vec<(String, String)>,
}

/// The parts of a deep link: scheme, host and parameters.
pub type LinkModel = (Seq<char>, Option<Seq<char>>, Seq<(Seq<char>, Seq<char>)>);

/// What parameters hold.
pub open spec fn params(query: Seq<(String, String)>) -> Seq<(Seq<char>, Seq<char>)> {
    query.map_values(|p: (String, String)| (p.0@, p.1@))
}

impl View for DeepLink {
    type V = LinkModel;

    open spec fn view(&self) -> LinkModel {
        (self.scheme@, opt_text(self.host), params(self.query@))
    }
}

/// What `url` reads out of an address: scheme, host and decoded parameters; nothing where
/// it is none.
pub uninterp spec fn link_parts(raw: Seq<char>) -> Option<LinkModel>;

/// A link that was read, as a value.
pub open spec fn read_link(r: Option<DeepLink>) -> Option<LinkModel> {
    match r {
        Some(link) => Some(link@),
        None => None,
    }
}

/// Parses an address by `url::Url::parse` and reads its `scheme`, `host_str` and
/// `query_pairs`. The result depends on the address alone.
#[verifier::external_body]
pub(crate) fn parse_link(raw: &str) -> (r: Option<DeepLink>)
    ensures
        read_link(r) == link_parts(raw@),
{
    let url = url::Url::parse(raw).ok()?;
    Some(
        DeepLink {
            scheme: url.scheme().to_string(),
            host: url.host_str().map(|h| h.to_string()),
            query: url.query_pairs().map(|(k, v)| (k.into_owned(), v.into_owned())).collect(),
        },
    )
}

/// The value of a parameter: the last one, where it occurs more than once.
pub open spec fn param(query: Seq<(Seq<char>, Seq<char>)>, name: Seq<char>) -> Option<Seq<char>>
    decreases query.len(),
{
    if query.len() == 0 {
        None
    } else if query.last().0 == name {
        Some(query.last().1)
    } else {
        param(query.drop_last(), name)
    }
}

fn find_param(query: &Vec<(String, String)>, name: &str) -> (r: Option<String>)
    ensures
        opt_text(r) == param(params(query@), name@),
{
    let mut i: usize = query.len();
    assert(params(query@).take(i as int) =~= params(query@));
    while i > 0
        invariant
            i <= query@.len(),
            param(params(query@), name@) == param(params(query@).take(i as int), name@),
        decreases i,
    {
        let ghost part = params(query@).take(i as int);
        assert(part.last() == (query@[i - 1].0@, query@[i - 1].1@));
        assert(part.drop_last() =~= params(query@).take(i - 1));
        if same(query[i - 1].0.as_str(), name) {
            return Some(query[i - 1].1.clone());
        }
        i = i - 1;
    }
    assert(params(query@).take(0).len() == 0);
    None
}

/// What a deep link comes to.
#[derive(Debug, PartialEq, Eq)]
pub enum CallbackStep {
    /// A stray or forged link: nothing happens.
    Ignored,
    /// The sign-in is over; the user is told this.
    Failed(String),
    /// The code is exchanged for a key, with the verifier.
    Exchange { code: String, verifier: String },
}

/// What a deep link comes to, as a value.
pub ghost enum CallbackModel {
    Ignored,
    Failed(Seq<char>),
    Exchange { code: Seq<char>, verifier: Seq<char> },
}

impl View for CallbackStep {
    type V = CallbackModel;

    open spec fn view(&self) -> CallbackModel {
        match *self {
            CallbackStep::Ignored => CallbackModel::Ignored,
            CallbackStep::Failed(m) => CallbackModel::Failed(m@),
            CallbackStep::Exchange { code, verifier } => CallbackModel::Exchange {
                code: code@,
                verifier: verifier@,
            },
        }
    }
}

/// Whether a deep link answers the sign-in that waits: the right scheme and host, and the
/// state that was sent out.
pub open spec fn answers(link: LinkModel, pending: Option<PendingSignin>) -> bool {
    &&& link.0 == "teiling"@
    &&& link.1 == Some("connect"@)
    &&& pending matches Some(p) && param(link.2, "state"@) == Some(p.state@)
}

/// What the answer to a sign-in comes to.
pub open spec fn answer_step(link: LinkModel, verifier: Seq<char>) -> CallbackModel {
    if param(link.2, "error"@) is Some {
        CallbackModel::Failed("The connection request was denied in the browser."@)
    } else {
        match param(link.2, "code"@) {
            Some(code) => if code.len() > 0 {
                CallbackModel::Exchange { code, verifier }
            } else {
                CallbackModel::Failed("The sign-in callback was incomplete. Please try again."@)
            },
            None => CallbackModel::Failed(
                "The sign-in callback was incomplete. Please try again."@,
            ),
        }
    }
}

/// What a deep link comes to while `pending` waits.
pub open spec fn callback_step(link: LinkModel, pending: Option<PendingSignin>) -> CallbackModel {
    if answers(link, pending) {
        answer_step(link, pending->0.verifier@)
    } else {
        CallbackModel::Ignored
    }
}

/// What waits after a deep link: one that answers the sign-in that waits uses it up, any
/// other one leaves it waiting.
pub open spec fn after_callback(link: LinkModel, pending: Option<PendingSignin>) -> Option<
    PendingSignin,
> {
    if answers(link, pending) {
        None
    } else {
        pending
    }
}

/// Handles a deep link.
pub fn route_callback(pending: &mut Option<PendingSignin>, link: &DeepLink) -> (r: CallbackStep)
    ensures
        r@ == callback_step(link@, *old(pending)),
        *final(pending) == after_callback(link@, *old(pending)),
{
    if !same(link.scheme.as_str(), "teiling") {
        return CallbackStep::Ignored;
    }
    let ours: bool = match &link.host {
        Some(h) => same(h.as_str(), "connect"),
        None => false,
    };
    if !ours {
        return CallbackStep::Ignored;
    }
    let matched: bool = match (&*pending, find_param(&link.query, "state")) {
        (Some(p), Some(state)) => same(p.state.as_str(), state.as_str()),
        _ => false,
    };
    if !matched {
        return CallbackStep::Ignored;
    }
    match pending.take() {
        None => CallbackStep::Ignored,
        Some(flow) => {
            if find_param(&link.query, "error").is_some() {
                return CallbackStep::Failed(
                    "The connection request was denied in the browser.".to_owned(),
                );
            }
            if let Some(code) = find_param(&link.query, "code") {
                if !code.as_str().is_empty() {
                    return CallbackStep::Exchange { code, verifier: flow.verifier };
                }
            }
            CallbackStep::Failed(
                "The sign-in callback was incomplete. Please try again.".to_owned(),
            )
        },
    }
}

/// Handles the address that a deep link came as.
pub fn handle_callback(pending: &mut Option<PendingSignin>, raw: &str) -> (r: CallbackStep)
    ensures
        match link_parts(raw@) {
            Some(link) => {
                &&& r@ == callback_step(link, *old(pending))
                &&& *final(pending) == after_callback(link, *old(pending))
            },
            None => r@ == CallbackModel::Ignored && *final(pending) == *old(pending),
        },
{
    match parse_link(raw) {
        Some(link) => route_callback(pending, &link),
        None => CallbackStep::Ignored,
    }
}

/// A sign-in is answered once: after a link that answers it, no link does anything, the same
/// one included.
pub proof fn law_signin_is_answered_once(
    first: LinkModel,
    second: LinkModel,
    pending: Option<PendingSignin>,
)
    requires
        answers(first, pending),
    ensures
        callback_step(second, after_callback(first, pending)) == CallbackModel::Ignored,
{
}

/// A sign-in that is started anew takes the place of a stale one: a link that answers the
/// stale one is ignored, and the new one goes on waiting.
pub proof fn law_new_attempts_supersede_stale_ones(
    link: LinkModel,
    stale: PendingSignin,
    fresh: PendingSignin,
)
    requires
        answers(link, Some(stale)),
        stale.state@ != fresh.state@,
    ensures
        callback_step(link, Some(fresh)) == CallbackModel::Ignored,
        after_callback(link, Some(fresh)) == Some(fresh),
{
}

/// A link without the state that was sent out, or with another scheme or host, does
/// nothing, whatever else it holds.
pub proof fn law_forged_links_are_ignored(link: LinkModel, p: PendingSignin)
    requires
        link.0 != "teiling"@ || link.1 != Some("connect"@) || param(link.2, "state"@) != Some(
            p.state@,
        ),
    ensures
        !answers(link, Some(p)),
        callback_step(link, Some(p)) == CallbackModel::Ignored,
{
}

/// The verifier that goes into an exchange is the one that the sign-in was started with,
/// and the code is the link's own.
pub proof fn law_exchange_uses_the_pending_verifier(link: LinkModel, p: PendingSignin)
    requires
        callback_step(link, Some(p)) is Exchange,
    ensures
        callback_step(link, Some(p))->verifier == p.verifier@,
        param(link.2, "code"@) == Some(callback_step(link, Some(p))->code),
        param(link.2, "state"@) == Some(p.state@),
{
}

/// Tokens pass through a form unchanged, so the address shows the state and the challenge
/// as they are.
pub proof fn law_tokens_stand_in_the_address_as_they_are(token: Seq<char>)
    requires
        forall|i: int| 0 <= i < token.len() ==> is_base64(#[trigger] token[i]),
    ensures
        form_value(token) == token,
{
    assert(vstd::utf8::is_ascii_chars(token)) by {
        assert forall|i: int| 0 <= i < token.len() implies (#[trigger] token[i]) as nat <= 127 by {
            assert(is_base64(token[i]));
        }
    }
    vstd::utf8::is_ascii_chars_encode_utf8(token);
    lemma_plain_bytes_stay(token, encode_utf8(token));
}

proof fn lemma_plain_bytes_stay(token: Seq<char>, bytes: Seq<u8>)
    requires
        bytes.len() == token.len(),
        forall|i: int| 0 <= i < token.len() ==> is_base64(#[trigger] token[i]),
        forall|i: int| 0 <= i < token.len() ==> bytes[i] == (#[trigger] token[i]) as u8,
    ensures
        form_bytes(bytes) == token,
    decreases bytes.len(),
{
    if bytes.len() > 0 {
        let t = token.drop_last();
        let b = bytes.drop_last();
        assert forall|i: int| 0 <= i < t.len() implies is_base64(#[trigger] t[i]) by {
            assert(t[i] == token[i]);
        }
        assert forall|i: int| 0 <= i < t.len() implies b[i] == (#[trigger] t[i]) as u8 by {
            assert(t[i] == token[i]);
        }
        lemma_plain_bytes_stay(t, b);
        let n = token.len() - 1;
        assert(is_base64(token[n]));
        assert(form_byte(bytes[n]) == seq![token[n]]);
    }
    assert(form_bytes(bytes) =~= token);
}

// ---- The exchange --------------------------------------------------------------------

/// A request for a key in exchange for a code and its verifier.
pub open spec fn exchange_of(code: Seq<char>, verifier: Seq<char>) -> RequestModel {
    RequestModel {
        method: Method::Post,
        url: "https://teil.ing"@ + "/api/app/exchange"@,
        headers: Seq::empty(),
        fields: seq![("code"@, code), ("verifier"@, verifier)],
        file: None,
        timeout_s: 15,
    }
}

/// Asks for a key in exchange for a code and its verifier. The fields go along as a JSON
/// object.
pub fn exchange_request(code: &str, verifier: &str) -> (r: Request)
    ensures
        r@ == exchange_of(code@, verifier@),
{
    let fields = vec![
        Pair { name: "code".to_owned(), value: code.to_owned() },
        Pair { name: "verifier".to_owned(), value: verifier.to_owned() },
    ];
    let r = Request {
        method: Method::Post,
        url: join(HOST, "/api/app/exchange"),
        headers: Vec::new(),
        fields,
        file: None,
        timeout_s: 15,
    };
    assert(r@.headers =~= Seq::empty());
    assert(r@.fields =~= seq![("code"@, code@), ("verifier"@, verifier@)]);
    r
}

/// What is known of the reply to an exchange: none at all, or its status code with the key
/// or the error that its body holds.
#[derive(Debug, PartialEq, Eq)]
pub enum ExchangeReply {
    Unreachable,
    Status { code: u16, key: Option<String>, error: Option<String> },
}

/// What an exchange comes to.
pub open spec fn exchange_verdict(reply: ExchangeReply) -> Result<Seq<char>, Seq<char>> {
    match reply {
        ExchangeReply::Unreachable => Err(
            "Could not reach teil.ing. Check your connection and try again."@,
        ),
        ExchangeReply::Status { code, key, error } => if code == 201 {
            match key {
                Some(k) => Ok(k@),
                None => Err("Unexpected server response. Try again later."@),
            }
        } else if code == 429 {
            Err("Too many sign-in attempts. Please wait a few minutes and try again."@)
        } else if code == 400 {
            match error {
                Some(e) => Err(e@),
                None => Err("Sign-in could not be completed. Please try again."@),
            }
        } else {
            Err(
                "Unexpected server response ("@ + decimal_text(code as nat)
                    + "). Try again later."@,
            )
        },
    }
}

/// What an exchange comes to: the API key, or what the user is told.
pub fn exchange(reply: ExchangeReply) -> (r: Result<String, String>)
    ensures
        text_outcome(r) == exchange_verdict(reply),
{
    match reply {
        ExchangeReply::Unreachable => Err(
            "Could not reach teil.ing. Check your connection and try again.".to_owned(),
        ),
        ExchangeReply::Status { code, key, error } => match code {
            201 => match key {
                Some(k) => Ok(k),
                None => Err("Unexpected server response. Try again later.".to_owned()),
            },
            429 => Err(
                "Too many sign-in attempts. Please wait a few minutes and try again.".to_owned(),
            ),
            400 => match error {
                Some(e) => Err(e),
                None => Err("Sign-in could not be completed. Please try again.".to_owned()),
            },
            _ => Err(
                join3(
                    "Unexpected server response (",
                    decimal(code as u64).as_str(),
                    "). Try again later.",
                ),
            ),
        },
    }
}

/// Whether a sign-in worked, once the key was handed to the keychain.
pub fn key_stored(stored: Result<(), String>) -> (r: Result<(), String>)
    ensures
        match (stored, r) {
            (Ok(_), Ok(_)) => true,
            (Err(why), Err(e)) => e@ == "Could not store the API key: "@ + why@,
            _ => false,
        },
{
    match stored {
        Ok(_) => Ok(()),
        Err(why) => Err(join("Could not store the API key: ", why.as_str())),
    }
}

} // verus!
