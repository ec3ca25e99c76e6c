//! The sign-in through the browser.

use vstd::prelude::*;

use crate::api::{pairs, Request};
use crate::auth::{
    base64_text, begin, begin_with, challenge, challenge_text, connect_url, exchange, exchange_request, form_byte, form_value,
    handle_callback,
    is_base64, key_stored, law_base64_stays_in_its_alphabet,
    law_tokens_stand_in_the_address_as_they_are, link_parts, param, params, random_b64url,
    route_callback, sextet, sha256, CallbackStep, DeepLink, ExchangeReply, PendingSignin,
};
use crate::text::decimal;
use vstd::utf8::encode_utf8;

verus! {

// ---- Starting ------------------------------------------------------------------------

proof fn lemma_four_sextets(b0: int, b1: int, b2: int, next: int)
    requires
        0 <= b0 < 256,
        0 <= b1 < 256,
        0 <= b2 < 256,
        0 <= next < 256,
    ensures
        (b0 * 256 + b1) / 1024 % 64 * 0x40000 + (b0 * 256 + b1) / 16 % 64 * 0x1000 + (b1 * 256 + b2)
            / 64 % 64 * 0x40 + (b2 * 256 + next) / 256 % 64 == b0 * 0x10000 + b1 * 0x100 + b2,
{
    assert((b0 * 256 + b1) / 1024 == b0 / 4);
    assert((b0 * 256 + b1) / 16 == b0 * 16 + b1 / 16);
    assert((b0 * 16 + b1 / 16) % 64 == b0 % 4 * 16 + b1 / 16);
    assert((b1 * 256 + b2) / 64 == b1 * 4 + b2 / 64);
    assert((b1 * 4 + b2 / 64) % 64 == b1 % 16 * 4 + b2 / 64);
    assert((b2 * 256 + next) / 256 == b2);
}

/// Base64 can be read back: four characters hold the 24 bits of three bytes, the first byte
/// first.
pub proof fn law_base64_can_be_read_back(bytes: Seq<u8>, k: int)
    requires
        0 <= k,
        3 * k + 2 < bytes.len(),
    ensures
        sextet(bytes, 4 * k) * 0x40000 + sextet(bytes, 4 * k + 1) * 0x1000 + sextet(bytes, 4 * k + 2)
            * 0x40 + sextet(bytes, 4 * k + 3) == bytes[3 * k] * 0x10000 + bytes[3 * k + 1] * 0x100
            + bytes[3 * k + 2],
{
    assert(6 * (4 * k) / 8 == 3 * k && 6 * (4 * k) % 8 == 0);
    assert(6 * (4 * k + 1) / 8 == 3 * k && 6 * (4 * k + 1) % 8 == 6);
    assert(6 * (4 * k + 2) / 8 == 3 * k + 1 && 6 * (4 * k + 2) % 8 == 4);
    assert(6 * (4 * k + 3) / 8 == 3 * k + 2 && 6 * (4 * k + 3) % 8 == 2);
    let (b0, b1, b2) = (bytes[3 * k] as int, bytes[3 * k + 1] as int, bytes[3 * k + 2] as int);
    let next = if 3 * k + 3 < bytes.len() {
        bytes[3 * k + 3] as int
    } else {
        0
    };
    assert(sextet(bytes, 4 * k) == (b0 * 256 + b1) / 1024 % 64);
    assert(sextet(bytes, 4 * k + 1) == (b0 * 256 + b1) / 16 % 64);
    assert(sextet(bytes, 4 * k + 2) == (b1 * 256 + b2) / 64 % 64);
    assert(sextet(bytes, 4 * k + 3) == (b2 * 256 + next) / 256 % 64);
    lemma_four_sextets(b0, b1, b2, next);
}

/// A token has four characters for every three bytes, all of them such that they stand in an
/// address as they are.
pub proof fn law_tokens_suit_addresses(count: usize, r: String, i: int)
    requires
        call_ensures(random_b64url, (count,), r),
        count <= isize::MAX,
    ensures
        4 * count <= 3 * r@.len() < 4 * count + 3,
        0 <= i < r@.len() ==> is_base64(r@[i]),
        form_value(r@) == r@,
        exists|bytes: Seq<u8>| bytes.len() == count && r@ == #[trigger] base64_text(bytes),
{
    law_tokens_stand_in_the_address_as_they_are(r@);
}

/// The challenge is the digest of the verifier, in base64: 32 bytes in 43 characters.
pub proof fn law_challenges_are_digests(verifier: &str, r: String)
    requires
        call_ensures(challenge, (verifier,), r),
    ensures
        r@ == base64_text(sha256(encode_utf8(verifier@))),
        r@.len() == 43,
{
}

/// The browser is sent to the connect page with the device, the state and the verifier's
/// challenge, never with the verifier; state and verifier are kept.
pub proof fn law_the_browser_gets_state_and_challenge(
    pending: &mut Option<PendingSignin>,
    device: &str,
    verifier: String,
    state: String,
    said: &str,
    r: Result<String, String>,
    shown: String,
)
    requires
        call_ensures(begin_with, (pending, device, verifier, state), r),
        said@ == verifier@,
        call_ensures(challenge, (said,), shown),
        forall|i: int| 0 <= i < state@.len() ==> is_base64(#[trigger] state@[i]),
    ensures
        r is Ok,
        r->Ok_0@ == "https://teil.ing/connect"@ + "?device="@ + form_value(device@) + "&state="@
            + state@ + "&challenge="@ + shown@,
        *final(pending) is Some,
        (*final(pending))->0.state@ == state@,
        (*final(pending))->0.verifier@ == verifier@,
{
    law_tokens_stand_in_the_address_as_they_are(state@);
    assert forall|i: int| 0 <= i < shown@.len() implies is_base64(#[trigger] shown@[i]) by {
        law_base64_stays_in_its_alphabet(sha256(encode_utf8(verifier@)), i);
    }
    law_tokens_stand_in_the_address_as_they_are(shown@);
}

// ---- The deep link -------------------------------------------------------------------

/// Whether a link's parameter is the last one of this name.
pub open spec fn is_last(query: Seq<(String, String)>, name: Seq<char>, i: int) -> bool {
    &&& 0 <= i < query.len()
    &&& query[i].0@ == name
    &&& forall|j: int| i < j < query.len() ==> (#[trigger] query[j]).0@ != name
}

/// Whether a link has no parameter of this name.
pub open spec fn is_absent(query: Seq<(String, String)>, name: Seq<char>) -> bool {
    forall|j: int| 0 <= j < query.len() ==> (#[trigger] query[j]).0@ != name
}

proof fn lemma_param(query: Seq<(String, String)>, name: Seq<char>, i: int)
    requires
        is_last(query, name, i),
    ensures
        param(params(query), name) == Some(query[i].1@),
    decreases query.len(),
{
    let list = params(query);
    let n = query.len() - 1;
    assert(list.len() == query.len());
    assert(list[n] == (query[n].0@, query[n].1@));
    if i < n {
        assert(query[n].0@ != name);
        let head = query.drop_last();
        assert(list.drop_last() =~= params(head));
        assert(is_last(head, name, i)) by {
            assert forall|j: int| i < j < head.len() implies (#[trigger] head[j]).0@ != name by {
                assert(head[j] == query[j]);
            }
        }
        lemma_param(head, name, i);
    }
}

proof fn lemma_no_param(query: Seq<(String, String)>, name: Seq<char>)
    requires
        is_absent(query, name),
    ensures
        param(params(query), name) is None,
    decreases query.len(),
{
    if query.len() > 0 {
        let n = query.len() - 1;
        let head = query.drop_last();
        assert(params(query)[n] == (query[n].0@, query[n].1@));
        assert(params(query).drop_last() =~= params(head));
        assert forall|j: int| 0 <= j < head.len() implies (#[trigger] head[j]).0@ != name by {
            assert(head[j] == query[j]);
        }
        lemma_no_param(head, name);
    }
}

/// A link of another scheme or host, or while nothing waits, does nothing.
pub proof fn law_stray_links_do_nothing(pending: &mut Option<PendingSignin>, link: DeepLink, r: CallbackStep)
    requires
        call_ensures(route_callback, (pending, &link), r),
        link.scheme@ != "teiling"@ || link.host is None || link.host->0@ != "connect"@ || *old(
            pending,
        ) is None || is_absent(link.query@, "state"@),
    ensures
        r is Ignored,
        *final(pending) == *old(pending),
{
    if is_absent(link.query@, "state"@) {
        lemma_no_param(link.query@, "state"@);
    }
}

/// A link to the right place answers the sign-in exactly where it carries its state. It then uses
/// the sign-in up: an error in it ends the sign-in, a code is exchanged together with the verifier
/// that was kept, and without either the sign-in is incomplete.
pub proof fn law_links_answer_by_their_state(
    pending: &mut Option<PendingSignin>,
    link: DeepLink,
    r: CallbackStep,
    state: int,
    code: int,
    error: int,
)
    requires
        call_ensures(route_callback, (pending, &link), r),
        link.scheme@ == "teiling"@,
        link.host is Some,
        link.host->0@ == "connect"@,
        *old(pending) is Some,
        is_last(link.query@, "state"@, state),
    ensures
        ({
            let p = (*old(pending))->0;
            let q = link.query@;
            &&& q[state].1@ != p.state@ ==> r is Ignored && *final(pending) == *old(pending)
            &&& q[state].1@ == p.state@ ==> {
                &&& *final(pending) is None
                &&& is_last(q, "error"@, error) ==> (r matches CallbackStep::Failed(m) && m@
                    == "The connection request was denied in the browser."@)
                &&& is_absent(q, "error"@) && is_last(q, "code"@, code) && q[code].1@.len() > 0 ==> (r
                    matches CallbackStep::Exchange { code: c, verifier } && c@ == q[code].1@
                    && verifier@ == p.verifier@)
                &&& is_absent(q, "error"@) && (is_absent(q, "code"@) || is_last(q, "code"@, code)
                    && q[code].1@.len() == 0) ==> (r matches CallbackStep::Failed(m) && m@
                    == "The sign-in callback was incomplete. Please try again."@)
            }
        }),
{
    let q = link.query@;
    lemma_param(q, "state"@, state);
    if is_last(q, "error"@, error) {
        lemma_param(q, "error"@, error);
    }
    if is_absent(q, "error"@) {
        lemma_no_param(q, "error"@);
    }
    if is_last(q, "code"@, code) {
        lemma_param(q, "code"@, code);
    }
    if is_absent(q, "code"@) {
        lemma_no_param(q, "code"@);
    }
}

/// What is no address does nothing.
pub proof fn law_what_is_no_link_does_nothing(pending: &mut Option<PendingSignin>, raw: &str, r: CallbackStep)
    requires
        call_ensures(handle_callback, (pending, raw), r),
        link_parts(raw@) is None,
    ensures
        r is Ignored,
        *final(pending) == *old(pending),
{
}

/// An address comes to what its parts come to: only one of the right scheme and host answers, and
/// only with the state that waits.
pub proof fn law_addresses_are_read_for_their_state(
    pending: &mut Option<PendingSignin>,
    raw: &str,
    r: CallbackStep,
)
    requires
        call_ensures(handle_callback, (pending, raw), r),
        link_parts(raw@) is Some,
    ensures
        ({
            let link = link_parts(raw@)->0;
            let ours = link.0 == "teiling"@ && link.1 == Some("connect"@) && *old(pending) is Some
                && param(link.2, "state"@) == Some((*old(pending))->0.state@);
            &&& !ours ==> r is Ignored && *final(pending) == *old(pending)
            &&& ours ==> *final(pending) is None && !(r is Ignored)
            &&& r matches CallbackStep::Exchange { code, verifier } ==> {
                &&& param(link.2, "error"@) is None
                &&& param(link.2, "code"@) == Some(code@)
                &&& code@.len() > 0
                &&& verifier@ == (*old(pending))->0.verifier@
            }
            &&& ours && param(link.2, "error"@) is None && param(link.2, "code"@) is Some && param(
                link.2,
                "code"@,
            )->0.len() > 0 ==> r is Exchange
        }),
{
}

// ---- The exchange --------------------------------------------------------------------

/// The code is exchanged together with its verifier, each under its own name, without a key.
pub proof fn law_codes_are_exchanged_with_their_verifier(code: &str, verifier: &str, r: Request)
    requires
        call_ensures(exchange_request, (code, verifier), r),
    ensures
        r.method is Post,
        r.url@ == "https://teil.ing"@ + "/api/app/exchange"@,
        r.headers@.len() == 0,
        r.fields@.len() == 2,
        r.fields@[0].name@ == "code"@ && r.fields@[0].value@ == code@,
        r.fields@[1].name@ == "verifier"@ && r.fields@[1].value@ == verifier@,
        r.file is None,
        r.timeout_s == 15,
{
    let f = r.fields@;
    assert(pairs(r.headers@).len() == r.headers@.len());
    assert(pairs(f).len() == f.len());
    assert(pairs(f)[0] == (f[0].name@, f[0].value@));
    assert(pairs(f)[1] == (f[1].name@, f[1].value@));
}

/// A key comes of an exchange exactly where the server has created one and sends it; it is that
/// key. Otherwise the user is told why there is none.
pub proof fn law_keys_come_from_the_server(
    status: u16,
    key: Option<String>,
    error: Option<String>,
    r: Result<String, String>,
    number: String,
    none: Result<String, String>,
)
    requires
        call_ensures(exchange, (ExchangeReply::Status { code: status, key, error },), r),
        call_ensures(decimal, (status as u64,), number),
        call_ensures(exchange, (ExchangeReply::Unreachable,), none),
    ensures
        r is Ok <==> status == 201 && key is Some,
        r is Ok ==> r->Ok_0@ == key->0@,
        status == 201 && key is None ==> r->Err_0@ == "Unexpected server response. Try again later."@,
        status == 429 ==> r->Err_0@
            == "Too many sign-in attempts. Please wait a few minutes and try again."@,
        status == 400 && error is Some ==> r->Err_0@ == error->0@,
        status == 400 && error is None ==> r->Err_0@
            == "Sign-in could not be completed. Please try again."@,
        status != 201 && status != 429 && status != 400 ==> r->Err_0@
            == "Unexpected server response ("@ + number@ + "). Try again later."@,
        none is Err && none->Err_0@
            == "Could not reach teil.ing. Check your connection and try again."@,
{
}

/// A sign-in has worked only once the key is stored.
pub proof fn law_keys_have_to_be_stored(stored: Result<(), String>, r: Result<(), String>)
    requires
        call_ensures(key_stored, (stored,), r),
    ensures
        r is Ok <==> stored is Ok,
        r is Err ==> r->Err_0@ == "Could not store the API key: "@ + stored->Err_0@,
{
}

/// A sign-in for this computer keeps a verifier and a state of 43 and 32 plain characters, and
/// sends the browser to the connect page with that state and the challenge of that verifier.
pub proof fn law_signins_start_afresh(pending: &mut Option<PendingSignin>, r: Result<String, String>, said: &str, shown: String)
    requires
        call_ensures(begin, (pending,), r),
        *final(pending) is Some ==> said@ == (*final(pending))->0.verifier@,
        call_ensures(challenge, (said,), shown),
    ensures
        *final(pending) is Some,
        (*final(pending))->0.verifier@.len() == 43,
        (*final(pending))->0.state@.len() == 32,
        r is Ok,
        exists|device: Seq<char>|
            r->Ok_0@ == "https://teil.ing/connect"@ + "?device="@ + #[trigger] form_value(device)
                + "&state="@ + (*final(pending))->0.state@ + "&challenge="@ + shown@,
{
    let p = (*final(pending))->0;
    let device = choose|device: Seq<char>|
        r->Ok_0@ == #[trigger] connect_url(device, p.state@, challenge_text(p.verifier@));
    law_tokens_stand_in_the_address_as_they_are(p.state@);
    assert forall|i: int| 0 <= i < shown@.len() implies is_base64(#[trigger] shown@[i]) by {
        law_base64_stays_in_its_alphabet(sha256(encode_utf8(p.verifier@)), i);
    }
    law_tokens_stand_in_the_address_as_they_are(shown@);
    assert(r->Ok_0@ == "https://teil.ing/connect"@ + "?device="@ + form_value(device) + "&state="@
        + p.state@ + "&challenge="@ + shown@);
}

/// Whether a character is a hexadecimal digit of this value.
pub open spec fn is_hex(c: char, v: int) -> bool {
    ('0' <= c <= '9' && v == c as u32 - 48) || ('A' <= c <= 'F' && v == c as u32 - 55)
}

/// A byte can be read back from a form: letters, digits and a few marks stand for themselves, a
/// plus sign for a space, and two hexadecimal digits behind a percent sign for anything else.
pub proof fn law_form_bytes_can_be_read_back(b: u8)
    ensures
        ({
            let t = form_byte(b);
            ||| t.len() == 1 && t[0] as u32 == b && t[0] != '+' && t[0] != '%' && t[0] != '&' && t[0]
                != '='
            ||| t.len() == 1 && t[0] == '+' && b == 32
            ||| t.len() == 3 && t[0] == '%' && is_hex(t[1], b as int / 16) && is_hex(
                t[2],
                b as int % 16,
            )
        }),
{
}

} // verus!
