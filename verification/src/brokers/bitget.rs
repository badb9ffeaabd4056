use vstd::prelude::*;
use vstd::string::*;
use vstd::utf8::encode_utf8;
use crate::types::Action;
use base64::Engine;
use hmac::{Hmac, Mac};
use sha2::Sha256;

verus! {

/// Address of Bitget's REST API.
pub const BASE_URL: &'static str = "https://api.bitget.com";

/// Path of the order placement endpoint of the futures (mix) API.
pub const PLACE_ORDER_PATH: &'static str = "/api/v2/mix/order/place-order";

/// Address of Bitget's public WebSocket feed.
pub const PUBLIC_WS_URL: &'static str = "wss://ws.bitget.com/v2/ws/public";

/// The HMAC-SHA256 tag of `message` under `key`, as the `hmac` and `sha2`
/// crates compute it.
pub uninterp spec fn spec_hmac_sha256(key: Seq<u8>, message: Seq<u8>) -> Seq<u8>;

/// Calls `Hmac::<Sha256>::new_from_slice(key)`, `Mac::update(message)` and
/// `Mac::finalize().into_bytes()` of the `hmac` crate. The contract claims
/// that the tag is a function of key and message alone, and that it is 32
/// bytes long, the output size of SHA-256. HMAC accepts keys of any
/// length, so `new_from_slice` does not fail.
#[verifier::external_body]
fn hmac_sha256(key: &[u8], message: &[u8]) -> (tag: Vec<u8>)
    ensures
        tag@ == spec_hmac_sha256(key@, message@),
        tag@.len() == 32,
{
    let mut mac = <Hmac<Sha256> as Mac>::new_from_slice(key).expect("HMAC can take key of any size");
    mac.update(message);
    mac.finalize().into_bytes().to_vec()
}

/// The base64 alphabet of RFC 4648, section 4.
pub open spec fn base64_alphabet() -> Seq<char> {
    "ABCDEFGHIJKLMNOPQRSTUVWXYZabcdefghijklmnopqrstuvwxyz0123456789+/"@
}

/// The alphabet character of a six-bit value.
pub open spec fn base64_digit(v: int) -> char {
    base64_alphabet()[v]
}

/// Standard base64 with `=` padding (RFC 4648, section 4): every three
/// bytes become four characters; a final one or two bytes become four
/// characters of which the last two or one are `=`.
pub open spec fn spec_base64(b: Seq<u8>) -> Seq<char>
    decreases b.len(),
{
    if b.len() == 0 {
        seq![]
    } else {
        let x0 = b[0] as int;
        if b.len() == 1 {
            seq![base64_digit(x0 / 4), base64_digit((x0 % 4) * 16), '=', '=']
        } else {
            let x1 = b[1] as int;
            if b.len() == 2 {
                seq![
                    base64_digit(x0 / 4),
                    base64_digit((x0 % 4) * 16 + x1 / 16),
                    base64_digit((x1 % 16) * 4),
                    '=',
                ]
            } else {
                let x2 = b[2] as int;
                seq![
                    base64_digit(x0 / 4),
                    base64_digit((x0 % 4) * 16 + x1 / 16),
                    base64_digit((x1 % 16) * 4 + x2 / 64),
                    base64_digit(x2 % 64),
                ] + spec_base64(b.skip(3))
            }
        }
    }
}

/// Calls `base64::engine::general_purpose::STANDARD.encode(bytes)`. The
/// contract claims that the result is the standard base64 text of the
/// bytes, padded with `=`, as the crate documents for its `STANDARD`
/// engine. Inputs too long for the encoded length to fit in `usize` (on
/// which the crate panics) are left out.
#[verifier::external_body]
fn base64_standard(bytes: &[u8]) -> (text: String)
    requires
        bytes@.len() <= usize::MAX / 2,
    ensures
        text@ == spec_base64(bytes@),
{
    base64::engine::general_purpose::STANDARD.encode(bytes)
}

/// The text that Bitget signs: timestamp, method, request path and body,
/// one after the other.
pub open spec fn spec_sign_message(
    timestamp: Seq<char>,
    method: Seq<char>,
    request_path: Seq<char>,
    body: Seq<char>,
) -> Seq<char> {
    timestamp + method + request_path + body
}

/// The signed message is the four parts written one after the other, whatever
/// characters they hold: its length is the sum of theirs, and each part is
/// found whole at its own offset.
pub proof fn lemma_sign_message_parts(
    timestamp: Seq<char>,
    method: Seq<char>,
    request_path: Seq<char>,
    body: Seq<char>,
)
    ensures
        ({
            let m = spec_sign_message(timestamp, method, request_path, body);
            let a = timestamp.len() as int;
            let b = a + method.len();
            let c = b + request_path.len();
            &&& m.len() == c + body.len()
            &&& m.subrange(0, a) == timestamp
            &&& m.subrange(a, b) == method
            &&& m.subrange(b, c) == request_path
            &&& m.subrange(c, m.len() as int) == body
        }),
{
    let m = spec_sign_message(timestamp, method, request_path, body);
    let a = timestamp.len() as int;
    let b = a + method.len();
    let c = b + request_path.len();
    assert(m.subrange(0, a) =~= timestamp);
    assert(m.subrange(a, b) =~= method);
    assert(m.subrange(b, c) =~= request_path);
    assert(m.subrange(c, m.len() as int) =~= body);
}

/// Bitget's request signature: the base64 text of the HMAC-SHA256 tag of
/// the UTF-8 bytes of the signed message under the UTF-8 bytes of the
/// secret.
pub open spec fn spec_signature(
    secret: Seq<char>,
    timestamp: Seq<char>,
    method: Seq<char>,
    request_path: Seq<char>,
    body: Seq<char>,
) -> Seq<char> {
    spec_base64(
        spec_hmac_sha256(
            encode_utf8(secret),
            encode_utf8(spec_sign_message(timestamp, method, request_path, body)),
        ),
    )
}

/// A symbol without its `/` separators.
pub open spec fn spec_strip_slashes(s: Seq<char>) -> Seq<char>
    decreases s.len(),
{
    if s.len() == 0 {
        seq![]
    } else if s.last() == '/' {
        spec_strip_slashes(s.drop_last())
    } else {
        spec_strip_slashes(s.drop_last()).push(s.last())
    }
}

/// Bitget's instrument id of a symbol: the symbol with every `/` removed,
/// so that `BTC/USDT` becomes `BTCUSDT`.
pub fn instrument_id(symbol: &str) -> (id: String)
    ensures
        id@ == spec_strip_slashes(symbol@),
{
    let n = symbol.unicode_len();
    let mut id = String::new();
    let mut i: usize = 0;
    while i < n
        invariant
            n == symbol@.len(),
            i <= n,
            id@ == spec_strip_slashes(symbol@.take(i as int)),
        decreases n - i,
    {
        let c = symbol.get_char(i);
        assert(symbol@.take(i + 1).drop_last() =~= symbol@.take(i as int));
        assert(symbol@.take(i + 1).last() == c);
        if c != '/' {
            let one = symbol.substring_char(i, i + 1);
            assert(one@ =~= seq![c]);
            id.append(one);
            assert(id@ =~= spec_strip_slashes(symbol@.take(i as int)).push(c));
        }
        i = i + 1;
    }
    assert(symbol@.take(n as int) =~= symbol@);
    id
}

/// Why an order cannot be placed.
#[derive(Debug, Clone, Copy, PartialEq, Eq, Structural)]
pub enum OrderError {
    /// A `Flat` action names no side to trade.
    FlatOrder,
}

/// The side of a Bitget order for a trade action.
pub open spec fn spec_order_side(action: Action) -> Option<Seq<char>> {
    match action {
        Action::Buy => Some("buy"@),
        Action::Sell => Some("sell"@),
        Action::Flat => None,
    }
}

/// The side of a Bitget order: `buy` or `sell`; a `Flat` action cannot be
/// submitted.
pub fn order_side(action: Action) -> (side: Result<&'static str, OrderError>)
    ensures
        spec_order_side(action) is None <==> side == Err::<&'static str, OrderError>(
            OrderError::FlatOrder,
        ),
        spec_order_side(action) matches Some(s) ==> side matches Ok(t) && t@ == s,
{
    match action {
        Action::Buy => Ok("buy"),
        Action::Sell => Ok("sell"),
        Action::Flat => Err(OrderError::FlatOrder),
    }
}

/// The JSON body of a market order on the mix API, margined in USDT.
pub open spec fn spec_order_body(inst_id: Seq<char>, side: Seq<char>, size: Seq<char>) -> Seq<char> {
    "{\"symbol\":\""@ + inst_id + "\",\"marginCoin\":\"USDT\",\"side\":\""@ + side
        + "\",\"orderType\":\"market\",\"size\":\""@ + size + "\"}"@
}

/// Builds the body of a market order for `symbol` in the given side and
/// size; `size` is the order size as text.
pub fn place_order_body(action: Action, symbol: &str, size: &str) -> (body: Result<
    String,
    OrderError,
>)
    ensures
        spec_order_side(action) is None <==> body is Err,
        spec_order_side(action) matches Some(side) ==> body matches Ok(b) && b@ == spec_order_body(
            spec_strip_slashes(symbol@),
            side,
            size@,
        ),
{
    let side = match order_side(action) {
        Ok(s) => s,
        Err(e) => {
            return Err(e);
        },
    };
    let inst_id = instrument_id(symbol);
    let mut body = String::from_str("{\"symbol\":\"");
    body.append(inst_id.as_str());
    body.append("\",\"marginCoin\":\"USDT\",\"side\":\"");
    body.append(side);
    body.append("\",\"orderType\":\"market\",\"size\":\"");
    body.append(size);
    body.append("\"}");
    Ok(body)
}

/// Path of the account endpoint for an asset margined in USDT.
pub open spec fn spec_balance_path(asset: Seq<char>) -> Seq<char> {
    "/api/v2/mix/account/account?symbol="@ + asset + "USDT&marginCoin=USDT"@
}

/// Builds the path of the account endpoint for an asset.
pub fn balance_path(asset: &str) -> (path: String)
    ensures
        path@ == spec_balance_path(asset@),
{
    let mut path = String::from_str("/api/v2/mix/account/account?symbol=");
    path.append(asset);
    path.append("USDT&marginCoin=USDT");
    path
}

/// The `data.available` field of an account answer as `serde_json` reads
/// it: `None` when the answer is not JSON; otherwise the field's string
/// value, absent when the field is missing or is not a string.
pub uninterp spec fn spec_available_balance(text: Seq<char>) -> Option<Option<Seq<char>>>;

/// The characters of an optional text.
pub open spec fn spec_opt_text(o: Option<String>) -> Option<Seq<char>> {
    match o {
        Some(s) => Some(s@),
        None => None,
    }
}

/// Calls `serde_json::from_str::<Value>` on an account answer, indexes
/// `data` then `available`, and takes `Value::as_str`. The contract claims
/// that the result is a function of the answer's text alone.
#[verifier::external_body]
fn parse_available_balance(text: &str) -> (r: Option<Option<String>>)
    ensures
        match r {
            None => spec_available_balance(text@) is None,
            Some(a) => spec_available_balance(text@) == Some(spec_opt_text(a)),
        },
{
    let json = serde_json::from_str::<serde_json::Value>(text).ok()?;
    Some(json["data"]["available"].as_str().map(|a| a.to_string()))
}

/// Reads the available balance, as text, from the body of an account
/// answer: `None` when the body is not JSON, `Some(None)` when it has no
/// `data.available` string.
pub fn available_balance(text: &str) -> (r: Option<Option<String>>)
    ensures
        match r {
            None => spec_available_balance(text@) is None,
            Some(a) => spec_available_balance(text@) == Some(spec_opt_text(a)),
        },
{
    parse_available_balance(text)
}

/// What an account request comes to: on a successful status, the
/// available balance text read from the answer, or an error when the answer
/// is not JSON; on any other status, an error naming the status.
pub open spec fn spec_balance_outcome(success: bool, status: Seq<char>, text: Seq<char>) -> Result<
    Option<Seq<char>>,
    Seq<char>,
> {
    if !success {
        Err("Bitget Balance Error: "@ + status)
    } else {
        match spec_available_balance(text) {
            Some(available) => Ok(available),
            None => Err("error decoding response body"@),
        }
    }
}

/// Reads the answer to an account request from whether its status was a
/// success, the status as text and the body of the answer.
pub fn balance_outcome(success: bool, status: &str, text: &str) -> (r: Result<Option<String>, String>)
    ensures
        match r {
            Ok(a) => spec_balance_outcome(success, status@, text@) == Ok::<
                Option<Seq<char>>,
                Seq<char>,
            >(spec_opt_text(a)),
            Err(e) => spec_balance_outcome(success, status@, text@) == Err::<
                Option<Seq<char>>,
                Seq<char>,
            >(e@),
        },
{
    if !success {
        let mut e = String::from_str("Bitget Balance Error: ");
        e.append(status);
        return Err(e);
    }
    match available_balance(text) {
        Some(available) => Ok(available),
        None => Err(String::from_str("error decoding response body")),
    }
}

/// The authentication headers of a signed request, in the order they are
/// sent, followed by the JSON content type when the request has a body.
pub open spec fn spec_request_headers(
    api_key: Seq<char>,
    signature: Seq<char>,
    timestamp: Seq<char>,
    passphrase: Seq<char>,
    json_body: bool,
) -> Seq<(Seq<char>, Seq<char>)> {
    let auth = seq![
        ("ACCESS-KEY"@, api_key),
        ("ACCESS-SIGN"@, signature),
        ("ACCESS-TIMESTAMP"@, timestamp),
        ("ACCESS-PASSPHRASE"@, passphrase),
    ];
    if json_body {
        auth.push(("Content-Type"@, "application/json"@))
    } else {
        auth
    }
}

/// The text of each header of a list.
pub open spec fn spec_header_texts(h: Seq<(String, String)>) -> Seq<(Seq<char>, Seq<char>)> {
    h.map_values(|p: (String, String)| (p.0@, p.1@))
}

/// What an order request comes to: on a successful status, the exchange's
/// answer marked as a success; otherwise an error naming the status and
/// the answer.
pub open spec fn spec_order_outcome(success: bool, status: Seq<char>, text: Seq<char>) -> Result<
    Seq<char>,
    Seq<char>,
> {
    if success {
        Ok("BITGET-SUCCESS-"@ + text)
    } else {
        Err("Bitget Order Error: "@ + status + " - "@ + text)
    }
}

/// Reads the answer to an order request from whether its status was a
/// success, the status as text and the body of the answer.
pub fn order_outcome(success: bool, status: &str, text: &str) -> (r: Result<String, String>)
    ensures
        r matches Ok(s) ==> spec_order_outcome(success, status@, text@) == Ok::<Seq<char>, Seq<char>>(s@),
        r matches Err(e) ==> spec_order_outcome(success, status@, text@) == Err::<Seq<char>, Seq<char>>(e@),
{
    if success {
        let mut s = String::from_str("BITGET-SUCCESS-");
        s.append(text);
        Ok(s)
    } else {
        let mut e = String::from_str("Bitget Order Error: ");
        e.append(status);
        e.append(" - ");
        e.append(text);
        Err(e)
    }
}

/// A buy is sent as side `buy`, a sell as side `sell`, and a Flat action
/// names no side.
pub proof fn lemma_order_sides()
    ensures
        spec_order_side(Action::Buy) == Some("buy"@),
        spec_order_side(Action::Sell) == Some("sell"@),
        spec_order_side(Action::Flat) is None,
{
}

/// An order body carries the instrument, the side and the size whole, each
/// right after its own key, in that order.
pub proof fn lemma_order_body_fields(inst_id: Seq<char>, side: Seq<char>, size: Seq<char>)
    ensures
        ({
            let b = spec_order_body(inst_id, side, size);
            let i = 11int;
            let s = i + inst_id.len() + 30;
            let z = s + side.len() + 31;
            &&& b.len() == z + size.len() + 2
            &&& b.subrange(i, i + inst_id.len()) == inst_id
            &&& b.subrange(s, s + side.len()) == side
            &&& b.subrange(z, z + size.len()) == size
        }),
{
    reveal_strlit("{\"symbol\":\"");
    reveal_strlit("\",\"marginCoin\":\"USDT\",\"side\":\"");
    reveal_strlit("\",\"orderType\":\"market\",\"size\":\"");
    reveal_strlit("\"}");
    let b = spec_order_body(inst_id, side, size);
    let i = 11int;
    let s = i + inst_id.len() + 30;
    let z = s + side.len() + 31;
    assert(b.subrange(i, i + inst_id.len()) =~= inst_id);
    assert(b.subrange(s, s + side.len()) =~= side);
    assert(b.subrange(z, z + size.len()) =~= size);
}

/// The account path names the asset, margined in USDT, right after the
/// `symbol=` key of its query.
pub proof fn lemma_balance_path_asset(asset: Seq<char>)
    ensures
        spec_balance_path(asset).len() == 35 + asset.len() + 20,
        spec_balance_path(asset).subrange(0, 35) == "/api/v2/mix/account/account?symbol="@,
        spec_balance_path(asset).subrange(35, 35 + asset.len() as int) == asset,
{
    reveal_strlit("/api/v2/mix/account/account?symbol=");
    reveal_strlit("USDT&marginCoin=USDT");
    let p = spec_balance_path(asset);
    assert(p.subrange(0, 35) =~= "/api/v2/mix/account/account?symbol="@);
    assert(p.subrange(35, 35 + asset.len() as int) =~= asset);
}

/// An instrument id holds no `/`, and a symbol without `/` is its own
/// instrument id.
pub proof fn lemma_strip_slashes(s: Seq<char>)
    ensures
        forall|i: int| 0 <= i < spec_strip_slashes(s).len() ==> #[trigger] spec_strip_slashes(s)[i]
            != '/',
        (forall|i: int| 0 <= i < s.len() ==> #[trigger] s[i] != '/') ==> spec_strip_slashes(s) == s,
        spec_strip_slashes(s).len() <= s.len(),
    decreases s.len(),
{
    if s.len() > 0 {
        let p = s.drop_last();
        lemma_strip_slashes(p);
        if forall|i: int| 0 <= i < s.len() ==> #[trigger] s[i] != '/' {
            assert forall|i: int| 0 <= i < p.len() implies #[trigger] p[i] != '/' by {
                assert(p[i] == s[i]);
            }
            assert(s.last() == s[s.len() - 1]);
            assert(p.push(s.last()) =~= s);
        }
    }
}

/// An order is answered with the exchange's text marked as a success when
/// its status is a success, and with an error carrying the status and the
/// text otherwise; an account request that fails reports its status.
pub proof fn lemma_request_outcomes(success: bool, status: Seq<char>, text: Seq<char>)
    ensures
        success ==> spec_order_outcome(success, status, text) == Ok::<Seq<char>, Seq<char>>(
            "BITGET-SUCCESS-"@ + text,
        ),
        !success ==> spec_order_outcome(success, status, text) == Err::<Seq<char>, Seq<char>>(
            "Bitget Order Error: "@ + status + " - "@ + text,
        ),
        !success ==> spec_balance_outcome(success, status, text) == Err::<
            Option<Seq<char>>,
            Seq<char>,
        >("Bitget Balance Error: "@ + status),
        success && spec_available_balance(text) is None ==> spec_balance_outcome(
            success,
            status,
            text,
        ) is Err,
        success && spec_available_balance(text) is Some ==> spec_balance_outcome(
            success,
            status,
            text,
        ) == Ok::<Option<Seq<char>>, Seq<char>>(spec_available_balance(text).unwrap()),
{
}

/// A signed request carries the API key, the signature, the timestamp and
/// the passphrase under their own headers, in that order, and the JSON
/// content type exactly when it has a body.
pub proof fn lemma_request_header_fields(
    api_key: Seq<char>,
    signature: Seq<char>,
    timestamp: Seq<char>,
    passphrase: Seq<char>,
    json_body: bool,
)
    ensures
        ({
            let h = spec_request_headers(api_key, signature, timestamp, passphrase, json_body);
            &&& h.len() == (if json_body { 5nat } else { 4nat })
            &&& h[0] == ("ACCESS-KEY"@, api_key)
            &&& h[1] == ("ACCESS-SIGN"@, signature)
            &&& h[2] == ("ACCESS-TIMESTAMP"@, timestamp)
            &&& h[3] == ("ACCESS-PASSPHRASE"@, passphrase)
            &&& json_body ==> h[4] == ("Content-Type"@, "application/json"@)
        }),
{
}

/// The credentials of a Bitget account and the address of the API they
/// are used against.
pub struct BitgetCredentials {
    pub api_key: String,
    pub secret: String,
    pub passphrase: String,
    pub base_url: String,
}

impl BitgetCredentials {
    /// Credentials for Bitget's public API address.
    pub fn new(api_key: String, secret: String, passphrase: String) -> (c: BitgetCredentials)
        ensures
            c.api_key@ == api_key@,
            c.secret@ == secret@,
            c.passphrase@ == passphrase@,
            c.base_url@ == BASE_URL@,
    {
        BitgetCredentials { api_key, secret, passphrase, base_url: String::from_str(BASE_URL) }
    }

    /// The full address of an API path.
    pub fn url(&self, path: &str) -> (u: String)
        ensures
            u@ == self.base_url@ + path@,
    {
        let mut u = self.base_url.clone();
        u.append(path);
        u
    }

    /// The headers of a request signed with `signature` at `timestamp`.
    pub fn request_headers(&self, timestamp: &str, signature: &str, json_body: bool) -> (h: Vec<
        (String, String),
    >)
        ensures
            spec_header_texts(h@) == spec_request_headers(
                self.api_key@,
                signature@,
                timestamp@,
                self.passphrase@,
                json_body,
            ),
    {
        let mut h: Vec<(String, String)> = Vec::new();
        h.push((String::from_str("ACCESS-KEY"), self.api_key.clone()));
        h.push((String::from_str("ACCESS-SIGN"), String::from_str(signature)));
        h.push((String::from_str("ACCESS-TIMESTAMP"), String::from_str(timestamp)));
        h.push((String::from_str("ACCESS-PASSPHRASE"), self.passphrase.clone()));
        if json_body {
            h.push((String::from_str("Content-Type"), String::from_str("application/json")));
        }
        assert(spec_header_texts(h@) =~= spec_request_headers(
            self.api_key@,
            signature@,
            timestamp@,
            self.passphrase@,
            json_body,
        ));
        h
    }

    /// Signs a request: the base64 HMAC-SHA256 of timestamp, method, path
    /// and body under the account's secret.
    pub fn generate_signature(
        &self,
        timestamp: &str,
        method: &str,
        request_path: &str,
        body: &str,
    ) -> (signature: String)
        ensures
            signature@ == spec_signature(self.secret@, timestamp@, method@, request_path@, body@),
            signature@ == spec_base64(
                spec_hmac_sha256(
                    encode_utf8(self.secret@),
                    encode_utf8(timestamp@ + method@ + request_path@ + body@),
                ),
            ),
    {
        let mut message = String::from_str(timestamp);
        message.append(method);
        message.append(request_path);
        message.append(body);
        let key = self.secret.as_str().as_bytes();
        let tag = hmac_sha256(key, message.as_str().as_bytes());
        base64_standard(tag.as_slice())
    }
}

} // verus!
