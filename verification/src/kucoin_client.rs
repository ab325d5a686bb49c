//! The exchange session: credentials, signed request headers, the cached
//! wallet snapshot, and market-order construction.
//!
//! Every authenticated request carries five headers derived from a
//! canonical signing string `timestamp ++ METHOD ++ path ++ body`; the
//! contracts here pin each header to that string exactly, so the
//! timestamp a request is signed over is the timestamp it carries. The
//! network transport itself lives outside the crate: callers send the
//! prepared bytes and hand the outcome back in.

use vstd::prelude::*;
use vstd::string::StringExecFns;
use crate::crypto::{
    base64_encode, base64_of, derive_passphrase_signature, hmac_sha256, hmac_sha256_of,
    is_base64_char, spec_passphrase_signature,
};
use crate::clock::now_millis;
use crate::numfmt::{dec_int_str_of, i64_to_dec, is_dec_digit_char};

verus! {

/// The error taxonomy of the client: configuration faults, header
/// content that cannot be sent (`Signing`), transport failures, response
/// bodies of the wrong shape, caller contract violations, and listing
/// store faults.
#[derive(Clone, Copy, Debug, PartialEq, Eq, Structural)]
pub enum KucoinError {
    Config,
    Signing,
    Transport,
    Schema,
    Contract,
    Store,
}

/// An error body as the exchange reports it: a code and a message.
#[derive(Clone, Debug)]
pub struct ErrorResponse {
    code: String,
    msg: String,
}

impl ErrorResponse {
    /// The error code reported by the exchange.
    pub closed spec fn spec_code(self) -> Seq<char> {
        self.code@
    }

    /// The error message reported by the exchange.
    pub closed spec fn spec_msg(self) -> Seq<char> {
        self.msg@
    }

    pub fn new(code: String, msg: String) -> (r: ErrorResponse)
        ensures
            r.spec_code() == code@,
            r.spec_msg() == msg@,
    {
        ErrorResponse { code, msg }
    }

    pub fn code(&self) -> (r: &String)
        ensures
            r@ == self.spec_code(),
    {
        &self.code
    }

    pub fn msg(&self) -> (r: &String)
        ensures
            r@ == self.spec_msg(),
    {
        &self.msg
    }
}

/// One asset row of the wallet snapshot. All amounts stay in their exact
/// decimal string form; they are never parsed into floating point.
#[derive(Clone, Debug)]
pub struct Asset {
    pub id: String,
    pub currency: String,
    pub typ: String,
    pub balance: String,
    pub available: String,
    pub holds: String,
}

/// The wallet snapshot returned by the accounts endpoint: a status code
/// and the asset rows.
#[derive(Clone, Debug)]
pub struct AccountBalanceResponse {
    pub code: String,
    pub data: Vec<Asset>,
}

/// The body of a market order as the exchange expects it.
#[derive(Clone, Debug)]
pub struct MarketOrderParams {
    pub client_oid: String,
    pub side: String,
    pub symbol: String,
    pub typ: String,
    pub trade_type: String,
    pub funds: String,
    pub size: String,
}

/// The body of a limit order. Limit orders are not implemented; the
/// schema is kept for the wire format.
#[derive(Clone, Debug)]
pub struct LimitOrderParams {
    pub client_oid: String,
    pub side: String,
    pub symbol: String,
    pub typ: String,
    pub trade_type: String,
    pub price: String,
    pub size: String,
    pub time_in_force: String,
    pub cancel_after: u32,
}

/// Which side a trade order takes.
#[derive(Clone, Copy, Debug, PartialEq, Eq, Structural)]
pub enum OrderType {
    Buy,
    Sell,
}

/// The request kind an authenticated call signs for: an order submission
/// or a balance read. Method and path are fixed per kind.
#[derive(Clone, Copy, Debug, PartialEq, Eq, Structural)]
pub enum TradeType {
    Trade(OrderType),
    Balance,
}

/// The five headers every authenticated request must carry.
#[derive(Clone, Debug)]
pub struct AuthHeaders {
    pub sign: String,
    pub timestamp: String,
    pub key: String,
    pub passphrase: String,
    pub key_version: String,
}

/// A fully built, signed market order: the structured fields, the exact
/// body bytes the signature covers (the transport must send them
/// unchanged), and the headers.
#[derive(Clone, Debug)]
pub struct PreparedOrder {
    pub params: MarketOrderParams,
    pub path: String,
    pub body: String,
    pub headers: AuthHeaders,
}

/// The HTTP method of a request kind.
pub open spec fn method_str(t: TradeType) -> Seq<char> {
    match t {
        TradeType::Balance => "GET"@,
        TradeType::Trade(_) => "POST"@,
    }
}

/// The endpoint path of a request kind.
pub open spec fn path_str(t: TradeType) -> Seq<char> {
    match t {
        TradeType::Balance => "/api/v1/accounts"@,
        TradeType::Trade(_) => "/api/v1/orders"@,
    }
}

/// The canonical signing string of a request: its millisecond timestamp,
/// method, path and body, concatenated.
pub open spec fn signing_string(ts: int, t: TradeType, body: Seq<char>) -> Seq<char> {
    dec_int_str_of(ts) + method_str(t) + path_str(t) + body
}

/// Whether a character may stand in an HTTP header value: visible ASCII,
/// space, or horizontal tab.
pub open spec fn valid_header_char(c: char) -> bool {
    let u = c as u32;
    (32 <= u && u < 127) || u == 9
}

/// Whether a string may stand in an HTTP header value.
pub open spec fn valid_header_str(s: Seq<char>) -> bool {
    forall|i: int| 0 <= i < s.len() ==> valid_header_char(#[trigger] s[i])
}

/// Whether a character can be placed in a JSON string field verbatim,
/// with no escaping: anything but a quote, a backslash, or a control
/// character.
pub open spec fn json_plain_char(c: char) -> bool {
    c != '"' && c != '\\' && (c as u32) >= 32
}

/// Whether a string can be placed in a JSON string field verbatim.
pub open spec fn json_plain(s: Seq<char>) -> bool {
    forall|i: int| 0 <= i < s.len() ==> json_plain_char(#[trigger] s[i])
}

/// The wire form of a market-order side.
pub open spec fn order_side_str(side: OrderType) -> Seq<char> {
    match side {
        OrderType::Buy => "buy"@,
        OrderType::Sell => "sell"@,
    }
}

/// The exact JSON body of a market order, field by field in wire order.
/// The signature is computed over precisely this text.
pub open spec fn market_order_body(
    oid: Seq<char>,
    side: Seq<char>,
    symbol: Seq<char>,
    funds: Seq<char>,
    size: Seq<char>,
) -> Seq<char> {
    "{\"clientOid\":\""@ + oid + "\",\"side\":\""@ + side + "\",\"symbol\":\""@ + symbol
        + "\",\"type\":\"market\",\"tradeType\":\"TRADE\",\"funds\":\""@ + funds
        + "\",\"size\":\""@ + size + "\"}"@
}

/// Whether a character can appear in a rendered client order id:
/// lowercase hex digits and hyphens.
pub open spec fn is_oid_char(c: char) -> bool {
    is_dec_digit_char(c) || c == 'a' || c == 'b' || c == 'c' || c == 'd' || c == 'e' || c == 'f'
        || c == '-'
}

/// Whether a string has the shape of a rendered client order id.
pub open spec fn is_client_oid(s: Seq<char>) -> bool {
    s.len() == 36 && forall|i: int| 0 <= i < s.len() ==> is_oid_char(#[trigger] s[i])
}

/// A market order must populate exactly one of size and funds.
pub open spec fn market_order_inputs_ok(size: Seq<char>, funds: Seq<char>) -> bool {
    (size.len() == 0) != (funds.len() == 0)
}

/// Relies on uuid's `Uuid::new_v4` and its hyphenated text form: 36
/// characters, lowercase hex digits and hyphens. The value is random, so
/// nothing relates one call to another.
#[verifier::external_body]
fn new_client_oid() -> (r: String)
    ensures
        is_client_oid(r@),
{
    uuid::Uuid::new_v4().to_string()
}

fn is_valid_header_text(s: &str) -> (r: bool)
    ensures
        r == valid_header_str(s@),
{
    let n = s.unicode_len();
    let mut i: usize = 0;
    while i < n
        invariant
            n == s@.len(),
            i <= n,
            forall|j: int| 0 <= j < i ==> valid_header_char(#[trigger] s@[j]),
        decreases n - i,
    {
        let c = s.get_char(i);
        let u = c as u32;
        if !((32 <= u && u < 127) || u == 9) {
            return false;
        }
        i += 1;
    }
    true
}

fn is_json_plain_text(s: &str) -> (r: bool)
    ensures
        r == json_plain(s@),
{
    let n = s.unicode_len();
    let mut i: usize = 0;
    while i < n
        invariant
            n == s@.len(),
            i <= n,
            forall|j: int| 0 <= j < i ==> json_plain_char(#[trigger] s@[j]),
        decreases n - i,
    {
        let c = s.get_char(i);
        if c == '"' || c == '\\' || (c as u32) < 32 {
            return false;
        }
        i += 1;
    }
    true
}

fn method_literal(t: TradeType) -> (r: &'static str)
    ensures
        r@ == method_str(t),
{
    match t {
        TradeType::Balance => "GET",
        TradeType::Trade(_) => "POST",
    }
}

fn path_literal(t: TradeType) -> (r: &'static str)
    ensures
        r@ == path_str(t),
{
    match t {
        TradeType::Balance => "/api/v1/accounts",
        TradeType::Trade(_) => "/api/v1/orders",
    }
}

fn order_side_literal(side: OrderType) -> (r: &'static str)
    ensures
        r@ == order_side_str(side),
{
    match side {
        OrderType::Buy => "buy",
        OrderType::Sell => "sell",
    }
}

/// The exchange session: credentials, the derived passphrase signature,
/// the API base URL, and the cached wallet snapshot.
#[derive(Clone, Debug)]
pub struct Kucoin {
    api_key: String,
    api_secret: String,
    passphrase: String,
    base_url: String,
    passphrase_signature: String,
    pub wallet: Option<AccountBalanceResponse>,
}

/// What the produced headers of a request signed at instant `ts` hold:
/// the signature covers the canonical signing string, the timestamp
/// header renders `ts` itself, and key, passphrase signature and version
/// marker are the session's.
pub open spec fn auth_headers_match(
    k: Kucoin,
    t: TradeType,
    body: Seq<char>,
    ts: int,
    h: AuthHeaders,
) -> bool {
    &&& h.sign@ == base64_of(hmac_sha256_of(k.spec_api_secret(), signing_string(ts, t, body)))
    &&& h.timestamp@ == dec_int_str_of(ts)
    &&& h.key@ == k.spec_api_key()
    &&& h.passphrase@ == k.spec_passphrase_sig()
    &&& h.key_version@ == "2"@
}

impl Kucoin {
    /// The API key of the session.
    pub closed spec fn spec_api_key(self) -> Seq<char> {
        self.api_key@
    }

    /// The API secret of the session.
    pub closed spec fn spec_api_secret(self) -> Seq<char> {
        self.api_secret@
    }

    /// The raw passphrase of the session.
    pub closed spec fn spec_passphrase(self) -> Seq<char> {
        self.passphrase@
    }

    /// The API base URL of the session.
    pub closed spec fn spec_base_url(self) -> Seq<char> {
        self.base_url@
    }

    /// The derived passphrase signature of the session.
    pub closed spec fn spec_passphrase_sig(self) -> Seq<char> {
        self.passphrase_signature@
    }

    /// The cached wallet snapshot of the session.
    pub closed spec fn spec_wallet(self) -> Option<AccountBalanceResponse> {
        self.wallet
    }

    /// A session is well formed when its passphrase signature is the one
    /// derived from its secret and passphrase: 44 base64 characters,
    /// computed once at construction and never recomputed.
    pub closed spec fn wf(self) -> bool {
        &&& self.spec_passphrase_sig() == spec_passphrase_signature(
            self.spec_api_secret(),
            self.spec_passphrase(),
        )
        &&& self.spec_passphrase_sig().len() == 44
        &&& forall|i: int|
            0 <= i < self.spec_passphrase_sig().len() ==> is_base64_char(
                #[trigger] self.spec_passphrase_sig()[i],
            )
    }

    /// Builds a session from its credentials and base URL. The
    /// passphrase signature is derived here, exactly once; the wallet
    /// starts absent until a fetch fills it.
    pub fn new(api_key: String, api_secret: String, passphrase: String, base_url: String) -> (r:
        Kucoin)
        ensures
            r.wf(),
            r.spec_api_key() == api_key@,
            r.spec_api_secret() == api_secret@,
            r.spec_passphrase() == passphrase@,
            r.spec_base_url() == base_url@,
            r.spec_wallet() is None,
    {
        let passphrase_signature = derive_passphrase_signature(
            api_secret.as_str(),
            passphrase.as_str(),
        );
        Kucoin { api_key, api_secret, passphrase, base_url, passphrase_signature, wallet: None }
    }

    /// The base URL, for the transport to build request URLs from.
    pub fn base_url(&self) -> (r: &String)
        ensures
            r@ == self.spec_base_url(),
    {
        &self.base_url
    }

    /// Builds the five authentication headers for a request signed at
    /// millisecond timestamp `ts`. Fails, with a `Signing` error, exactly
    /// when the API key cannot stand in a header value.
    pub fn create_headers_at(&self, trade_type: TradeType, request_body: &str, ts: i64) -> (r:
        Result<AuthHeaders, KucoinError>)
        requires
            self.wf(),
        ensures
            r is Ok <==> valid_header_str(self.spec_api_key()),
            r matches Err(e) ==> e == KucoinError::Signing,
            r matches Ok(h) ==> auth_headers_match(*self, trade_type, request_body@, ts as int, h),
    {
        if !is_valid_header_text(self.api_key.as_str()) {
            return Err(KucoinError::Signing);
        }
        let mut signing = i64_to_dec(ts);
        signing.append(method_literal(trade_type));
        signing.append(path_literal(trade_type));
        signing.append(request_body);
        proof {
            assert(signing@ =~= signing_string(ts as int, trade_type, request_body@));
        }
        let tag = hmac_sha256(self.api_secret.as_str(), signing.as_str());
        let sign = base64_encode(tag.as_slice());
        Ok(
            AuthHeaders {
                sign,
                timestamp: i64_to_dec(ts),
                key: self.api_key.clone(),
                passphrase: self.passphrase_signature.clone(),
                key_version: "2".to_owned(),
            },
        )
    }

    /// Builds the authentication headers for a request signed now. The
    /// clock is read once; whatever instant it gave, the headers agree
    /// with the signing string built for that same instant.
    pub fn create_headers(&self, trade_type: TradeType, request_body: &str) -> (r: Result<
        AuthHeaders,
        KucoinError,
    >)
        requires
            self.wf(),
        ensures
            r is Ok <==> valid_header_str(self.spec_api_key()),
            r matches Err(e) ==> e == KucoinError::Signing,
            r matches Ok(h) ==> exists|ts: int|
                auth_headers_match(*self, trade_type, request_body@, ts, h),
    {
        let ts = now_millis();
        let r = self.create_headers_at(trade_type, request_body, ts);
        proof {
            if r is Ok {
                assert(auth_headers_match(*self, trade_type, request_body@, ts as int, r->Ok_0));
            }
        }
        r
    }

    /// Replaces the cached wallet snapshot with the outcome of a balance
    /// fetch. A successful fetch replaces the snapshot wholesale; a
    /// failed one leaves the previous snapshot untouched and surfaces
    /// the error to the caller.
    pub fn refresh_account_balance(&mut self, outcome: Result<AccountBalanceResponse, KucoinError>)
        -> (r: Result<(), KucoinError>)
        ensures
            final(self).spec_api_key() == old(self).spec_api_key(),
            final(self).spec_api_secret() == old(self).spec_api_secret(),
            final(self).spec_passphrase() == old(self).spec_passphrase(),
            final(self).spec_base_url() == old(self).spec_base_url(),
            final(self).spec_passphrase_sig() == old(self).spec_passphrase_sig(),
            old(self).wf() ==> final(self).wf(),
            outcome matches Ok(w) ==> final(self).spec_wallet() == Some(w) && r is Ok,
            outcome matches Err(e) ==> final(self).spec_wallet() == old(self).spec_wallet() && r
                == Err::<(), KucoinError>(e),
    {
        match outcome {
            Ok(w) => {
                self.wallet = Some(w);
                Ok(())
            },
            Err(e) => Err(e),
        }
    }

    /// Builds a signed market order: validates that exactly one of size
    /// and funds is given (a `Contract` error otherwise, before anything
    /// else is done), draws a fresh client order id, forms the
    /// `TOKEN-USDT` symbol, lays out the exact JSON body, and signs it.
    /// Nothing is sent here: the transport must send `body` unchanged,
    /// since the signature covers precisely those bytes.
    pub fn create_market_order(&self, token: &str, side: OrderType, size: &str, funds: &str) -> (r:
        Result<PreparedOrder, KucoinError>)
        requires
            self.wf(),
        ensures
            r is Ok <==> self.market_order_accepted(token@, size@, funds@),
            !market_order_inputs_ok(size@, funds@) ==> r == Err::<PreparedOrder, KucoinError>(
                KucoinError::Contract,
            ),
            r matches Err(e) ==> e == self.market_order_error(token@, size@, funds@),
            r matches Ok(p) ==> self.prepared_order_ok(token@, side, size@, funds@, p),
    {
        let size_given = !size.is_empty();
        let funds_given = !funds.is_empty();
        if size_given == funds_given {
            return Err(KucoinError::Contract);
        }
        if !(is_json_plain_text(token) && is_json_plain_text(size) && is_json_plain_text(funds)) {
            return Err(KucoinError::Contract);
        }
        if !is_valid_header_text(self.api_key.as_str()) {
            return Err(KucoinError::Signing);
        }
        let oid = new_client_oid();
        let mut symbol = token.to_owned();
        symbol.append("-USDT");
        let side_text = order_side_literal(side);

        let mut body = "{\"clientOid\":\"".to_owned();
        body.append(oid.as_str());
        body.append("\",\"side\":\"");
        body.append(side_text);
        body.append("\",\"symbol\":\"");
        body.append(symbol.as_str());
        body.append("\",\"type\":\"market\",\"tradeType\":\"TRADE\",\"funds\":\"");
        body.append(funds);
        body.append("\",\"size\":\"");
        body.append(size);
        body.append("\"}");
        proof {
            assert(body@ =~= market_order_body(
                oid@,
                order_side_str(side),
                token@ + "-USDT"@,
                funds@,
                size@,
            ));
        }

        let ts = now_millis();
        let headers = match self.create_headers_at(TradeType::Trade(side), body.as_str(), ts) {
            Ok(h) => h,
            Err(_) => {
                proof {
                    assert(false);
                }
                return Err(KucoinError::Signing);
            },
        };
        let params = MarketOrderParams {
            client_oid: oid,
            side: side_text.to_owned(),
            symbol,
            typ: "market".to_owned(),
            trade_type: "TRADE".to_owned(),
            funds: funds.to_owned(),
            size: size.to_owned(),
        };
        let prepared = PreparedOrder {
            params,
            path: "/api/v1/orders".to_owned(),
            body,
            headers,
        };
        proof {
            assert(auth_headers_match(
                *self,
                TradeType::Trade(side),
                prepared.body@,
                ts as int,
                prepared.headers,
            ));
        }
        Ok(prepared)
    }

    /// The inputs on which a market order goes out: exactly one of size
    /// and funds, every text field placeable in the JSON body verbatim,
    /// and an API key that can stand in a header.
    pub open spec fn market_order_accepted(
        self,
        token: Seq<char>,
        size: Seq<char>,
        funds: Seq<char>,
    ) -> bool {
        &&& market_order_inputs_ok(size, funds)
        &&& json_plain(token)
        &&& json_plain(size)
        &&& json_plain(funds)
        &&& valid_header_str(self.spec_api_key())
    }

    /// Which error a rejected market order reports: a `Contract` error
    /// for caller-side input faults, a `Signing` error otherwise.
    pub open spec fn market_order_error(
        self,
        token: Seq<char>,
        size: Seq<char>,
        funds: Seq<char>,
    ) -> KucoinError {
        if !(market_order_inputs_ok(size, funds) && json_plain(token) && json_plain(size)
            && json_plain(funds)) {
            KucoinError::Contract
        } else {
            KucoinError::Signing
        }
    }

    /// What a successfully prepared market order holds: a fresh client
    /// order id, the requested side, the `TOKEN-USDT` symbol, the fixed
    /// kind and trade type, the caller's funds and size, the exact JSON
    /// body over those fields, the orders path, and headers signed over
    /// that body at some instant.
    pub open spec fn prepared_order_ok(
        self,
        token: Seq<char>,
        side: OrderType,
        size: Seq<char>,
        funds: Seq<char>,
        p: PreparedOrder,
    ) -> bool {
        &&& is_client_oid(p.params.client_oid@)
        &&& p.params.side@ == order_side_str(side)
        &&& p.params.symbol@ == token + "-USDT"@
        &&& p.params.typ@ == "market"@
        &&& p.params.trade_type@ == "TRADE"@
        &&& p.params.funds@ == funds
        &&& p.params.size@ == size
        &&& p.body@ == market_order_body(
            p.params.client_oid@,
            order_side_str(side),
            token + "-USDT"@,
            funds,
            size,
        )
        &&& p.path@ == path_str(TradeType::Trade(side))
        &&& exists|ts: int|
            auth_headers_match(self, TradeType::Trade(side), p.body@, ts, p.headers)
    }
}

/// Law: the canonical signing string of a request signed at instant `ts`
/// begins, character for character, with the rendering of `ts` — the very
/// text [`auth_headers_match`] requires the `kc-api-timestamp` header to
/// carry. So the timestamp a signature covers is the timestamp the
/// request presents.
pub proof fn lemma_timestamp_matches_signing_string(ts: int, t: TradeType, body: Seq<char>)
    ensures
        dec_int_str_of(ts).len() <= signing_string(ts, t, body).len(),
        signing_string(ts, t, body).subrange(0, dec_int_str_of(ts).len() as int) == dec_int_str_of(
            ts,
        ),
{
    assert(signing_string(ts, t, body).subrange(0, dec_int_str_of(ts).len() as int) =~= dec_int_str_of(
        ts,
    ));
}

} // verus!
