//! Checkout links of the payment service: the request, encoded and signed
//! with the private key of the account.

use vstd::prelude::*;
use vstd::string::StringExecFns;
use vstd::utf8::encode_utf8;
use crate::payment_buttons::Action;
use crate::payment_buttons::Currency;
use crate::payment_buttons::Language;
use crate::payment_buttons::SubscribePeriod;
use crate::text::decimal;
use crate::text::push_decimal;

verus! {

/// The version of the payment service's interface.
pub const API_VERSION: usize = 3;

/// The SHA-1 digest of a message, as the `sha1` crate computes it.
pub uninterp spec fn sha1_of(message: Seq<u8>) -> Seq<u8>;

/// The base64 text of bytes, in the standard alphabet and padded, as the
/// `base64` crate writes it.
pub uninterp spec fn base64_of(bytes: Seq<u8>) -> Seq<char>;

/// `Sha1::digest` of the `sha1` crate: the digest of the message, which has
/// 20 bytes.
#[verifier::external_body]
fn sha1_digest(message: &[u8]) -> (digest: Vec<u8>)
    ensures
        digest@ == sha1_of(message@),
        digest@.len() == 20,
{
    <sha1::Sha1 as sha1::Digest>::digest(message).to_vec()
}

/// `Engine::encode` of the `base64` crate, on its `STANDARD` engine: the
/// base64 text of the bytes. It is not called with more bytes than it can
/// encode into a text whose length fits in `usize`.
#[verifier::external_body]
fn base64_encode(bytes: &[u8]) -> (encoded: String)
    requires
        can_encode(bytes@.len()),
    ensures
        encoded@ == base64_of(bytes@),
{
    base64::Engine::encode(&base64::engine::general_purpose::STANDARD, bytes)
}

/// Whether the base64 text of `length` bytes has a length that fits in
/// `usize`.
pub open spec fn can_encode(length: nat) -> bool {
    (length / 3) * 4 + 4 <= usize::MAX
}

/// The base64 text of the UTF-8 bytes of a text.
pub open spec fn encoded_text(text: Seq<char>) -> Seq<char> {
    base64_of(encode_utf8(text))
}

/// The signature of `data` under `private_key`: the base64 text of the SHA-1
/// digest of the data with the key before and after it.
pub open spec fn signature_text(private_key: Seq<char>, data: Seq<char>) -> Seq<char> {
    base64_of(sha1_of(encode_utf8(private_key + data + private_key)))
}

/// The address of the checkout page for encoded `data` and its `signature`.
pub open spec fn checkout_address(data: Seq<char>, signature: Seq<char>) -> Seq<char> {
    "https://www.liqpay.ua/api/"@ + decimal(API_VERSION as nat) + "/checkout?data="@ + data
        + "&signature="@ + signature
}

/// The address of the checkout page for a request written as JSON, signed
/// with `private_key`.
pub open spec fn link_text(private_key: Seq<char>, request_json: Seq<char>) -> Seq<char> {
    checkout_address(
        encoded_text(request_json),
        signature_text(private_key, encoded_text(request_json)),
    )
}

/// The address of the checkout page for encoded `data` and its `signature`.
pub fn checkout_url(data: &str, signature: &str) -> (url: String)
    ensures
        url@ == checkout_address(data@, signature@),
{
    let mut url = "https://www.liqpay.ua/api/".to_owned();
    push_decimal(&mut url, API_VERSION);
    url.append("/checkout?data=");
    url.append(data);
    url.append("&signature=");
    url.append(signature);
    assert(url@ =~= checkout_address(data@, signature@));
    url
}

/// What a checkout asks for beyond the payment itself.
#[derive(Clone, Debug, PartialEq, Eq)]
pub enum CheckoutTerms {
    /// A payment repeated every `subscribe_periodicity`, from
    /// `subscribe_date_start` on.
    Subscription { subscribe: usize, subscribe_periodicity: SubscribePeriod, subscribe_date_start: String },
    /// A single payment.
    Pay,
}

/// The terms of a checkout that starts `action` at the time written as
/// `now`: a monthly subscription from now on for `Subscribe`, a single
/// payment for any other action.
pub fn checkout_terms(action: Action, now: String) -> (terms: CheckoutTerms)
    ensures
        action == Action::Subscribe ==> terms == (CheckoutTerms::Subscription {
            subscribe: 1,
            subscribe_periodicity: SubscribePeriod::Month,
            subscribe_date_start: now,
        }),
        action != Action::Subscribe ==> terms == CheckoutTerms::Pay,
{
    match action {
        Action::Subscribe => CheckoutTerms::Subscription {
            subscribe: 1,
            subscribe_periodicity: SubscribePeriod::Month,
            subscribe_date_start: now,
        },
        Action::Pay | Action::PayDonate => CheckoutTerms::Pay,
    }
}

/// An account with the payment service.
pub struct HttpAPI {
    public_key: String,
    private_key: String,
}

impl HttpAPI {
    /// The public key of the account.
    pub closed spec fn public_key_text(&self) -> Seq<char> {
        self.public_key@
    }

    /// The private key of the account.
    pub closed spec fn private_key_text(&self) -> Seq<char> {
        self.private_key@
    }

    /// The account with the given keys.
    pub fn new(public_key: String, private_key: String) -> (account: Self)
        ensures
            account.public_key_text() == public_key@,
            account.private_key_text() == private_key@,
    {
        Self { public_key, private_key }
    }

    /// The public key of the account.
    pub fn public_key(&self) -> (key: &str)
        ensures
            key@ == self.public_key_text(),
    {
        self.public_key.as_str()
    }

    /// The signature of `data` under the private key of the account.
    pub fn signature(&self, data: &str) -> (signature: String)
        ensures
            signature@ == signature_text(self.private_key_text(), data@),
    {
        let mut message = self.private_key.clone();
        message.append(data);
        message.append(self.private_key.as_str());
        assert(message@ =~= self.private_key@ + data@ + self.private_key@);
        let digest = sha1_digest(message.as_str().as_bytes());
        base64_encode(digest.as_slice())
    }

    /// The address of the checkout page for a request written as JSON.
    pub fn link(&self, request_json: &str) -> (url: String)
        requires
            can_encode(encode_utf8(request_json@).len()),
        ensures
            url@ == link_text(self.private_key_text(), request_json@),
    {
        let data = base64_encode(request_json.as_bytes());
        let signature = self.signature(data.as_str());
        checkout_url(data.as_str(), signature.as_str())
    }

    /// The address of the checkout page for a request written as JSON, or
    /// `None` where the request is too long to be encoded.
    pub fn try_link(&self, request_json: &str) -> (url: Option<String>)
        ensures
            match url {
                Some(address) => can_encode(encode_utf8(request_json@).len()) && address@
                    == link_text(self.private_key_text(), request_json@),
                None => !can_encode(encode_utf8(request_json@).len()),
            },
    {
        if request_json.as_bytes().len() / 3 <= (usize::MAX - 4) / 4 {
            Some(self.link(request_json))
        } else {
            None
        }
    }
}

/// The fields of a checkout request that is written as a flat JSON object
/// of texts: the account, the payment, and for a subscription its terms.
pub open spec fn request_fields(
    public_key: Seq<char>,
    amount: Seq<char>,
    language: Language,
    currency: Currency,
    action: Action,
    description: Seq<char>,
    subscribe_date_start: Seq<char>,
) -> Seq<(Seq<char>, Seq<char>)> {
    let payment = seq![
        ("public_key"@, public_key),
        ("language"@, language.code_text()),
        ("version"@, decimal(API_VERSION as nat)),
        ("amount"@, amount),
        ("currency"@, currency.code_text()),
        ("description"@, description),
        ("action"@, action.value_text()),
        ("order_id"@, Seq::<char>::empty()),
    ];
    if action == Action::Subscribe {
        payment + seq![
            ("subscribe"@, decimal(1)),
            ("subscribe_periodicity"@, SubscribePeriod::Month.name_text()),
            ("subscribe_date_start"@, subscribe_date_start),
        ]
    } else {
        payment
    }
}

/// The names and values of fields as texts.
pub open spec fn fields_text(fields: Seq<(String, String)>) -> Seq<(Seq<char>, Seq<char>)> {
    Seq::new(fields.len(), |i: int| (fields[i].0@, fields[i].1@))
}

/// The text that stands in place of a link where the request could not be
/// written as JSON.
pub open spec fn error_link() -> Seq<char> {
    "#error"@
}

/// An account with the payment service that writes its requests as flat JSON
/// objects of texts.
pub struct LiqPayClient {
    account: HttpAPI,
}

impl LiqPayClient {
    /// The public key of the account.
    pub closed spec fn public_key_text(&self) -> Seq<char> {
        self.account.public_key_text()
    }

    /// The private key of the account.
    pub closed spec fn private_key_text(&self) -> Seq<char> {
        self.account.private_key_text()
    }

    /// The account with the given keys.
    pub fn new(public_key: String, private_key: String) -> (client: LiqPayClient)
        ensures
            client.public_key_text() == public_key@,
            client.private_key_text() == private_key@,
    {
        LiqPayClient { account: HttpAPI::new(public_key, private_key) }
    }

    /// The fields of the request for a payment of `amount`; a subscription
    /// starts at the time written as `subscribe_date_start`.
    pub fn request_parameters(
        &self,
        amount: &str,
        language: &Language,
        currency: &Currency,
        action: &Action,
        description: &str,
        subscribe_date_start: &str,
    ) -> (fields: Vec<(String, String)>)
        ensures
            fields_text(fields@) == request_fields(
                self.public_key_text(),
                amount@,
                *language,
                *currency,
                *action,
                description@,
                subscribe_date_start@,
            ),
    {
        let mut version = String::new();
        push_decimal(&mut version, API_VERSION);
        assert(version@ =~= decimal(API_VERSION as nat));
        let mut fields: Vec<(String, String)> = Vec::new();
        fields.push(("public_key".to_owned(), self.account.public_key().to_owned()));
        fields.push(("language".to_owned(), language.as_string()));
        fields.push(("version".to_owned(), version));
        fields.push(("amount".to_owned(), amount.to_owned()));
        fields.push(("currency".to_owned(), currency.as_string()));
        fields.push(("description".to_owned(), description.to_owned()));
        fields.push(("action".to_owned(), action.value()));
        fields.push(("order_id".to_owned(), String::new()));
        if action.is_subscription() {
            let mut one = String::new();
            push_decimal(&mut one, 1);
            assert(one@ =~= decimal(1));
            fields.push(("subscribe".to_owned(), one));
            fields.push(("subscribe_periodicity".to_owned(), SubscribePeriod::Month.as_string()));
            fields.push(("subscribe_date_start".to_owned(), subscribe_date_start.to_owned()));
        }
        assert(fields_text(fields@) =~= request_fields(
            self.public_key_text(),
            amount@,
            *language,
            *currency,
            *action,
            description@,
            subscribe_date_start@,
        ));
        fields
    }

    /// The address of the checkout page for a request written as JSON, or
    /// "#error" where the request could not be written.
    pub fn link_for(&self, request_json: Option<&str>) -> (url: String)
        requires
            request_json matches Some(json) ==> can_encode(encode_utf8(json@).len()),
        ensures
            url@ == match request_json {
                Some(json) => link_text(self.private_key_text(), json@),
                None => error_link(),
            },
    {
        match request_json {
            Some(json) => self.account.link(json),
            None => "#error".to_owned(),
        }
    }
}

} // verus!
