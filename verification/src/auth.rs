//! The key check before every call that changes a link: the API key that came
//! with the request is hashed and held against the hash in the settings
//! record. Without a key the call is turned away before the store is
//! asked anything; where the settings cannot be read, nobody gets through.

use vstd::prelude::*;
use vstd::utf8::encode_utf8;
use sha3::Digest;
use crate::error::{ServiceError, StoreFailure};
use crate::gateway::{
    reply_view, Payload, PayloadView, ReplyView, RequestView, StoreReply, StoreRequest,
};
use crate::model::{Header, HeaderView, Settings};
use crate::resolve::{get_header, header_text, header_views};

verus! {

/// The name of the header that carries the API key.
pub const API_KEY_HEADER: &'static str = "x-api-key";

/// The sixteen digits of lower-case hexadecimal.
pub open spec fn hex_digits() -> Seq<char> {
    seq!['0', '1', '2', '3', '4', '5', '6', '7', '8', '9', 'a', 'b', 'c', 'd', 'e', 'f']
}

/// Bytes in lower-case hexadecimal, two digits for each byte.
pub open spec fn hex_lower(bytes: Seq<u8>) -> Seq<char>
    decreases bytes.len(),
{
    if bytes.len() == 0 {
        Seq::empty()
    } else {
        hex_lower(bytes.drop_last()).push(hex_digits()[bytes.last() as int / 16]).push(
            hex_digits()[bytes.last() as int % 16],
        )
    }
}

/// The SHA3-256 digest of the given bytes, as `sha3::Sha3_256` computes
/// it.
pub uninterp spec fn sha3_256_digest(data: Seq<u8>) -> Seq<u8>;

/// The hash under which a key is kept: the digest of its UTF-8 bytes in
/// lower-case hexadecimal.
pub open spec fn hashed_key(api_key: Seq<char>) -> Seq<char> {
    hex_lower(sha3_256_digest(encode_utf8(api_key)))
}

/// The hexadecimal text of bytes is twice as long as the bytes.
pub proof fn lemma_hex_lower_len(bytes: Seq<u8>)
    ensures
        hex_lower(bytes).len() == 2 * bytes.len(),
    decreases bytes.len(),
{
    if bytes.len() > 0 {
        lemma_hex_lower_len(bytes.drop_last());
    }
}

/// Different bytes have different hexadecimal texts: to compare two hashes
/// as text is to compare the digests.
pub proof fn lemma_hex_lower_injective(a: Seq<u8>, b: Seq<u8>)
    requires
        hex_lower(a) == hex_lower(b),
    ensures
        a == b,
    decreases a.len(),
{
    lemma_hex_lower_len(a);
    lemma_hex_lower_len(b);
    if a.len() > 0 {
        let (a0, b0) = (a.drop_last(), b.drop_last());
        let (ha, hb) = (hex_lower(a0), hex_lower(b0));
        lemma_hex_lower_len(a0);
        lemma_hex_lower_len(b0);
        let (x, y) = (a.last() as int, b.last() as int);
        let k = 2 * a0.len() as int;
        assert(hex_lower(a)[k] == hex_digits()[x / 16]);
        assert(hex_lower(b)[k] == hex_digits()[y / 16]);
        assert(hex_lower(a)[k + 1] == hex_digits()[x % 16]);
        assert(hex_lower(b)[k + 1] == hex_digits()[y % 16]);
        assert(x / 16 == y / 16 && x % 16 == y % 16);
        assert(x == y);
        assert(ha =~= hex_lower(a).take(k));
        assert(hb =~= hex_lower(b).take(k));
        lemma_hex_lower_injective(a0, b0);
        assert(a =~= a0.push(a.last()));
        assert(b =~= b0.push(b.last()));
    } else {
        assert(a =~= b);
    }
}

/// `sha3::Digest::digest` for `Sha3_256`: the digest of the bytes, which
/// has 32 bytes.
#[verifier::external_body]
fn sha3_256(data: &[u8]) -> (digest: Vec<u8>)
    ensures
        digest@ == sha3_256_digest(data@),
        digest@.len() == 32,
{
    sha3::Sha3_256::digest(data).to_vec()
}

/// One hexadecimal digit as text.
fn hex_digit(nibble: u8) -> (digit: &'static str)
    requires
        nibble < 16,
    ensures
        digit@ == seq![hex_digits()[nibble as int]],
{
    proof {
        reveal_strlit("0");
        reveal_strlit("1");
        reveal_strlit("2");
        reveal_strlit("3");
        reveal_strlit("4");
        reveal_strlit("5");
        reveal_strlit("6");
        reveal_strlit("7");
        reveal_strlit("8");
        reveal_strlit("9");
        reveal_strlit("a");
        reveal_strlit("b");
        reveal_strlit("c");
        reveal_strlit("d");
        reveal_strlit("e");
        reveal_strlit("f");
    }
    let digit = match nibble {
        0 => "0",
        1 => "1",
        2 => "2",
        3 => "3",
        4 => "4",
        5 => "5",
        6 => "6",
        7 => "7",
        8 => "8",
        9 => "9",
        10 => "a",
        11 => "b",
        12 => "c",
        13 => "d",
        14 => "e",
        _ => "f",
    };
    assert(digit@ =~= seq![hex_digits()[nibble as int]]);
    digit
}

/// Writes bytes in lower-case hexadecimal.
pub fn to_hex_lower(bytes: &[u8]) -> (text: String)
    ensures
        text@ == hex_lower(bytes@),
        text@.len() == 2 * bytes@.len(),
{
    let mut text = String::new();
    let mut i: usize = 0;
    assert(bytes@.take(0) =~= Seq::<u8>::empty());
    while i < bytes.len()
        invariant
            i <= bytes.len(),
            text@ == hex_lower(bytes@.take(i as int)),
        decreases bytes.len() - i,
    {
        let byte = bytes[i];
        let high = hex_digit(byte / 16);
        let low = hex_digit(byte % 16);
        proof {
            let next = bytes@.take(i + 1);
            assert(next.drop_last() =~= bytes@.take(i as int));
            assert(next.last() == byte);
        }
        text.append(high);
        text.append(low);
        assert(text@ =~= hex_lower(bytes@.take(i + 1)));
        i += 1;
    }
    proof {
        assert(bytes@.take(i as int) =~= bytes@);
        lemma_hex_lower_len(bytes@);
    }
    text
}

/// The hash under which a key is kept: 64 hexadecimal digits.
pub fn credential_hash(api_key: &str) -> (hash: String)
    ensures
        hash@ == hashed_key(api_key@),
        hash@.len() == 64,
{
    let digest = sha3_256(api_key.as_bytes());
    to_hex_lower(digest.as_slice())
}

/// Whether a key is the one whose hash the settings hold.
pub fn key_matches(api_key: &str, settings: &Settings) -> (accepted: bool)
    ensures
        accepted == (hashed_key(api_key@) == settings@.encrypted_global_api_key),
{
    let hash = credential_hash(api_key);
    hash == settings.encrypted_global_api_key
}

/// Where the check of a request's API key stands.
#[derive(Clone, Debug, PartialEq, Eq)]
pub enum Authentication {
    /// The settings are to be fetched, to hold this key against them.
    Verifying { api_key: String },
    /// The key is the right one: the call goes on as it came.
    Granted,
    /// The call is turned away.
    Denied(ServiceError),
}

/// The view of an [`Authentication`].
pub enum AuthenticationView {
    Verifying { api_key: Seq<char> },
    Granted,
    Denied(ServiceError),
}

impl View for Authentication {
    type V = AuthenticationView;

    open spec fn view(&self) -> AuthenticationView {
        match *self {
            Authentication::Verifying { api_key } => AuthenticationView::Verifying {
                api_key: api_key@,
            },
            Authentication::Granted => AuthenticationView::Granted,
            Authentication::Denied(error) => AuthenticationView::Denied(error),
        }
    }
}

/// How the check begins: without the key's header the call is turned away
/// at once, and nothing is asked of the store.
pub open spec fn auth_begun(headers: Seq<HeaderView>) -> AuthenticationView {
    match header_text(headers, API_KEY_HEADER@) {
        None => AuthenticationView::Denied(ServiceError::Unauthenticated),
        Some(api_key) => AuthenticationView::Verifying { api_key },
    }
}

impl AuthenticationView {
    /// The request that is to be sent next, if the check has not ended.
    pub open spec fn request(self) -> Option<RequestView> {
        match self {
            AuthenticationView::Verifying { .. } => Some(RequestView::FetchGlobalSettings),
            _ => None,
        }
    }

    /// The check after the store's reply. With the settings at hand the
    /// key passes if and only if its hash is the one they hold. Without
    /// them, for whatever reason, the call is turned away as a failure of
    /// the store.
    pub open spec fn resumed(self, reply: ReplyView) -> AuthenticationView {
        match self {
            AuthenticationView::Verifying { api_key } => match reply {
                Ok(PayloadView::Settings(settings)) => if hashed_key(api_key)
                    == settings.encrypted_global_api_key {
                    AuthenticationView::Granted
                } else {
                    AuthenticationView::Denied(ServiceError::Unauthenticated)
                },
                Ok(_) => AuthenticationView::Denied(
                    ServiceError::InfrastructureFailure { cause: StoreFailure::StoreError },
                ),
                Err(cause) => AuthenticationView::Denied(
                    ServiceError::InfrastructureFailure { cause },
                ),
            },
            _ => self,
        }
    }
}

/// Begins the check of the API key that came with a request.
pub fn auth(headers: &Vec<Header>) -> (check: Authentication)
    ensures
        check@ == auth_begun(header_views(headers@)),
{
    match get_header(API_KEY_HEADER, headers) {
        None => Authentication::Denied(ServiceError::Unauthenticated),
        Some(api_key) => Authentication::Verifying { api_key },
    }
}

impl Authentication {
    /// The request that is to be sent next, if the check has not ended.
    pub fn request(&self) -> (request: Option<StoreRequest>)
        ensures
            match request {
                Some(r) => self@.request() == Some(r@),
                None => self@.request() is None,
            },
    {
        match self {
            Authentication::Verifying { .. } => Some(StoreRequest::FetchGlobalSettings),
            _ => None,
        }
    }

    /// Takes the store's reply to the fetch of the settings.
    pub fn resume(self, reply: StoreReply) -> (next: Authentication)
        ensures
            next@ == self@.resumed(reply_view(reply)),
    {
        match self {
            Authentication::Verifying { api_key } => match reply {
                Ok(Payload::Settings(settings)) => if key_matches(api_key.as_str(), &settings) {
                    Authentication::Granted
                } else {
                    Authentication::Denied(ServiceError::Unauthenticated)
                },
                Ok(_) => Authentication::Denied(
                    ServiceError::InfrastructureFailure { cause: StoreFailure::StoreError },
                ),
                Err(cause) => Authentication::Denied(
                    ServiceError::InfrastructureFailure { cause },
                ),
            },
            other => other,
        }
    }
}

} // verus!
