use vstd::prelude::*;
use base64::Engine;
use base64::engine::general_purpose::STANDARD;
use hmac_sha256::HMAC;
use vstd::string::StringSliceAdditionalSpecFns;

use crate::web::joined_url;
use crate::web::url_join;
use crate::text::signed_decimal;
use crate::text::i32_string;

verus! {

/// The status code of a successful SwitchBot API reply.
pub const SUCCESS_STATUS: i32 = 100;

/// HMAC-SHA256 of `message` under `key` (32 bytes).
pub uninterp spec fn hmac_sha256(key: Seq<u8>, message: Seq<u8>) -> Seq<u8>;

/// The character of a six-bit value in the standard Base64 alphabet
/// (RFC 4648: `A-Z`, `a-z`, `0-9`, `+`, `/`).
pub open spec fn base64_char(v: int) -> char {
    if v < 26 {
        ('A' as int + v) as char
    } else if v < 52 {
        ('a' as int + (v - 26)) as char
    } else if v < 62 {
        ('0' as int + (v - 52)) as char
    } else if v == 62 {
        '+'
    } else {
        '/'
    }
}

/// Standard Base64 (RFC 4648 alphabet, padded with `=`) of `bytes`: each
/// group of three bytes becomes four characters, six bits each.
pub open spec fn base64_standard(bytes: Seq<u8>) -> Seq<char>
    decreases bytes.len(),
{
    if bytes.len() == 0 {
        seq![]
    } else if bytes.len() == 1 {
        seq![base64_char((bytes[0] as int) / 4), base64_char(((bytes[0] as int) % 4) * 16), '=', '=']
    } else if bytes.len() == 2 {
        seq![
            base64_char((bytes[0] as int) / 4),
            base64_char(((bytes[0] as int) % 4) * 16 + (bytes[1] as int) / 16),
            base64_char(((bytes[1] as int) % 16) * 4),
            '=',
        ]
    } else {
        seq![
            base64_char((bytes[0] as int) / 4),
            base64_char(((bytes[0] as int) % 4) * 16 + (bytes[1] as int) / 16),
            base64_char(((bytes[1] as int) % 16) * 4 + (bytes[2] as int) / 64),
            base64_char((bytes[2] as int) % 64),
        ] + base64_standard(bytes.subrange(3, bytes.len() as int))
    }
}

/// Calls `hmac_sha256::HMAC::mac(message, key)`. Its result is named by
/// `hmac_sha256`.
#[verifier::external_body]
fn hmac_mac(message: &[u8], key: &[u8]) -> (mac: [u8; 32])
    ensures
        mac@ == hmac_sha256(key@, message@),
{
    HMAC::mac(message, key)
}

/// Calls `base64::Engine::encode` on the `STANDARD` engine: the padded
/// standard Base64 of the bytes, as `base64_standard` spells it out.
#[verifier::external_body]
fn base64_encode(bytes: &[u8]) -> (text: String)
    requires
        bytes@.len() <= usize::MAX / 2,
    ensures
        text@ == base64_standard(bytes@),
{
    STANDARD.encode(bytes)
}

/// Appends the bytes of `s` to `out`.
fn append_bytes(out: &mut Vec<u8>, s: &str)
    ensures
        final(out)@ == old(out)@ + s.spec_bytes(),
{
    let b = s.as_bytes();
    let mut i: usize = 0;
    while i < b.len()
        invariant
            i <= b@.len(),
            b@ == s.spec_bytes(),
            out@ == old(out)@ + b@.take(i as int),
        decreases b@.len() - i,
    {
        out.push(b[i]);
        assert(b@.take(i + 1) =~= b@.take(i as int).push(b@[i as int]));
        i = i + 1;
    }
    assert(b@.take(b@.len() as int) =~= b@);
}

/// The request signature: Base64 of the HMAC-SHA256 of token, timestamp and
/// nonce (concatenated) under the secret.
pub open spec fn signature_spec(token: &str, secret: &str, t: &str, nonce: &str) -> Seq<char> {
    base64_standard(
        hmac_sha256(secret.spec_bytes(), token.spec_bytes() + t.spec_bytes() + nonce.spec_bytes()),
    )
}

/// The signature is the padded standard Base64 of the HMAC-SHA256 keyed with
/// the secret's bytes over the token, the timestamp and the nonce, in that
/// order; the error texts name the device and, for an API error, the status
/// code and message.
pub proof fn lemma_signature_and_error_texts(
    token: &str,
    secret: &str,
    t: &str,
    nonce: &str,
    device_id: Seq<char>,
    status_code: i32,
    message: String,
)
    ensures
        signature_spec(token, secret, t, nonce) == base64_standard(
            hmac_sha256(secret.spec_bytes(), token.spec_bytes() + t.spec_bytes() + nonce.spec_bytes()),
        ),
        switchbot_error_text(SwitchBotError::Api { status_code, message }, device_id)
            == "SwitchBot API error for device "@ + device_id + ": "@ + signed_decimal(
            status_code as int,
        ) + " "@ + message@,
        switchbot_error_text(SwitchBotError::NoSensorData, device_id)
            == "SwitchBot API did not return WoIOSensor data for device "@ + device_id,
{
}

/// Signs a request: Base64 of HMAC-SHA256(token ++ t ++ nonce) keyed with the
/// secret.
pub fn sign(token: &str, secret: &str, t: &str, nonce: &str) -> (signature: String)
    ensures
        signature@ == signature_spec(token, secret, t, nonce),
{
    let mut message: Vec<u8> = Vec::new();
    append_bytes(&mut message, token);
    append_bytes(&mut message, t);
    append_bytes(&mut message, nonce);
    assert(message@ =~= token.spec_bytes() + t.spec_bytes() + nonce.spec_bytes());
    let mac = hmac_mac(message.as_slice(), secret.as_bytes());
    base64_encode(&mac)
}

/// The headers that authenticate a request: the token, the timestamp in
/// milliseconds, a one-time nonce, and the signature of the three.
pub fn auth_headers(token: &str, secret: &str, t: &str, nonce: &str) -> (headers: Vec<
    (&'static str, String),
>)
    ensures
        headers@.len() == 4,
        headers@[0].0@ == "Authorization"@ && headers@[0].1@ == token@,
        headers@[1].0@ == "t"@ && headers@[1].1@ == t@,
        headers@[2].0@ == "nonce"@ && headers@[2].1@ == nonce@,
        headers@[3].0@ == "sign"@ && headers@[3].1@ == signature_spec(token, secret, t, nonce),
{
    let signature = sign(token, secret, t, nonce);
    let mut headers: Vec<(&'static str, String)> = Vec::new();
    headers.push(("Authorization", token.to_owned()));
    headers.push(("t", t.to_owned()));
    headers.push(("nonce", nonce.to_owned()));
    headers.push(("sign", signature));
    headers
}

/// The path, relative to the API base, of a device's status.
pub open spec fn device_status_path_spec(device_id: Seq<char>) -> Seq<char> {
    "devices/"@ + device_id + "/status"@
}

/// The path, relative to the API base, of a device's status.
pub fn device_status_path(device_id: &str) -> (path: String)
    ensures
        path@ == device_status_path_spec(device_id@),
{
    String::from_str("devices/").concat(device_id).concat("/status")
}

/// Where the SwitchBot API serves its requests from.
pub const SWITCHBOT_BASE_URL: &'static str = "https://api.switch-bot.com/v1.1/";

/// The URL of a device's status: its path joined onto the API base URL, or
/// `None` when they do not form a URL.
pub fn device_status_url(base: &str, device_id: &str) -> (url: Option<String>)
    ensures
        url is Some <==> joined_url(base@, device_status_path_spec(device_id@)) is Some,
        url matches Some(u) ==> joined_url(base@, device_status_path_spec(device_id@)) == Some(
            u@,
        ),
{
    let path = device_status_path(device_id);
    url_join(base, path.as_str())
}

/// A device's status lives at `devices/{id}/status` under
/// `https://api.switch-bot.com/v1.1/`, and a reply is successful when its
/// status code is 100.
pub proof fn lemma_switchbot_api_texts(device_id: Seq<char>)
    ensures
        device_status_path_spec(device_id) == "devices/"@ + device_id + "/status"@,
        SWITCHBOT_BASE_URL@ == "https://api.switch-bot.com/v1.1/"@,
        SUCCESS_STATUS == 100,
{
}

/// Why a device's reading could not be had from an API reply.
#[derive(Debug)]
pub enum SwitchBotError {
    /// The API answered with an error status.
    Api { status_code: i32, message: String },
    /// The reply carried no sensor reading.
    NoSensorData,
}

/// The text of an error for device `device_id`.
pub open spec fn switchbot_error_text(e: SwitchBotError, device_id: Seq<char>) -> Seq<char> {
    match e {
        SwitchBotError::Api { status_code, message } => "SwitchBot API error for device "@
            + device_id + ": "@ + signed_decimal(status_code as int) + " "@ + message@,
        SwitchBotError::NoSensorData => "SwitchBot API did not return WoIOSensor data for device "@
            + device_id,
    }
}

impl SwitchBotError {
    /// The error's text for device `device_id`.
    pub fn message(&self, device_id: &str) -> (s: String)
        ensures
            s@ == switchbot_error_text(*self, device_id@),
    {
        match self {
            SwitchBotError::Api { status_code, message } => String::from_str(
                "SwitchBot API error for device ",
            ).concat(device_id).concat(": ").concat(i32_string(*status_code).as_str()).concat(
                " ",
            ).concat(message.as_str()),
            SwitchBotError::NoSensorData => String::from_str(
                "SwitchBot API did not return WoIOSensor data for device ",
            ).concat(device_id),
        }
    }
}

/// The sensor reading of an API reply: an error status is an error, and a
/// successful reply without a reading is an error too.
pub fn sensor_from_response<T>(status_code: i32, message: String, body: Option<T>) -> (r: Result<
    T,
    SwitchBotError,
>)
    ensures
        status_code != SUCCESS_STATUS ==> r == Err::<T, SwitchBotError>(
            SwitchBotError::Api { status_code, message },
        ),
        status_code == SUCCESS_STATUS ==> r == match body {
            Some(b) => Ok::<T, SwitchBotError>(b),
            None => Err(SwitchBotError::NoSensorData),
        },
{
    if status_code != SUCCESS_STATUS {
        return Err(SwitchBotError::Api { status_code, message });
    }
    match body {
        Some(b) => Ok(b),
        None => Err(SwitchBotError::NoSensorData),
    }
}

} // verus!
