//! The crate's boundary with outside code: declarations of outside
//! types and small trusted wrappers around the outside calls the
//! library relies on. Everything behind `external_body` here is
//! believed, not verified; each wrapper names the call it stands for.

use vstd::prelude::*;
use std::io::Write;

verus! {

/// Declares totp_rs's TOTP so that it can sit in a field.
#[verifier::external_type_specification]
#[verifier::external_body]
pub struct ExTotp(totp_rs::TOTP);

/// Declares totp_rs's URL validation error type.
#[verifier::external_type_specification]
#[verifier::external_body]
pub struct ExTotpUrlError(totp_rs::TotpUrlError);

/// Declares totp_rs's secret parsing error type.
#[verifier::external_type_specification]
#[verifier::external_body]
pub struct ExSecretParseError(totp_rs::SecretParseError);

/// Declares std's system clock error type.
#[verifier::external_type_specification]
#[verifier::external_body]
pub struct ExSystemTimeError(std::time::SystemTimeError);

/// Declares the error type of the operating system's randomness source.
#[verifier::external_type_specification]
#[verifier::external_body]
pub struct ExOsError(rand::rand_core::OsError);

/// Declares image's error type.
#[verifier::external_type_specification]
#[verifier::external_body]
pub struct ExImageError(image::ImageError);

/// Declares base64's decoding error type.
#[verifier::external_type_specification]
#[verifier::external_body]
pub struct ExDecodeError(base64::DecodeError);

/// The view of an optional string.
pub open spec fn spec_opt_str_view(o: Option<String>) -> Option<Seq<char>> {
    match o {
        Some(s) => Some(s@),
        None => None,
    }
}

/// A TOTP generator together with the plain values it was created
/// from. The inner generator is opaque to verification; the other
/// fields mirror the arguments of the one constructor,
/// [`totp_new_sha512`], which is the only maker of such handles, and
/// whose algorithm is always SHA-512.
pub struct TotpHandle {
    totp: totp_rs::TOTP,
    digits: usize,
    skew: u8,
    step: u64,
    secret: Vec<u8>,
    issuer: Option<String>,
    account_name: String,
}

impl TotpHandle {
    /// The number of digits of every code this generator produces.
    pub closed spec fn spec_digits(&self) -> usize {
        self.digits
    }

    /// The permitted network-delay steps the generator was created with.
    pub closed spec fn spec_skew(&self) -> u8 {
        self.skew
    }

    /// The step duration, in seconds, the generator was created with.
    pub closed spec fn spec_step(&self) -> u64 {
        self.step
    }

    /// The secret bytes the generator was created with.
    pub closed spec fn spec_secret(&self) -> Seq<u8> {
        self.secret@
    }

    /// The issuer the generator was created with.
    pub closed spec fn spec_issuer(&self) -> Option<Seq<char>> {
        spec_opt_str_view(self.issuer)
    }

    /// The account name the generator was created with.
    pub closed spec fn spec_account(&self) -> Seq<char> {
        self.account_name@
    }
}

/// Relies on totp_rs::TOTP::new with the SHA-512 algorithm: it returns
/// a generator exactly when the digit count lies between 6 and 8, the
/// secret is at least 16 bytes, and neither issuer nor account name
/// contains a colon; the handle records the creation parameters.
#[verifier::external_body]
pub(crate) fn totp_new_sha512(
    digits: usize,
    skew: u8,
    step: u64,
    secret: Vec<u8>,
    issuer: Option<String>,
    account_name: String,
) -> (r: Result<TotpHandle, totp_rs::TotpUrlError>)
    ensures
        r is Ok <==> {
            &&& 6 <= digits <= 8
            &&& secret@.len() >= 16
            &&& (issuer matches Some(s) ==> !s@.contains(':'))
            &&& !account_name@.contains(':')
        },
        r matches Ok(h) ==> {
            &&& h.spec_digits() == digits
            &&& h.spec_skew() == skew
            &&& h.spec_step() == step
            &&& h.spec_secret() == secret@
            &&& h.spec_issuer() == spec_opt_str_view(issuer)
            &&& h.spec_account() == account_name@
        },
{
    let alg = totp_rs::Algorithm::SHA512;
    let (s2, i2, a2) = (secret.clone(), issuer.clone(), account_name.clone());
    match totp_rs::TOTP::new(alg, digits, skew, step, secret, issuer, account_name) {
        Ok(t) => Ok(
            TotpHandle { totp: t, digits, skew, step, secret: s2, issuer: i2, account_name: a2 },
        ),
        Err(e) => Err(e),
    }
}

/// The code that a SHA-512 TOTP generator with the given digit count
/// and secret produces for a given time-step counter.
pub uninterp spec fn sha512_code_of(digits: int, secret: Seq<u8>, counter: int) -> Seq<char>;

/// Relies on totp_rs::TOTP::generate: the code is a zero-padded decimal
/// string of exactly the generator's digit count, and a function of the
/// digit count, the secret and the time-step counter `time / step`
/// alone. The step must be nonzero (the counter division would panic)
/// and the digit count at most nine (a wider code would overflow the
/// truncation).
#[verifier::external_body]
pub(crate) fn totp_generate_at(h: &TotpHandle, time: u64) -> (r: String)
    requires
        1 <= h.spec_digits() <= 9,
        h.spec_step() >= 1,
    ensures
        r@.len() == h.spec_digits(),
        forall|i: int| 0 <= i < r@.len() ==> '0' <= #[trigger] r@[i] <= '9',
        r@ == sha512_code_of(
            h.spec_digits() as int,
            h.spec_secret(),
            time as int / h.spec_step() as int,
        ),
{
    h.totp.generate(time)
}

/// Relies on std::time::SystemTime::now and duration_since: the current
/// Unix time in whole seconds, or an error when the clock stands before
/// the epoch. No two readings are related.
#[verifier::external_body]
pub(crate) fn now_unix() -> (r: Result<u64, std::time::SystemTimeError>) {
    match std::time::SystemTime::now().duration_since(std::time::UNIX_EPOCH) {
        Ok(d) => Ok(d.as_secs()),
        Err(e) => Err(e),
    }
}

/// Whether a character belongs to the standard base64 alphabet or is
/// its padding character.
pub open spec fn spec_is_base64_char(c: char) -> bool {
    ('A' <= c && c <= 'Z') || ('a' <= c && c <= 'z') || ('0' <= c && c <= '9') || c == '+' || c
        == '/' || c == '='
}

/// Whether the QR rendering of a SHA-512 otpauth URL with the given
/// parameters succeeds. The URL, and with it the QR code, does not
/// depend on the skew.
pub uninterp spec fn qr_ok_of(
    digits: int,
    step: int,
    secret: Seq<u8>,
    issuer: Option<Seq<char>>,
    account: Seq<char>,
) -> bool;

/// The base64-encoded PNG of the QR code for a SHA-512 otpauth URL
/// with the given parameters.
pub uninterp spec fn qr_base64_of(
    digits: int,
    step: int,
    secret: Seq<u8>,
    issuer: Option<Seq<char>>,
    account: Seq<char>,
) -> Seq<char>;

/// Relies on totp_rs::TOTP::get_qr_base64: the result is the
/// standard-alphabet base64 encoding of a PNG rendering of the setup
/// URL, a deterministic function of the generator's URL fields (the
/// digit count, the step, the secret and the labels; the algorithm is
/// SHA-512 for every handle, and the skew is not part of the URL).
#[verifier::external_body]
pub(crate) fn totp_qr_base64(h: &TotpHandle) -> (r: Result<String, String>)
    ensures
        r is Ok <==> qr_ok_of(
            h.spec_digits() as int,
            h.spec_step() as int,
            h.spec_secret(),
            h.spec_issuer(),
            h.spec_account(),
        ),
        r matches Ok(s) ==> s@ == qr_base64_of(
            h.spec_digits() as int,
            h.spec_step() as int,
            h.spec_secret(),
            h.spec_issuer(),
            h.spec_account(),
        ),
        r matches Ok(s) ==> forall|i: int|
            0 <= i < s@.len() ==> spec_is_base64_char(#[trigger] s@[i]),
{
    h.totp.get_qr_base64()
}

/// Relies on totp_rs::Secret::to_bytes: for the raw variant it returns
/// the bytes unchanged.
#[verifier::external_body]
pub(crate) fn secret_raw_to_bytes(raw: Vec<u8>) -> (r: Result<Vec<u8>, totp_rs::SecretParseError>)
    ensures
        r is Ok,
        r matches Ok(b) ==> b@ == raw@,
{
    totp_rs::Secret::Raw(raw).to_bytes()
}

/// Relies on rand's OsRng::try_fill_bytes: on success the whole buffer
/// has been filled from the operating system's randomness source.
#[verifier::external_body]
pub(crate) fn os_random_bytes(n: usize) -> (r: Result<Vec<u8>, rand::rand_core::OsError>)
    ensures
        r matches Ok(b) ==> b@.len() == n,
{
    let mut buf: Vec<u8> = Vec::new();
    buf.resize(n, 0u8);
    match rand::TryRngCore::try_fill_bytes(&mut rand::rngs::OsRng, &mut buf) {
        Ok(()) => Ok(buf),
        Err(e) => Err(e),
    }
}

/// The string that lossy UTF-8 decoding produces from a byte sequence.
pub uninterp spec fn lossy_of(b: Seq<u8>) -> Seq<char>;

/// Relies on String::from_utf8_lossy: the result is a function of the
/// bytes alone; every decoded character or replacement consumes at
/// least one input byte, and a non-empty input decodes to a non-empty
/// string.
#[verifier::external_body]
pub(crate) fn utf8_lossy(b: &[u8]) -> (r: String)
    ensures
        r@ == lossy_of(b@),
        r@.len() <= b@.len(),
        b@.len() >= 1 ==> r@.len() >= 1,
{
    String::from_utf8_lossy(b).to_string()
}

/// Whether base64's standard-alphabet decode accepts an input.
pub uninterp spec fn b64_ok_of(s: Seq<char>) -> bool;

/// The byte sequence that base64's standard-alphabet decode produces
/// from a well-formed input.
pub uninterp spec fn b64_decode_of(s: Seq<char>) -> Seq<u8>;

/// Relies on base64's standard-alphabet engine: whether decoding
/// succeeds, and what it yields, are functions of the input characters
/// alone.
#[verifier::external_body]
pub(crate) fn b64_decode(s: &str) -> (r: Result<Vec<u8>, base64::DecodeError>)
    ensures
        r is Ok <==> b64_ok_of(s@),
        r matches Ok(b) ==> b@ == b64_decode_of(s@),
{
    base64::Engine::decode(&base64::engine::general_purpose::STANDARD, s)
}

/// Whether the bytes decode as an image.
pub uninterp spec fn png_decode_ok_of(bytes: Seq<u8>) -> bool;

/// The grayscale raster (width, height, row-major samples) decoded
/// from an encoded image.
pub uninterp spec fn luma_of(bytes: Seq<u8>) -> (nat, nat, Seq<u8>);

/// Relies on image::load_from_memory followed by
/// image::DynamicImage::to_luma8: decoding is a deterministic function
/// of the bytes, and the grayscale buffer holds exactly width times
/// height one-byte samples in row-major order.
#[verifier::external_body]
pub(crate) fn decode_image_luma(bytes: &[u8]) -> (r: Result<(u32, u32, Vec<u8>), image::ImageError>)
    ensures
        r is Ok <==> png_decode_ok_of(bytes@),
        r matches Ok(t) ==> (t.0 as nat, t.1 as nat, t.2@) == luma_of(bytes@),
        r matches Ok(t) ==> t.2@.len() == t.0 * t.1,
{
    let img = image::load_from_memory(bytes)?;
    let g = img.to_luma8();
    Ok((g.width(), g.height(), g.into_raw()))
}

/// Whether the bytes decode as an image that the PNG encoder then
/// accepts.
pub uninterp spec fn png_reencode_ok_of(bytes: Seq<u8>) -> bool;

/// The PNG re-encoding of the image decoded from the bytes.
pub uninterp spec fn png_reencoded_of(bytes: Seq<u8>) -> Seq<u8>;

/// Relies on image::load_from_memory followed by
/// image::DynamicImage::write_to with the PNG format: on success the
/// buffer holds a complete PNG encoding of the decoded image, a
/// deterministic function of the bytes.
#[verifier::external_body]
pub(crate) fn png_reencode(bytes: &[u8]) -> (r: Result<Vec<u8>, image::ImageError>)
    ensures
        r is Ok <==> png_reencode_ok_of(bytes@),
        r matches Ok(b) ==> b@ == png_reencoded_of(bytes@),
{
    let img = image::load_from_memory(bytes)?;
    let mut buffer: Vec<u8> = Vec::new();
    let mut cursor = std::io::Cursor::new(&mut buffer);
    match img.write_to(&mut cursor, image::ImageFormat::Png) {
        Ok(()) => Ok(buffer),
        Err(e) => Err(e),
    }
}

/// Whether char::is_alphanumeric holds of a character.
pub uninterp spec fn char_alnum_of(c: char) -> bool;

/// Relies on char::is_alphanumeric: the result depends on the character
/// alone; ASCII letters and digits are alphanumeric, while the space,
/// the shade glyphs and the half-block glyphs are not letters or
/// numbers.
#[verifier::external_body]
pub(crate) fn char_is_alphanumeric(c: char) -> (r: bool)
    ensures
        r == char_alnum_of(c),
        (('0' <= c && c <= '9') || ('a' <= c && c <= 'z') || ('A' <= c && c <= 'Z')) ==> r,
        (c == ' ' || c == '█' || c == '▓' || c == '▒' || c == '░' || c == '▀' || c == '▄') ==> !r,
{
    c.is_alphanumeric()
}

/// Relies on String::from_iter over characters: the collected string
/// holds exactly the characters of the vector, in order.
#[verifier::external_body]
pub(crate) fn chars_to_string(cs: &Vec<char>) -> (r: String)
    ensures
        r@ == cs@,
{
    cs.iter().collect()
}

/// Relies on writeln to standard output: writes the line followed by a
/// newline, reporting whether the write succeeded.
#[verifier::external_body]
pub(crate) fn write_line_stdout(line: &String) -> bool {
    writeln!(std::io::stdout(), "{}", line).is_ok()
}

/// Relies on std::io::Stdout::flush: flushes standard output, reporting
/// whether the flush succeeded.
#[verifier::external_body]
pub(crate) fn flush_stdout() -> bool {
    std::io::stdout().flush().is_ok()
}

} // verus!
