//! The TOTP-facing API: secret generation, code generation, QR
//! creation and terminal rendering, built on the verified raster
//! pipeline and on trusted wrappers around the outside collaborators.

use vstd::prelude::*;
use crate::outside::{
    TotpHandle, totp_new_sha512, totp_generate_at, totp_qr_base64, secret_raw_to_bytes,
    os_random_bytes, utf8_lossy, lossy_of, now_unix, b64_decode, decode_image_luma, png_reencode,
    write_line_stdout, flush_stdout, spec_is_base64_char, spec_opt_str_view, qr_ok_of,
    qr_base64_of, b64_ok_of, b64_decode_of, png_decode_ok_of, luma_of, png_reencode_ok_of,
    png_reencoded_of, sha512_code_of,
};
use crate::raster::GrayscaleImage;
use crate::render::{QRColorMode, TerminalQRSize, render_raster, spec_render};

verus! {

/// Number of digits of every generated code.
pub const TOTP_DIGITS: usize = 6;

/// Permitted network-delay steps when validating a code.
pub const TOTP_SKEW: u8 = 1;

/// Duration of one code step, in seconds.
pub const TOTP_STEP: u64 = 30;

/// Target terminal width, in character cells.
pub const TERMINAL_WIDTH: usize = 100;

/// An error of this crate, carrying a short message.
#[derive(Clone, Debug, Default, Eq, Hash, Ord, PartialEq, PartialOrd)]
pub struct EasyTotpError(pub String);

impl EasyTotpError {
    /// Wrap a message in an error.
    pub fn new(message: &str) -> (r: Self)
        ensures
            r.0@ == message@,
    {
        EasyTotpError(message.to_owned())
    }

    /// The message carried by the error.
    pub fn message(&self) -> (r: &str)
        ensures
            r@ == self.0@,
    {
        self.0.as_str()
    }
}

/// `EasyTotp` holds the raw secret and the otpauth labels from which
/// codes and setup QR codes are derived.
#[derive(Clone, Debug, Default, Eq, Hash, Ord, PartialEq, PartialOrd)]
pub struct EasyTotp {
    /// The raw (non-encoded) secret.
    pub raw_secret: String,
    /// The issuing service, if any; must not contain a colon.
    pub issuer: Option<String>,
    /// The account label; must not contain a colon.
    pub account_name: String,
}

/// Whether a string is the lossy UTF-8 decoding of some sequence of 20
/// bytes.
pub open spec fn spec_from_20_bytes(s: Seq<char>) -> bool {
    exists|b: Seq<u8>| b.len() == 20 && s == #[trigger] lossy_of(b)
}

/// The secret bytes handed to the generator: the UTF-8 encoding of the
/// raw secret.
pub open spec fn spec_secret_bytes(et: EasyTotp) -> Seq<u8> {
    vstd::utf8::encode_utf8(et.raw_secret@)
}

/// Whether a TOTP generator can be built from these fields: the UTF-8
/// encoding of the raw secret is at least 16 bytes, and neither the
/// issuer nor the account name contains a colon.
pub open spec fn spec_totp_ok(et: EasyTotp) -> bool {
    &&& spec_secret_bytes(et).len() >= 16
    &&& (et.issuer matches Some(s) ==> !s@.contains(':'))
    &&& !et.account_name@.contains(':')
}

/// Whether the QR rendering of this instance's setup URL succeeds.
pub open spec fn spec_qr_ok(et: EasyTotp) -> bool {
    qr_ok_of(
        TOTP_DIGITS as int,
        TOTP_STEP as int,
        spec_secret_bytes(et),
        spec_opt_str_view(et.issuer),
        et.account_name@,
    )
}

/// The base64-encoded QR PNG of this instance's setup URL.
pub open spec fn spec_qr_b64(et: EasyTotp) -> Seq<char> {
    qr_base64_of(
        TOTP_DIGITS as int,
        TOTP_STEP as int,
        spec_secret_bytes(et),
        spec_opt_str_view(et.issuer),
        et.account_name@,
    )
}

/// The QR PNG bytes of this instance's setup URL.
pub open spec fn spec_qr_png(et: EasyTotp) -> Seq<u8> {
    b64_decode_of(spec_qr_b64(et))
}

/// The grayscale raster (width, height, samples) decoded from this
/// instance's QR PNG.
pub open spec fn spec_qr_raster(et: EasyTotp) -> (nat, nat, Seq<u8>) {
    luma_of(spec_qr_png(et))
}

/// The error message of [`EasyTotp::create_qr`] on a failing input.
pub open spec fn spec_create_qr_err(et: EasyTotp) -> Seq<char> {
    if !spec_totp_ok(et) {
        "Error creating new TOTP instance"@
    } else {
        "Error creating QR code data"@
    }
}

/// Whether the whole terminal-rendering chain succeeds: an acceptable
/// instance, a QR encoding, a base64 decode, an image decode, and a
/// raster with positive dimensions.
pub open spec fn spec_qr_text_ok(et: EasyTotp) -> bool {
    &&& spec_totp_ok(et)
    &&& spec_qr_ok(et)
    &&& b64_ok_of(spec_qr_b64(et))
    &&& png_decode_ok_of(spec_qr_png(et))
    &&& spec_qr_raster(et).0 >= 1
    &&& spec_qr_raster(et).1 >= 1
}

/// The error message of [`EasyTotp::qr_text`] on a failing input: the
/// message of the first failing stage.
pub open spec fn spec_qr_text_err(et: EasyTotp) -> Seq<char> {
    if !spec_totp_ok(et) || !spec_qr_ok(et) {
        spec_create_qr_err(et)
    } else if !b64_ok_of(spec_qr_b64(et)) {
        "Error decoding QR code data"@
    } else if !png_decode_ok_of(spec_qr_png(et)) {
        "Error loading QR code image"@
    } else {
        "QR image has zero width or height"@
    }
}

/// Whether the PNG re-encoding chain of [`EasyTotp::create_qr_png`]
/// succeeds.
pub open spec fn spec_qr_png_ok(et: EasyTotp) -> bool {
    &&& spec_totp_ok(et)
    &&& spec_qr_ok(et)
    &&& b64_ok_of(spec_qr_b64(et))
    &&& png_reencode_ok_of(spec_qr_png(et))
}

/// The error message of [`EasyTotp::create_qr_png`] on a failing input.
pub open spec fn spec_qr_png_err(et: EasyTotp) -> Seq<char> {
    if !spec_totp_ok(et) || !spec_qr_ok(et) {
        spec_create_qr_err(et)
    } else if !b64_ok_of(spec_qr_b64(et)) {
        "Error decoding QR code data"@
    } else {
        "Error encoding QR code PNG"@
    }
}

/// The code this instance produces at a given Unix time: a function of
/// the instance and of the 30-second time step alone.
pub open spec fn spec_token_of(et: EasyTotp, time: int) -> Seq<char> {
    sha512_code_of(TOTP_DIGITS as int, spec_secret_bytes(et), time / (TOTP_STEP as int))
}

/// Whether `lines` is the rendering of `img` at the fixed terminal
/// width under the given modes.
pub open spec fn spec_lines_of(
    lines: Seq<String>,
    img: GrayscaleImage,
    mode: QRColorMode,
    size: TerminalQRSize,
) -> bool {
    &&& img.wf()
    &&& 1 <= img.width
    &&& 1 <= img.height
    &&& lines.len() == spec_render(img, TERMINAL_WIDTH as int, mode, size).len()
    &&& forall|i: int|
        0 <= i < lines.len() ==> lines[i]@ == spec_render(img, TERMINAL_WIDTH as int, mode, size)[i]
}

/// Whether `lines` is the rendering of this instance's QR raster: the
/// raster's dimensions and samples are pinned to the named decode
/// chain, and the rendering depends on the raster through those alone.
pub open spec fn spec_qr_lines(
    lines: Seq<String>,
    et: EasyTotp,
    mode: QRColorMode,
    size: TerminalQRSize,
) -> bool {
    exists|img: GrayscaleImage|
        {
            &&& img.width as nat == spec_qr_raster(et).0
            &&& img.height as nat == spec_qr_raster(et).1
            &&& img.pixels@ == spec_qr_raster(et).2
            &&& #[trigger] spec_lines_of(lines, img, mode, size)
        }
}

impl EasyTotp {
    /// Build an instance from given secret bytes: the stored secret is
    /// the lossy UTF-8 decoding of the bytes, and the labels are stored
    /// unchanged.
    pub fn from_secret_bytes(secret_bytes: &[u8], issuer: Option<String>, account_name: String) -> (et:
        EasyTotp)
        ensures
            et.raw_secret@ == lossy_of(secret_bytes@),
            et.raw_secret@.len() <= secret_bytes@.len(),
            secret_bytes@.len() >= 1 ==> et.raw_secret@.len() >= 1,
            et.issuer == issuer,
            et.account_name == account_name,
    {
        let raw_secret = utf8_lossy(secret_bytes);
        EasyTotp { raw_secret, issuer, account_name }
    }

    /// Creates a new `EasyTotp` instance whose secret is the lossy
    /// UTF-8 decoding of 20 bytes drawn from the operating system's
    /// randomness source.
    ///
    /// ## Errors
    /// Fails only when the operating system's randomness source fails.
    pub fn new(issuer: Option<String>, account_name: String) -> (r: Result<Self, EasyTotpError>)
        ensures
            r matches Ok(et) ==> {
                &&& et.issuer == issuer
                &&& et.account_name == account_name
                &&& 1 <= et.raw_secret@.len() <= 20
                &&& spec_from_20_bytes(et.raw_secret@)
            },
            r matches Err(e) ==> e.0@ == "Failed to generate a random secret"@,
    {
        match os_random_bytes(20) {
            Ok(secret_bytes) => {
                let et = Self::from_secret_bytes(secret_bytes.as_slice(), issuer, account_name);
                proof {
                    assert(spec_from_20_bytes(et.raw_secret@)) by {
                        assert(secret_bytes@.len() == 20 && et.raw_secret@ == lossy_of(
                            secret_bytes@,
                        ));
                    }
                }
                Ok(et)
            },
            Err(_) => Err(EasyTotpError::new("Failed to generate a random secret")),
        }
    }

    /// Creates a new TOTP generator with SHA-512, six digits, a skew of
    /// one and a thirty-second step from the stored secret and labels,
    /// succeeding exactly when they are acceptable.
    fn new_totp(self) -> (r: Result<TotpHandle, EasyTotpError>)
        ensures
            r is Ok <==> spec_totp_ok(self),
            r matches Ok(h) ==> {
                &&& h.spec_digits() == TOTP_DIGITS
                &&& h.spec_skew() == TOTP_SKEW
                &&& h.spec_step() == TOTP_STEP
                &&& h.spec_secret() == spec_secret_bytes(self)
                &&& h.spec_issuer() == spec_opt_str_view(self.issuer)
                &&& h.spec_account() == self.account_name@
            },
            r matches Err(e) ==> e.0@ == "Error creating new TOTP instance"@,
    {
        let secret;
        let secret_vec = vstd::slice::slice_to_vec(self.raw_secret.as_str().as_bytes());
        let result_secret = secret_raw_to_bytes(secret_vec);

        if let Ok(okay_secret) = result_secret {
            secret = okay_secret;
        } else {
            return Err(EasyTotpError::new("Failed to parse secret key"));
        }

        let result = totp_new_sha512(
            TOTP_DIGITS,
            TOTP_SKEW,
            TOTP_STEP,
            secret,
            self.issuer,
            self.account_name,
        );

        if let Ok(okay_result) = result {
            Ok(okay_result)
        } else {
            Err(EasyTotpError::new("Error creating new TOTP instance"))
        }
    }

    /// Produce the setup QR code as a base64-encoded PNG: a
    /// deterministic function of the secret and labels, succeeding
    /// exactly when they are acceptable and the QR encoding of the
    /// setup URL succeeds.
    pub fn create_qr(et: EasyTotp) -> (r: Result<String, EasyTotpError>)
        ensures
            r is Ok <==> spec_totp_ok(et) && spec_qr_ok(et),
            r matches Ok(s) ==> s@ == spec_qr_b64(et),
            r matches Ok(s) ==> forall|i: int|
                0 <= i < s@.len() ==> spec_is_base64_char(#[trigger] s@[i]),
            r matches Err(e) ==> e.0@ == spec_create_qr_err(et),
    {
        let handle = match Self::new_totp(et) {
            Ok(h) => h,
            Err(e) => {
                return Err(e);
            },
        };
        match totp_qr_base64(&handle) {
            Ok(s) => Ok(s),
            Err(_) => Err(EasyTotpError::new("Error creating QR code data")),
        }
    }

    /// Render the setup QR code as terminal lines: generate the QR
    /// PNG, decode it to a grayscale raster, and run the raster
    /// pipeline under the requested color and size modes. Succeeds
    /// exactly when every stage of that chain does, and the lines are
    /// the rendering of the decoded raster.
    pub fn qr_text(size: TerminalQRSize, mode: QRColorMode, et: EasyTotp) -> (r: Result<
        Vec<String>,
        EasyTotpError,
    >)
        ensures
            r is Ok <==> spec_qr_text_ok(et),
            r matches Ok(lines) ==> spec_qr_lines(lines@, et, mode, size),
            r matches Err(e) ==> e.0@ == spec_qr_text_err(et),
    {
        let ghost et0 = et;
        let b64 = match Self::create_qr(et) {
            Ok(s) => s,
            Err(e) => {
                return Err(e);
            },
        };
        let decoded = match b64_decode(b64.as_str()) {
            Ok(d) => d,
            Err(_) => {
                return Err(EasyTotpError::new("Error decoding QR code data"));
            },
        };
        let raster = match decode_image_luma(decoded.as_slice()) {
            Ok(t) => t,
            Err(_) => {
                return Err(EasyTotpError::new("Error loading QR code image"));
            },
        };
        let (w, h, pixels) = raster;
        let img = match GrayscaleImage::new(w as usize, h as usize, pixels) {
            Some(im) => im,
            None => {
                return Err(EasyTotpError::new("QR image has zero width or height"));
            },
        };
        let lines = render_raster(&img, TERMINAL_WIDTH, mode, size);
        proof {
            assert(spec_qr_lines(lines@, et0, mode, size)) by {
                assert(img.width as nat == spec_qr_raster(et0).0);
                assert(img.height as nat == spec_qr_raster(et0).1);
                assert(img.pixels@ == spec_qr_raster(et0).2);
                assert(spec_lines_of(lines@, img, mode, size));
            }
        }
        Ok(lines)
    }

    /// Creates a new PNG with a QR code: the PNG re-encoding of this
    /// instance's QR image, a deterministic function of the secret and
    /// labels.
    ///
    /// BEWARE: the PNG image contains the secret.
    ///
    /// ## Errors
    /// Fails for unacceptable secrets or labels, and when QR
    /// generation or image processing fails.
    pub fn create_qr_png(self) -> (r: Result<Vec<u8>, EasyTotpError>)
        ensures
            r is Ok <==> spec_qr_png_ok(self),
            r matches Ok(buffer) ==> buffer@ == png_reencoded_of(spec_qr_png(self)),
            r matches Err(e) ==> e.0@ == spec_qr_png_err(self),
    {
        let b64 = match Self::create_qr(self) {
            Ok(s) => s,
            Err(e) => {
                return Err(e);
            },
        };
        let decoded = match b64_decode(b64.as_str()) {
            Ok(d) => d,
            Err(_) => {
                return Err(EasyTotpError::new("Error decoding QR code data"));
            },
        };
        match png_reencode(decoded.as_slice()) {
            Ok(buffer) => Ok(buffer),
            Err(_) => Err(EasyTotpError::new("Error encoding QR code PNG")),
        }
    }

    /// Print the QR code to the terminal.
    ///
    /// BEWARE: the terminal will display the secret.
    pub fn print_qr_to_teminal(self, user_mode: QRColorMode) -> (r: Result<(), EasyTotpError>)
        ensures
            !spec_qr_text_ok(self) ==> r is Err,
            r matches Err(e) ==> (!spec_qr_text_ok(self) ==> e.0@ == spec_qr_text_err(self)),
            r matches Err(e) ==> (spec_qr_text_ok(self) ==> e.0@
                == "Error writing to standard output"@ || e.0@ == "Error flushing standard output"@),
    {
        match user_mode {
            QRColorMode::Direct => Self::render_qr_terminal_full_direct(self),
            QRColorMode::Inverted => Self::render_qr_terminal_full_inverted(self),
        }
    }

    /// Render the QR code in the terminal at full size.
    ///
    /// BEWARE: the terminal will display the secret.
    pub fn render_qr_terminal_full_direct(self) -> (r: Result<(), EasyTotpError>)
        ensures
            !spec_qr_text_ok(self) ==> r is Err,
            r matches Err(e) ==> (!spec_qr_text_ok(self) ==> e.0@ == spec_qr_text_err(self)),
            r matches Err(e) ==> (spec_qr_text_ok(self) ==> e.0@
                == "Error writing to standard output"@ || e.0@ == "Error flushing standard output"@),
    {
        let lines = match Self::qr_text(TerminalQRSize::Full, QRColorMode::Direct, self) {
            Ok(l) => l,
            Err(e) => {
                return Err(e);
            },
        };
        print_lines(&lines)
    }

    /// Render the mini QR code in the terminal.
    ///
    /// BEWARE: the terminal will display the secret.
    pub fn render_qr_terminal_mini_direct(self) -> (r: Result<(), EasyTotpError>)
        ensures
            !spec_qr_text_ok(self) ==> r is Err,
            r matches Err(e) ==> (!spec_qr_text_ok(self) ==> e.0@ == spec_qr_text_err(self)),
            r matches Err(e) ==> (spec_qr_text_ok(self) ==> e.0@
                == "Error writing to standard output"@ || e.0@ == "Error flushing standard output"@),
    {
        let lines = match Self::qr_text(TerminalQRSize::Mini, QRColorMode::Direct, self) {
            Ok(l) => l,
            Err(e) => {
                return Err(e);
            },
        };
        print_lines(&lines)
    }

    /// Render the QR code in the terminal at full size, inverted.
    ///
    /// BEWARE: the terminal will display the secret.
    pub fn render_qr_terminal_full_inverted(self) -> (r: Result<(), EasyTotpError>)
        ensures
            !spec_qr_text_ok(self) ==> r is Err,
            r matches Err(e) ==> (!spec_qr_text_ok(self) ==> e.0@ == spec_qr_text_err(self)),
            r matches Err(e) ==> (spec_qr_text_ok(self) ==> e.0@
                == "Error writing to standard output"@ || e.0@ == "Error flushing standard output"@),
    {
        let lines = match Self::qr_text(TerminalQRSize::Full, QRColorMode::Inverted, self) {
            Ok(l) => l,
            Err(e) => {
                return Err(e);
            },
        };
        print_lines(&lines)
    }

    /// Render the mini QR code in the terminal, inverted.
    ///
    /// BEWARE: the terminal will display the secret.
    pub fn render_qr_terminal_mini_inverted(self) -> (r: Result<(), EasyTotpError>)
        ensures
            !spec_qr_text_ok(self) ==> r is Err,
            r matches Err(e) ==> (!spec_qr_text_ok(self) ==> e.0@ == spec_qr_text_err(self)),
            r matches Err(e) ==> (spec_qr_text_ok(self) ==> e.0@
                == "Error writing to standard output"@ || e.0@ == "Error flushing standard output"@),
    {
        let lines = match Self::qr_text(TerminalQRSize::Mini, QRColorMode::Inverted, self) {
            Ok(l) => l,
            Err(e) => {
                return Err(e);
            },
        };
        print_lines(&lines)
    }

    /// Generates the TOTP token for a given Unix time: the code is a
    /// function of the secret and of the 30-second time step alone, so
    /// two calls within one step return the same token.
    ///
    /// ## Errors
    /// Fails exactly for unacceptable secrets or labels.
    pub fn generate_token_at(self, time: u64) -> (r: Result<String, EasyTotpError>)
        ensures
            r is Ok <==> spec_totp_ok(self),
            r matches Ok(code) ==> {
                &&& code@ == spec_token_of(self, time as int)
                &&& code@.len() == TOTP_DIGITS
                &&& forall|i: int| 0 <= i < code@.len() ==> '0' <= #[trigger] code@[i] <= '9'
            },
            r matches Err(e) ==> e.0@ == "Error creating new TOTP instance"@,
    {
        let handle = match Self::new_totp(self) {
            Ok(h) => h,
            Err(e) => {
                return Err(e);
            },
        };
        Ok(totp_generate_at(&handle, time))
    }

    /// Generates a TOTP token for authentication from the current
    /// system time: a zero-padded decimal code of exactly six digits.
    ///
    /// ## Errors
    /// Fails for unacceptable secrets or labels, and when the system
    /// clock cannot be read.
    pub fn generate_token(self) -> (r: Result<String, EasyTotpError>)
        ensures
            r is Ok ==> spec_totp_ok(self),
            !spec_totp_ok(self) ==> r is Err,
            r matches Ok(code) ==> {
                &&& code@.len() == TOTP_DIGITS
                &&& forall|i: int| 0 <= i < code@.len() ==> '0' <= #[trigger] code@[i] <= '9'
                &&& exists|counter: int|
                    code@ == #[trigger] sha512_code_of(
                        TOTP_DIGITS as int,
                        spec_secret_bytes(self),
                        counter,
                    )
            },
            r matches Err(e) ==> (!spec_totp_ok(self) ==> e.0@
                == "Error creating new TOTP instance"@),
            r matches Err(e) ==> (spec_totp_ok(self) ==> e.0@ == "Error generating TOTP token"@),
    {
        let ghost me = self;
        let handle = match Self::new_totp(self) {
            Ok(h) => h,
            Err(e) => {
                return Err(e);
            },
        };
        let time = match now_unix() {
            Ok(t) => t,
            Err(_) => {
                return Err(EasyTotpError::new("Error generating TOTP token"));
            },
        };
        let code = totp_generate_at(&handle, time);
        proof {
            assert(code@ == sha512_code_of(
                TOTP_DIGITS as int,
                spec_secret_bytes(me),
                time as int / (TOTP_STEP as int),
            ));
        }
        Ok(code)
    }
}

/// Write every line to standard output, then flush once; a failed
/// write or flush is a terminal error.
fn print_lines(lines: &Vec<String>) -> (r: Result<(), EasyTotpError>)
    ensures
        r matches Err(e) ==> e.0@ == "Error writing to standard output"@ || e.0@
            == "Error flushing standard output"@,
{
    let mut i: usize = 0;
    while i < lines.len()
        invariant
            i <= lines@.len(),
        decreases lines@.len() - i,
    {
        if !write_line_stdout(&lines[i]) {
            return Err(EasyTotpError::new("Error writing to standard output"));
        }
        i = i + 1;
    }
    if !flush_stdout() {
        return Err(EasyTotpError::new("Error flushing standard output"));
    }
    Ok(())
}

} // verus!
