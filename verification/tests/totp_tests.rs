use easy_totp::{EasyTotp, EasyTotpError, QRColorMode, TerminalQRSize};

fn sample_totp() -> EasyTotp {
    EasyTotp {
        raw_secret: String::from("SUPERSecretSecretSecret"),
        issuer: Some(String::from("McCormick")),
        account_name: String::from("test@test-email.com"),
    }
}

#[test]
fn test_qr_png() {
    let issuer = Some(String::from("McCormick"));
    let account_name = String::from("test@test-email.com");

    let et = EasyTotp::new(issuer, account_name).unwrap();

    let my_qr_code = EasyTotp::create_qr_png(et);

    let png_data = match my_qr_code {
        Ok(png_data) => png_data,
        Err(e) => {
            panic!("Error creating QR code: {:?}", e);
        }
    };

    let img = image::load_from_memory(&png_data).unwrap().to_luma8();
    // Prepare for detection
    let mut img = rqrr::PreparedImage::prepare(img);
    // Search for grids, without decoding
    let grids = img.detect_grids();
    assert_eq!(grids.len(), 1);
    // Decode the grid
    let (meta, content) = grids[0].decode().unwrap();
    assert_eq!(meta.ecc_level, 0);
    assert!(content.starts_with("otpauth://totp/McCormick:test%40test-email.com?secret="));
    assert!(content.contains("&algorithm=SHA512&issuer=McCormick"));

    // Extract and validate the secret parameter
    let secret_start = content.find("secret=").unwrap() + 7;
    let secret_end = content.find("&algorithm=").unwrap();
    let secret = &content[secret_start..secret_end];

    // Ensure the secret is not empty and has reasonable length
    assert!(!secret.is_empty());
    assert!(
        secret.len() >= 20,
        "Secret should be at least 20 characters long"
    );

    // Verify the secret only contains valid base32 characters (A-Z, 2-7)
    assert!(
        secret
            .chars()
            .all(|c| c.is_ascii_uppercase() || "234567".contains(c)),
        "Secret should only contain valid base32 characters"
    );
}

#[test]
fn test_qr_terminal() {
    let raw_secret = String::from("SUPERSecretSecretSecret");
    let issuer = Some(String::from("McCormick"));
    let account_name = String::from("Account_name");

    let et = EasyTotp {
        raw_secret,
        issuer,
        account_name,
    };

    match EasyTotp::render_qr_terminal_full_direct(et) {
        Ok(_) => println!("QR code rendered in terminal successfully."),
        Err(e) => panic!("Error rendering QR code in terminal: {:?}", e),
    }
}

#[test]
fn tokens_are_six_decimal_digits() {
    let et = sample_totp();
    let token1 = EasyTotp::generate_token(et.clone()).unwrap();
    let token2 = EasyTotp::generate_token(et).unwrap();
    assert_eq!(token1.len(), 6);
    assert_eq!(token2.len(), 6);
    assert!(token1.parse::<u32>().is_ok());
    assert!(token2.parse::<u32>().is_ok());
}

#[test]
fn generated_secret_fits_its_source_bytes() {
    let et = EasyTotp::new(None, String::from("account")).unwrap();
    let n = et.raw_secret.chars().count();
    assert!(1 <= n && n <= 20);
    assert_eq!(et.issuer, None);
    assert_eq!(et.account_name, "account");
}

#[test]
fn qr_lines_end_with_the_captions() {
    let lines = EasyTotp::qr_text(TerminalQRSize::Full, QRColorMode::Direct, sample_totp())
        .unwrap();
    assert!(lines.len() > 5);
    let raster_rows = lines.len() - 5;
    assert_eq!(
        lines[raster_rows],
        "Scan the above QR code with your authenticator app to set up TOTP."
    );
    assert_eq!(
        lines[raster_rows + 1],
        "BEWARE: this QR code contains your secret key! Handle with care."
    );
    let width = lines[0].chars().count();
    for line in &lines[..raster_rows] {
        assert_eq!(line.chars().count(), width);
        assert!(line
            .chars()
            .all(|c| c == '█' || c == '▓' || c == '▒' || c == ' '));
    }
}

#[test]
fn mini_qr_halves_the_raster() {
    let full = EasyTotp::qr_text(TerminalQRSize::Full, QRColorMode::Direct, sample_totp())
        .unwrap();
    let mini = EasyTotp::qr_text(TerminalQRSize::Mini, QRColorMode::Direct, sample_totp())
        .unwrap();
    let full_raster = full.len() - 5;
    let mini_raster = mini.len() - 5;
    assert_eq!(mini_raster, full_raster.div_ceil(2));
}

#[test]
fn inverted_qr_flips_the_raster() {
    let direct = EasyTotp::qr_text(TerminalQRSize::Full, QRColorMode::Direct, sample_totp())
        .unwrap();
    let inverted = EasyTotp::qr_text(TerminalQRSize::Full, QRColorMode::Inverted, sample_totp())
        .unwrap();
    assert_eq!(direct.len(), inverted.len());
    let raster_rows = direct.len() - 5;
    for i in 0..raster_rows {
        let flipped: String = direct[i]
            .chars()
            .map(|c| match c {
                '█' => ' ',
                '▓' => '░',
                '▒' => '▓',
                ' ' => '█',
                other => other,
            })
            .collect();
        assert_eq!(inverted[i], flipped);
    }
    // Captions are never altered by the inversion.
    for i in raster_rows..direct.len() {
        assert_eq!(inverted[i], direct[i]);
    }
}

#[test]
fn colon_in_account_name_is_rejected() {
    let mut et = sample_totp();
    et.account_name = String::from("bad:name");
    let err = EasyTotp::generate_token(et.clone()).unwrap_err();
    assert_eq!(err, EasyTotpError::new("Error creating new TOTP instance"));
    assert!(EasyTotp::create_qr(et).is_err());
}

#[test]
fn colon_in_issuer_is_rejected() {
    let mut et = sample_totp();
    et.issuer = Some(String::from("bad:issuer"));
    assert!(EasyTotp::generate_token(et).is_err());
}

#[test]
fn short_secret_is_rejected() {
    let mut et = sample_totp();
    et.raw_secret = String::from("too short");
    let err = EasyTotp::generate_token(et.clone()).unwrap_err();
    assert_eq!(err.message(), "Error creating new TOTP instance");
    assert!(EasyTotp::create_qr_png(et).is_err());
}

#[test]
fn error_carries_its_message() {
    let e = EasyTotpError::new("some message");
    assert_eq!(e.message(), "some message");
    assert_eq!(e.0, "some message");
}

#[test]
fn create_qr_yields_base64() {
    let s = EasyTotp::create_qr(sample_totp()).unwrap();
    assert!(!s.is_empty());
    assert!(s
        .chars()
        .all(|c| c.is_ascii_alphanumeric() || c == '+' || c == '/' || c == '='));
}

#[test]
fn qr_output_is_deterministic() {
    let a = EasyTotp::create_qr(sample_totp()).unwrap();
    let b = EasyTotp::create_qr(sample_totp()).unwrap();
    assert_eq!(a, b);
    let pa = EasyTotp::create_qr_png(sample_totp()).unwrap();
    let pb = EasyTotp::create_qr_png(sample_totp()).unwrap();
    assert_eq!(pa, pb);
    let la = EasyTotp::qr_text(TerminalQRSize::Full, QRColorMode::Direct, sample_totp()).unwrap();
    let lb = EasyTotp::qr_text(TerminalQRSize::Full, QRColorMode::Direct, sample_totp()).unwrap();
    assert_eq!(la, lb);
}

#[test]
fn tokens_agree_within_one_time_step() {
    // 60 and 89 lie in the same 30-second step; the codes must agree.
    let t1 = EasyTotp::generate_token_at(sample_totp(), 60).unwrap();
    let t2 = EasyTotp::generate_token_at(sample_totp(), 89).unwrap();
    assert_eq!(t1, t2);
    assert_eq!(t1.len(), 6);
    assert!(t1.parse::<u32>().is_ok());
    let t3 = EasyTotp::generate_token_at(sample_totp(), 1_000_000_000).unwrap();
    assert_eq!(t3.len(), 6);
    assert!(t3.parse::<u32>().is_ok());
    // A far-away time step gives a different code for this secret.
    assert_ne!(t1, t3);
}

#[test]
fn secret_is_the_lossy_decoding_of_the_bytes() {
    let et = EasyTotp::from_secret_bytes(
        b"HelloWorldHelloWorld",
        Some(String::from("McCormick")),
        String::from("account"),
    );
    assert_eq!(et.raw_secret, "HelloWorldHelloWorld");
    assert_eq!(et.issuer, Some(String::from("McCormick")));
    assert_eq!(et.account_name, "account");
    // Invalid bytes decode to replacement characters.
    let et2 = EasyTotp::from_secret_bytes(&[0xFF, 0xFF], None, String::from("account"));
    assert_eq!(et2.raw_secret, "\u{FFFD}\u{FFFD}");
}

#[test]
fn token_at_rejects_bad_labels() {
    let mut et = sample_totp();
    et.account_name = String::from("bad:name");
    let err = EasyTotp::generate_token_at(et, 60).unwrap_err();
    assert_eq!(err.message(), "Error creating new TOTP instance");
}
