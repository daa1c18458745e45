use rig_gemini_grpc::encoding::{
    choose_decoding, decode_base64_bytes, decode_optional_base64, encode_base64,
    encode_optional_base64, is_encodable, strip_data_header, Variant,
};
use rig_gemini_grpc::error::CompletionError;
use rig_gemini_grpc::text::{append_to, decimal_text, find_char, has_prefix, join};

#[test]
fn encodes_padded_standard_base64() {
    assert_eq!(encode_base64(Variant::Standard, &[]), "");
    assert_eq!(encode_base64(Variant::Standard, &[0xfb, 0xff]), "+/8=");
    assert_eq!(encode_base64(Variant::Standard, b"hello"), "aGVsbG8=");
}

#[test]
fn encodes_every_variant() {
    assert_eq!(encode_base64(Variant::UrlSafe, &[0xfb, 0xff]), "-_8=");
    assert_eq!(encode_base64(Variant::StandardNoPad, &[0xfb, 0xff]), "+/8");
    assert_eq!(encode_base64(Variant::UrlSafeNoPad, &[0xfb, 0xff]), "-_8");
}

#[test]
fn decoding_undoes_encoding() {
    let variants = [
        Variant::Standard,
        Variant::UrlSafe,
        Variant::StandardNoPad,
        Variant::UrlSafeNoPad,
    ];
    for variant in variants {
        for bytes in [vec![], vec![0u8], vec![1, 2], vec![250, 251, 252], (0..=255).collect()] {
            let text = encode_base64(variant, &bytes);
            assert_eq!(decode_base64_bytes(&text), Ok(bytes.clone()));
            assert_eq!(decode_base64_bytes(&format!(" \n{text}\t\u{3000}")), Ok(bytes));
        }
    }
}

#[test]
fn every_variant_is_decoded() {
    for text in ["+/8=", "-_8=", "+/8", "-_8", "  +/8=\n"] {
        assert_eq!(decode_base64_bytes(text), Ok(vec![0xfb, 0xff]), "{text}");
    }
}

#[test]
fn data_urls_are_decoded() {
    assert_eq!(strip_data_header("data:image/png;base64,aGk="), "aGk=");
    assert_eq!(strip_data_header(" data:,a,b "), "a,b");
    assert_eq!(strip_data_header("data:aGk="), "data:aGk=");
    assert_eq!(strip_data_header("aGk="), "aGk=");
    assert_eq!(decode_base64_bytes("data:image/png;base64,aGk="), decode_base64_bytes("aGk="));
    assert_eq!(decode_base64_bytes("data:image/png;base64,aGk="), Ok(b"hi".to_vec()));
}

#[test]
fn the_last_error_is_reported() {
    let expected = base64::Engine::decode(&base64::engine::general_purpose::URL_SAFE_NO_PAD, "%%%")
        .unwrap_err()
        .to_string();
    assert_eq!(
        decode_base64_bytes("%%%"),
        Err(CompletionError::RequestError(format!("Invalid base64 data: {expected}")))
    );
}

#[test]
fn the_first_success_is_chosen() {
    let failed = || Err("first".to_string());
    assert_eq!(choose_decoding(vec![failed(), Ok(vec![1]), Ok(vec![2])]), Ok(vec![1]));
    assert_eq!(
        choose_decoding(vec![failed(), Err("second".to_string())]),
        Err(CompletionError::RequestError("Invalid base64 data: second".to_string()))
    );
    assert_eq!(
        choose_decoding(vec![]),
        Err(CompletionError::RequestError(
            "Invalid base64 data: unknown base64 decode error".to_string()
        ))
    );
}

#[test]
fn optional_signatures() {
    assert_eq!(encode_optional_base64(&[]), None);
    assert_eq!(encode_optional_base64(&[0xfb, 0xff]), Some("+/8=".to_string()));
    assert_eq!(decode_optional_base64(None), Ok(vec![]));
    assert_eq!(decode_optional_base64(Some("+/8=".to_string())), Ok(vec![0xfb, 0xff]));
    assert!(decode_optional_base64(Some("!".to_string())).is_err());
}

#[test]
fn what_fits_in_memory() {
    assert!(is_encodable(0));
    assert!(is_encodable(1 << 20));
    assert!(is_encodable(isize::MAX as usize / 4 * 3));
    assert!(!is_encodable(isize::MAX as usize / 4 * 3 + 1));
    assert!(!is_encodable(usize::MAX));
}

#[test]
fn string_primitives() {
    assert!(has_prefix("https://x", "https://"));
    assert!(!has_prefix("http", "https"));
    assert!(has_prefix("anything", ""));
    assert_eq!(find_char("\u{e9}a,b,", ','), Some(2));
    assert_eq!(find_char("ab", ','), None);
    assert_eq!(join(&vec!["a".to_string(), "".to_string(), "b".to_string()], "\n"), "a\n\nb");
    assert_eq!(join(&vec![], "\n"), "");
    assert_eq!(append_to("a", "b"), "ab");
    for n in [0, 7, 10, 905, -1, i32::MAX, i32::MIN] {
        assert_eq!(decimal_text(n), n.to_string());
    }
}
