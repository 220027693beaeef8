use base64::engine::general_purpose::STANDARD;
use base64::Engine;
use pairing_core::qr::{encode_qr_data_uri, QrError};
use pairing_core::session::build_pairing_url;

const URI_PREFIX: &str = "data:image/svg+xml;base64,";

fn decode_svg(uri: &str) -> String {
    assert!(uri.starts_with(URI_PREFIX), "data URI prefix");
    let body = &uri[URI_PREFIX.len()..];
    String::from_utf8(STANDARD.decode(body).expect("valid base64")).expect("utf-8 svg")
}

#[test]
fn qr_data_uri_wraps_an_svg() {
    let uri = encode_qr_data_uri("hello").expect("short text encodes");
    let svg = decode_svg(&uri);
    assert!(svg.starts_with("<svg xmlns=\"http://www.w3.org/2000/svg\" viewBox=\"0 0 "));
    assert!(svg.ends_with("</svg>"));
    assert!(svg.contains("shape-rendering=\"crispEdges\""));
    assert!(svg.contains("<rect x=\"0\" y=\"0\" width=\"1\" height=\"1\" fill=\"#000\"/>"));
}

#[test]
fn short_text_uses_smallest_symbol() {
    // Five bytes fit version 1: a 21-module symbol.
    let svg = decode_svg(&encode_qr_data_uri("hello").unwrap());
    assert!(svg.contains("viewBox=\"0 0 21 21\""));
}

#[test]
fn encoding_is_deterministic() {
    let a = encode_qr_data_uri("http://192.168.0.2:8080/app?session=s&image=i").unwrap();
    let b = encode_qr_data_uri("http://192.168.0.2:8080/app?session=s&image=i").unwrap();
    assert_eq!(a, b);
}

#[test]
fn oversized_payload_yields_encode_error() {
    let huge = "x".repeat(5000);
    match encode_qr_data_uri(&huge) {
        Err(e @ QrError::Unencodable { .. }) => {
            assert!(e.message().starts_with("QR_ENCODE_ERROR: "));
        }
        Ok(_) => panic!("a five-kilobyte payload must not encode"),
    }
}

#[test]
fn pairing_url_has_documented_shape() {
    let url = build_pairing_url("192.168.0.5", 8081, "tok-123", "img-9");
    assert_eq!(url, "http://192.168.0.5:8081/app?session=tok-123&image=img-9");
}
