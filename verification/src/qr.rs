//! QR encoder: renders text as a square module matrix, serializes the dark
//! modules as an SVG of unit squares, and wraps it as a base64 data URI.

use vstd::prelude::*;
use vstd::string::StringSliceAdditionalSpecFns;
use vstd::utf8::encode_utf8;
use crate::text::{dec_of, usize_to_dec};
use base64::Engine;
use base64::engine::general_purpose::STANDARD;

verus! {

/// Explicit encode failure: the encoder refused the payload (for example,
/// more data than any symbol version can carry). Carries the encoder's own
/// description of the cause.
#[derive(Debug, PartialEq, Eq)]
pub enum QrError {
    Unencodable { cause: String },
}

impl QrError {
    /// Diagnostic text for operators, prefixed as the desktop expects it.
    pub fn message(&self) -> (r: String)
        ensures
            match self {
                QrError::Unencodable { cause } => r@ == "QR_ENCODE_ERROR: "@ + cause@,
            },
    {
        match self {
            QrError::Unencodable { cause } => {
                let mut s = String::from_str("QR_ENCODE_ERROR: ");
                s.append(cause.as_str());
                s
            },
        }
    }
}

/// Modules per side of the QR symbol that encodes `text`. The encoder is
/// deterministic, so this is a function of the text alone.
pub uninterp spec fn qr_width(text: Seq<char>) -> nat;

/// The module colors of the QR symbol for `text`, row by row, `true` for
/// dark.
pub uninterp spec fn qr_modules(text: Seq<char>) -> Seq<bool>;

/// Whether the encoder accepts `text` at all. Acceptance depends on the
/// data alone (its length and character set against the symbol
/// capacities), so it is a function of the text.
pub uninterp spec fn qr_encodable(text: Seq<char>) -> bool;

/// The encoder's own description of why it refuses `text`.
pub uninterp spec fn qr_error_text(text: Seq<char>) -> Seq<char>;

/// Relies on qrcode::QrCode::new, width and to_colors: encodes `text` at the
/// medium error-correction level, choosing the smallest fitting version,
/// and fails exactly when the encoder refuses the data; the encoder is
/// deterministic, so success and the failure text are functions of the text
/// alone. A full-size symbol is square with 21 to 177 modules per side
/// (versions 1 to 40).
#[verifier::external_body]
fn qr_encode(text: &str) -> (r: Result<(usize, Vec<bool>), String>)
    ensures
        r is Ok <==> qr_encodable(text@),
        match r {
            Ok(m) => m.0 == qr_width(text@) && m.1@ == qr_modules(text@) && m.1@.len() == m.0
                * m.0 && 21 <= m.0 <= 177,
            Err(cause) => cause@ == qr_error_text(text@),
        },
{
    match qrcode::QrCode::new(text) {
        Ok(code) => {
            let width = code.width();
            let modules: Vec<bool> =
                code.to_colors().into_iter().map(|c| c == qrcode::Color::Dark).collect();
            Ok((width, modules))
        },
        Err(e) => Err(e.to_string()),
    }
}

/// What base64's standard engine produces for a byte sequence.
pub uninterp spec fn base64_of(bytes: Seq<u8>) -> Seq<char>;

/// Relies on base64::Engine::encode with the standard alphabet and padding:
/// the encoding of the input bytes, four output characters for every three
/// input bytes begun.
#[verifier::external_body]
fn base64_encode(s: &str) -> (r: String)
    ensures
        r@ == base64_of(s.spec_bytes()),
        r@.len() == 4 * ((s.spec_bytes().len() + 2) / 3),
{
    STANDARD.encode(s)
}

/// One filled unit square at module coordinates `(x, y)`.
pub open spec fn rect_svg(x: int, y: int) -> Seq<char> {
    "<rect x=\""@ + dec_of(x) + "\" y=\""@ + dec_of(y)
        + "\" width=\"1\" height=\"1\" fill=\"#000\"/>"@
}

/// Opening tag of the SVG, sized in module units.
pub open spec fn svg_header(size: int) -> Seq<char> {
    "<svg xmlns=\"http://www.w3.org/2000/svg\" viewBox=\"0 0 "@ + dec_of(size) + " "@ + dec_of(
        size,
    ) + "\" shape-rendering=\"crispEdges\">"@
}

/// The rects for the first `upto` modules in row-major order: one per dark
/// module, nothing for light ones.
pub open spec fn svg_cells(size: int, modules: Seq<bool>, upto: int) -> Seq<char>
    decreases upto,
{
    if upto <= 0 {
        Seq::<char>::empty()
    } else {
        svg_cells(size, modules, upto - 1) + (if modules[upto - 1] {
            rect_svg((upto - 1) % size, (upto - 1) / size)
        } else {
            Seq::<char>::empty()
        })
    }
}

/// The complete SVG for a module matrix.
pub open spec fn svg_of(size: int, modules: Seq<bool>) -> Seq<char> {
    svg_header(size) + svg_cells(size, modules, modules.len() as int) + "</svg>"@
}

fn svg_of_modules(size: usize, modules: &Vec<bool>) -> (r: String)
    requires
        modules@.len() == size * size,
        size <= 177,
    ensures
        r@ == svg_of(size as int, modules@),
{
    let mut s = String::from_str("<svg xmlns=\"http://www.w3.org/2000/svg\" viewBox=\"0 0 ");
    let dec = usize_to_dec(size);
    s.append(dec.as_str());
    s.append(" ");
    s.append(dec.as_str());
    s.append("\" shape-rendering=\"crispEdges\">");
    proof {
        assert(s@ =~= svg_header(size as int));
    }
    let n = modules.len();
    let mut i: usize = 0;
    while i < n
        invariant
            n == modules@.len(),
            n == size * size,
            size <= 177,
            i <= n,
            s@ == svg_header(size as int) + svg_cells(size as int, modules@, i as int),
        decreases n - i,
    {
        let ghost before = s@;
        if modules[i] {
            proof {
                assert(size > 0) by (nonlinear_arith)
                    requires
                        n == size * size,
                        i < n,
                ;
            }
            let x = i % size;
            let y = i / size;
            s.append("<rect x=\"");
            let xd = usize_to_dec(x);
            s.append(xd.as_str());
            s.append("\" y=\"");
            let yd = usize_to_dec(y);
            s.append(yd.as_str());
            s.append("\" width=\"1\" height=\"1\" fill=\"#000\"/>");
            proof {
                assert(s@ =~= before + rect_svg(i as int % size as int, i as int / size as int));
            }
        }
        proof {
            assert(s@ =~= svg_header(size as int) + svg_cells(
                size as int,
                modules@,
                i as int + 1,
            ));
        }
        i += 1;
    }
    s.append("</svg>");
    proof {
        assert(s@ =~= svg_of(size as int, modules@));
    }
    s
}

/// The data URI the encoder produces for `text`.
pub open spec fn qr_data_uri_spec(text: Seq<char>) -> Seq<char> {
    "data:image/svg+xml;base64,"@ + base64_of(
        encode_utf8(svg_of(qr_width(text) as int, qr_modules(text))),
    )
}

/// Deterministically renders `text` as a QR symbol, serialized as an SVG of
/// filled unit squares for the dark modules, and wrapped as a
/// `data:image/svg+xml;base64,` URI. Fails only when the encoder refuses
/// the payload.
pub fn encode_qr_data_uri(text: &str) -> (r: Result<String, QrError>)
    ensures
        r is Ok <==> qr_encodable(text@),
        match r {
            Ok(uri) => uri@ == qr_data_uri_spec(text@),
            Err(e) => match e {
                QrError::Unencodable { cause } => cause@ == qr_error_text(text@),
            },
        },
{
    match qr_encode(text) {
        Ok((width, modules)) => {
            let svg = svg_of_modules(width, &modules);
            let b64 = base64_encode(svg.as_str());
            let mut uri = String::from_str("data:image/svg+xml;base64,");
            uri.append(b64.as_str());
            proof {
                assert(uri@ =~= qr_data_uri_spec(text@));
            }
            Ok(uri)
        },
        Err(cause) => Err(QrError::Unencodable { cause }),
    }
}

} // verus!
