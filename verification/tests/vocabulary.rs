use std::str::FromStr;

use http_type::{BodyForm, ContentType, HttpStatus, HttpVersion, Methods};

#[test]
fn standard_methods_are_read_and_written() {
    let table = [
        (Methods::GET, http_constant::GET),
        (Methods::POST, http_constant::POST),
        (Methods::PUT, http_constant::PUT),
        (Methods::DELETE, http_constant::DELETE),
        (Methods::PATCH, http_constant::PATCH),
        (Methods::HEAD, http_constant::HEAD),
        (Methods::OPTIONS, http_constant::OPTIONS),
        (Methods::CONNECT, http_constant::CONNECT),
        (Methods::TRACE, http_constant::TRACE),
    ];
    for (method, text) in table {
        assert_eq!(method.to_string(), text);
        assert_eq!(Methods::parse(text), method);
        assert_eq!(Methods::from_str(text), Ok(method.clone()));
        assert_eq!(Methods::parse(&method.to_string()), method);
        assert!(!method.is_unknown());
    }
}

#[test]
fn unknown_method_keeps_its_text() {
    for text in ["", "get", "BREW", "GET ", "PROPFIND"] {
        let method = Methods::parse(text);
        assert_eq!(method, Methods::UNKNOWN(text.to_string()));
        assert!(method.is_unknown());
        assert_eq!(method.to_string(), text);
    }
}

#[test]
fn method_predicates_tell_the_methods_apart() {
    assert!(Methods::GET.is_get());
    assert!(Methods::POST.is_post());
    assert!(Methods::PUT.is_put());
    assert!(Methods::DELETE.is_delete());
    assert!(Methods::PATCH.is_patch());
    assert!(Methods::HEAD.is_head());
    assert!(Methods::OPTIONS.is_options());
    assert!(Methods::CONNECT.is_connect());
    assert!(Methods::TRACE.is_trace());
    assert!(!Methods::GET.is_post());
    assert!(!Methods::UNKNOWN("GET".to_string()).is_get());
    assert_ne!(Methods::UNKNOWN("GET".to_string()), Methods::GET);
}

#[test]
fn new_method_is_unknown_and_empty() {
    assert_eq!(Methods::new(), Methods::UNKNOWN(String::new()));
    assert_eq!(Methods::default(), Methods::new());
    assert_eq!("PUT".parse::<Methods>(), Ok(Methods::PUT));
}

#[test]
fn known_versions_are_read_and_written() {
    let table = [
        (HttpVersion::HTTP0_9, http_constant::HTTP_VERSION_0_9),
        (HttpVersion::HTTP1_0, http_constant::HTTP_VERSION_1_0),
        (HttpVersion::HTTP1_1, http_constant::HTTP_VERSION_1_1),
        (HttpVersion::HTTP2, http_constant::HTTP_VERSION_2),
        (HttpVersion::HTTP3, http_constant::HTTP_VERSION_3),
    ];
    for (version, text) in table {
        assert_eq!(version.to_string(), text);
        assert_eq!(HttpVersion::parse(text), version);
        assert_eq!(HttpVersion::from_str(text), Ok(version.clone()));
        assert!(!version.is_unknown());
    }
}

#[test]
fn unknown_version_keeps_its_text() {
    for text in ["", "http/1.1", "HTTP/1.2", "HTTP/2.0"] {
        let version = HttpVersion::parse(text);
        assert_eq!(version, HttpVersion::Unknown(text.to_string()));
        assert!(version.is_unknown());
        assert_eq!(version.to_string(), text);
    }
    assert_eq!(HttpVersion::default(), HttpVersion::Unknown(String::new()));
}

#[test]
fn version_predicates_tell_the_versions_apart() {
    assert!(HttpVersion::HTTP0_9.is_http0_9());
    assert!(HttpVersion::HTTP1_0.is_http1_0());
    assert!(HttpVersion::HTTP1_1.is_http1_1());
    assert!(HttpVersion::HTTP2.is_http2());
    assert!(HttpVersion::HTTP3.is_http3());
    assert!(!HttpVersion::HTTP1_1.is_http1_0());
    assert!(!HttpVersion::Unknown("HTTP/1.1".to_string()).is_http1_1());
}

#[test]
fn registered_statuses_are_read_and_written() {
    let table = [
        (HttpStatus::Continue, 100, http_constant::CONTINUE),
        (HttpStatus::OK, 200, http_constant::OK),
        (HttpStatus::NoContent, 204, http_constant::NO_CONTENT),
        (HttpStatus::IMUsed, 226, http_constant::IM_USED),
        (HttpStatus::NotModified, 304, http_constant::NOT_MODIFIED),
        (HttpStatus::BadRequest, 400, http_constant::BAD_REQUEST),
        (HttpStatus::NotFound, 404, http_constant::NOT_FOUND),
        (HttpStatus::ImATeapot, 418, http_constant::IM_A_TEAPOT),
        (HttpStatus::UnavailableForLegalReasons, 451, http_constant::UNAVAILABLE_FOR_LEGAL_REASONS),
        (HttpStatus::InternalServerError, 500, http_constant::INTERNAL_SERVER_ERROR),
        (
            HttpStatus::NetworkAuthenticationRequired,
            511,
            http_constant::NETWORK_AUTHENTICATION_REQUIRED,
        ),
    ];
    for (status, code, phrase) in table {
        assert_eq!(status.code(), code);
        assert_eq!(status.to_string(), phrase);
        assert_eq!(HttpStatus::phrase(code), phrase);
        assert_eq!(HttpStatus::parse(phrase), status);
        assert_eq!(HttpStatus::parse(&code.to_string()), status);
        assert_eq!(HttpStatus::from_code(code), Some(status.clone()));
    }
}

#[test]
fn every_registered_status_is_read_back() {
    let mut seen = 0;
    for code in 0..1000usize {
        if let Some(status) = HttpStatus::from_code(code) {
            seen += 1;
            assert_eq!(status.code(), code);
            assert_eq!(HttpStatus::parse(&status.to_string()), status);
            assert_eq!(HttpStatus::phrase(code), status.to_string());
            assert_eq!(status.clone(), status);
        } else {
            assert_eq!(HttpStatus::phrase(code), "Unknown");
        }
    }
    assert_eq!(seen, 62);
}

#[test]
fn unknown_status_keeps_its_text() {
    for text in ["", "ok", "299", "0404", "+404", "Nope"] {
        let status = HttpStatus::parse(text);
        assert_eq!(status, HttpStatus::Unknown(text.to_string()));
        assert!(status.is_unknown());
        assert_eq!(status.to_string(), text);
        assert_eq!(status.code(), 0);
    }
    assert_eq!(HttpStatus::from_str("404"), Ok(HttpStatus::NotFound));
}

#[test]
fn known_content_types_are_read_and_written() {
    let table = [
        (ContentType::ApplicationJson, http_constant::APPLICATION_JSON),
        (ContentType::ApplicationXml, http_constant::APPLICATION_XML),
        (ContentType::TextPlain, http_constant::TEXT_PLAIN),
        (ContentType::TextHtml, http_constant::TEXT_HTML),
        (ContentType::FormUrlEncoded, http_constant::FORM_URLENCODED),
    ];
    for (content_type, text) in table {
        assert_eq!(content_type.to_string(), text);
        assert_eq!(ContentType::parse(text), content_type);
        assert_eq!(ContentType::parse(&text.to_uppercase()), content_type);
        assert_eq!(ContentType::from_str(text), Ok(content_type.clone()));
        assert!(!content_type.is_unknown());
    }
}

#[test]
fn unknown_content_type_keeps_its_text() {
    for text in ["", "image/png", "text/html; charset=utf-8", "Text/Markdown"] {
        let content_type = ContentType::parse(text);
        assert_eq!(content_type, ContentType::Unknown(text.to_string()));
        assert_eq!(content_type.to_string(), text);
    }
    assert_eq!(ContentType::default(), ContentType::Unknown(String::new()));
}

#[test]
fn body_is_formatted_by_content_type() {
    assert_eq!(ContentType::ApplicationJson.body_form(), BodyForm::Json);
    assert_eq!(ContentType::ApplicationJson.get_body_string(Some("{\"a\":1}")), "{\"a\":1}");
    assert_eq!(ContentType::ApplicationJson.get_body_string(None), "{}");
    assert_eq!(ContentType::ApplicationXml.body_form(), BodyForm::Xml);
    assert_eq!(ContentType::ApplicationXml.get_body_string(Some("<a/>")), "<a/>");
    assert_eq!(ContentType::ApplicationXml.get_body_string(None), "<root></root>");
    assert_eq!(ContentType::FormUrlEncoded.body_form(), BodyForm::UrlEncoded);
    assert_eq!(ContentType::FormUrlEncoded.get_body_string(Some("a=1&b=2")), "a=1&b=2");
    assert_eq!(ContentType::FormUrlEncoded.get_body_string(None), "");
    assert_eq!(ContentType::TextPlain.body_form(), BodyForm::Display);
    assert_eq!(ContentType::TextPlain.get_body_string(Some("plain")), "plain");
    assert_eq!(ContentType::TextHtml.body_form(), BodyForm::Debug);
    assert_eq!(
        ContentType::TextHtml.get_body_string(Some("\"x\"")),
        "<table><tr><td>\"x\"</td></tr></table>"
    );
    assert_eq!(ContentType::TextHtml.get_body_string(None), "<table><tr><td></td></tr></table>");
}

#[test]
fn body_of_an_unknown_type_is_written_in_hexadecimal() {
    let unknown = ContentType::parse("application/octet-stream");
    assert_eq!(unknown.body_form(), BodyForm::Display);
    assert_eq!(unknown.get_body_string(Some("Hello world!")), "48656c6c6f20776f726c6421");
    assert_eq!(unknown.get_body_string(Some("\u{e9}\n")), "c3a90a");
    assert_eq!(unknown.get_body_string(Some("")), "");
    assert_eq!(unknown.get_body_string(None), "");
}

#[test]
fn content_type_is_joined_with_its_charset() {
    assert_eq!(
        ContentType::format_content_type_with_charset("text/html", "utf-8"),
        "text/html; charset=utf-8"
    );
    assert_eq!(
        ContentType::format_content_type_with_charset_declaration("text/html", "charset=utf-8"),
        "text/html; charset=utf-8"
    );
    assert_eq!(ContentType::format_content_type_with_charset("", ""), "; charset=");
}

#[test]
fn vocabulary_is_read_through_the_parse_method_of_strings() {
    assert_eq!("GET".parse::<Methods>(), Ok(Methods::GET));
    assert_eq!("BREW".parse::<Methods>(), Ok(Methods::UNKNOWN("BREW".to_string())));
    assert_eq!("HTTP/1.1".parse::<HttpVersion>(), Ok(HttpVersion::HTTP1_1));
    assert_eq!("HTTP/9".parse::<HttpVersion>(), Ok(HttpVersion::Unknown("HTTP/9".to_string())));
    assert_eq!("Not Found".parse::<HttpStatus>(), Ok(HttpStatus::NotFound));
    assert_eq!("404".parse::<HttpStatus>(), Ok(HttpStatus::NotFound));
    assert_eq!("Nope".parse::<HttpStatus>(), Ok(HttpStatus::Unknown("Nope".to_string())));
    assert_eq!("Text/HTML".parse::<ContentType>(), Ok(ContentType::TextHtml));
    assert_eq!("image/png".parse::<ContentType>(), Ok(ContentType::Unknown("image/png".to_string())));
}
