//! Content types, and the body text that each makes of a value.

use vstd::prelude::*;
use vstd::string::*;
use vstd::utf8::*;
use crate::text::{ascii_lowercase, chars_of, lowercase_ascii, same_str, same_text};
use crate::trusted::{hex_encode, hex_text};

verus! {

/// A content type: one of the five that bodies are formatted for, or any other.
#[derive(Debug, Eq)]
pub enum ContentType {
    /// `application/json`
    ApplicationJson,
    /// `application/xml`
    ApplicationXml,
    /// `text/plain`
    TextPlain,
    /// `text/html`
    TextHtml,
    /// `application/x-www-form-urlencoded`
    FormUrlEncoded,
    /// A type that is none of these, with its text as it was read.
    Unknown(String),
}

/// The rendering of a value that a content type makes its body from.
#[derive(Debug, Clone, Copy, PartialEq, Eq, Structural)]
pub enum BodyForm {
    /// The value serialised as JSON.
    Json,
    /// The value serialised as XML.
    Xml,
    /// The value serialised as a URL-encoded form.
    UrlEncoded,
    /// The value's display text.
    Display,
    /// The value's debug text.
    Debug,
}

/// The known content type that the lower-case text `s` names, if it names one.
pub open spec fn known_content_type(s: Seq<char>) -> Option<ContentType> {
    if s == "application/json"@ {
        Some(ContentType::ApplicationJson)
    } else if s == "application/xml"@ {
        Some(ContentType::ApplicationXml)
    } else if s == "text/plain"@ {
        Some(ContentType::TextPlain)
    } else if s == "text/html"@ {
        Some(ContentType::TextHtml)
    } else if s == "application/x-www-form-urlencoded"@ {
        Some(ContentType::FormUrlEncoded)
    } else {
        None
    }
}

/// Whether `t` is what parsing `s` gives: the known type that `s` names in
/// any case of letters, or `Unknown` with the text itself.
pub open spec fn parses_to(s: Seq<char>, t: ContentType) -> bool {
    match known_content_type(ascii_lowercase(s)) {
        Some(known) => t == known,
        None => t matches ContentType::Unknown(text) && text@ == s,
    }
}

/// The text of a rendering, or no text where there is no rendering.
pub open spec fn rendered_text(rendered: Option<Seq<char>>) -> Seq<char> {
    match rendered {
        Some(text) => text,
        None => Seq::empty(),
    }
}

/// The body text that `t` makes of a rendering; `None` stands for a
/// rendering that failed.
pub open spec fn body_text(t: ContentType, rendered: Option<Seq<char>>) -> Seq<char> {
    match t {
        ContentType::ApplicationJson => match rendered {
            Some(text) => text,
            None => "{}"@,
        },
        ContentType::ApplicationXml => match rendered {
            Some(text) => text,
            None => "<root></root>"@,
        },
        ContentType::FormUrlEncoded => rendered_text(rendered),
        ContentType::TextPlain => rendered_text(rendered),
        ContentType::TextHtml => "<table><tr><td>"@ + rendered_text(rendered)
            + "</td></tr></table>"@,
        ContentType::Unknown(_) => hex_text(encode_utf8(rendered_text(rendered))),
    }
}

impl ContentType {
    /// The text of the content type on the wire.
    pub open spec fn text(&self) -> Seq<char> {
        match self {
            ContentType::ApplicationJson => "application/json"@,
            ContentType::ApplicationXml => "application/xml"@,
            ContentType::TextPlain => "text/plain"@,
            ContentType::TextHtml => "text/html"@,
            ContentType::FormUrlEncoded => "application/x-www-form-urlencoded"@,
            ContentType::Unknown(t) => t@,
        }
    }

    /// Whether the content type is one of the five known ones.
    pub open spec fn is_known(&self) -> bool {
        !(self is Unknown)
    }

    /// The rendering of a value that the body is made from.
    pub open spec fn form(&self) -> BodyForm {
        match self {
            ContentType::ApplicationJson => BodyForm::Json,
            ContentType::ApplicationXml => BodyForm::Xml,
            ContentType::FormUrlEncoded => BodyForm::UrlEncoded,
            ContentType::TextPlain => BodyForm::Display,
            ContentType::TextHtml => BodyForm::Debug,
            ContentType::Unknown(_) => BodyForm::Display,
        }
    }

    /// Whether two content types are the same: the same known type, or two
    /// unknown ones with the same text.
    pub open spec fn same(&self, other: &ContentType) -> bool {
        match (self, other) {
            (ContentType::Unknown(a), ContentType::Unknown(b)) => a@ == b@,
            _ => self == other,
        }
    }

    /// The content type that `s` names. Never fails: a text that names no
    /// known type is kept as it is.
    pub fn from_str(s: &str) -> (r: Result<ContentType, ()>)
        ensures
            r matches Ok(t) && parses_to(s@, t),
    {
        Ok(ContentType::parse(s))
    }

    /// The content type that `s` names.
    pub fn parse(s: &str) -> (t: ContentType)
        ensures
            parses_to(s@, t),
    {
        let lower = lowercase_ascii(chars_of(s).as_slice());
        if same_text(lower.as_slice(), chars_of("application/json").as_slice()) {
            ContentType::ApplicationJson
        } else if same_text(lower.as_slice(), chars_of("application/xml").as_slice()) {
            ContentType::ApplicationXml
        } else if same_text(lower.as_slice(), chars_of("text/plain").as_slice()) {
            ContentType::TextPlain
        } else if same_text(lower.as_slice(), chars_of("text/html").as_slice()) {
            ContentType::TextHtml
        } else if same_text(
            lower.as_slice(),
            chars_of("application/x-www-form-urlencoded").as_slice(),
        ) {
            ContentType::FormUrlEncoded
        } else {
            ContentType::Unknown(s.to_string())
        }
    }

    /// The text of the content type on the wire.
    pub fn to_string(&self) -> (r: String)
        ensures
            r@ == self.text(),
    {
        match self {
            ContentType::ApplicationJson => "application/json".to_string(),
            ContentType::ApplicationXml => "application/xml".to_string(),
            ContentType::TextPlain => "text/plain".to_string(),
            ContentType::TextHtml => "text/html".to_string(),
            ContentType::FormUrlEncoded => "application/x-www-form-urlencoded".to_string(),
            ContentType::Unknown(t) => t.clone(),
        }
    }

    /// The rendering of a value that [`ContentType::get_body_string`] is to
    /// be given.
    pub fn body_form(&self) -> (r: BodyForm)
        ensures
            r == self.form(),
    {
        match self {
            ContentType::ApplicationJson => BodyForm::Json,
            ContentType::ApplicationXml => BodyForm::Xml,
            ContentType::FormUrlEncoded => BodyForm::UrlEncoded,
            ContentType::TextPlain => BodyForm::Display,
            ContentType::TextHtml => BodyForm::Debug,
            ContentType::Unknown(_) => BodyForm::Display,
        }
    }

    /// The JSON body: the serialised value, or an empty object where
    /// serialising failed.
    fn get_application_json(rendered: Option<&str>) -> (r: String)
        ensures
            r@ == body_text(ContentType::ApplicationJson, view_of(rendered)),
    {
        match rendered {
            Some(text) => text.to_string(),
            None => "{}".to_string(),
        }
    }

    /// The XML body: the serialised value, or an empty root element where
    /// serialising failed.
    fn get_application_xml(rendered: Option<&str>) -> (r: String)
        ensures
            r@ == body_text(ContentType::ApplicationXml, view_of(rendered)),
    {
        match rendered {
            Some(text) => text.to_string(),
            None => "<root></root>".to_string(),
        }
    }

    /// The plain body: the display text of the value.
    fn get_text_plain(rendered: Option<&str>) -> (r: String)
        ensures
            r@ == rendered_text(view_of(rendered)),
    {
        match rendered {
            Some(text) => text.to_string(),
            None => String::new(),
        }
    }

    /// The HTML body: the debug text of the value in a table of one cell.
    fn get_text_html(rendered: Option<&str>) -> (r: String)
        ensures
            r@ == body_text(ContentType::TextHtml, view_of(rendered)),
    {
        let mut html = "<table><tr><td>".to_string();
        match rendered {
            Some(text) => html.append(text),
            None => {},
        }
        html.append("</td></tr></table>");
        html
    }

    /// The form body: the serialised value, or nothing where serialising
    /// failed.
    fn get_form_url_encoded(rendered: Option<&str>) -> (r: String)
        ensures
            r@ == rendered_text(view_of(rendered)),
    {
        ContentType::get_text_plain(rendered)
    }

    /// The body for a type that is not known: the display text of the
    /// value, its UTF-8 bytes written in hexadecimal.
    fn get_binary(rendered: Option<&str>) -> (r: String)
        ensures
            r@ == hex_text(encode_utf8(rendered_text(view_of(rendered)))),
    {
        match rendered {
            Some(text) => hex_encode(text.as_bytes()),
            None => {
                String::new()
            },
        }
    }

    /// The body text for a value under this content type.
    ///
    /// `rendered` is the rendering of the value that
    /// [`ContentType::body_form`] names, or `None` where making it failed.
    /// Nothing here fails: a missing rendering gives the type's fallback.
    pub fn get_body_string(&self, rendered: Option<&str>) -> (r: String)
        ensures
            r@ == body_text(*self, view_of(rendered)),
    {
        match self {
            ContentType::ApplicationJson => ContentType::get_application_json(rendered),
            ContentType::ApplicationXml => ContentType::get_application_xml(rendered),
            ContentType::TextPlain => ContentType::get_text_plain(rendered),
            ContentType::TextHtml => ContentType::get_text_html(rendered),
            ContentType::FormUrlEncoded => ContentType::get_form_url_encoded(rendered),
            ContentType::Unknown(_) => ContentType::get_binary(rendered),
        }
    }

    /// A content type with a character set: `text/html` and `utf-8` give
    /// `text/html; charset=utf-8`.
    pub fn format_content_type_with_charset(content_type: &str, charset: &str) -> (r: String)
        ensures
            r@ == content_type@ + "; "@ + "charset="@ + charset@,
    {
        let mut r = String::new();
        r.append(content_type);
        r.append("; ");
        r.append("charset=");
        r.append(charset);
        r
    }

    /// A content type with a character set declaration: `text/html` and
    /// `charset=utf-8` give `text/html; charset=utf-8`.
    pub fn format_content_type_with_charset_declaration(
        content_type: &str,
        charset_with_key: &str,
    ) -> (r: String)
        ensures
            r@ == content_type@ + "; "@ + charset_with_key@,
    {
        let mut r = String::new();
        r.append(content_type);
        r.append("; ");
        r.append(charset_with_key);
        r
    }

    /// Whether the content type is none of the known ones.
    pub fn is_unknown(&self) -> (r: bool)
        ensures
            r == (self is Unknown),
    {
        matches!(self, ContentType::Unknown(_))
    }
}

/// The text that an optional string holds.
pub open spec fn view_of(rendered: Option<&str>) -> Option<Seq<char>> {
    match rendered {
        Some(text) => Some(text@),
        None => None,
    }
}

/// The five known names are in lower case and differ from one another.
pub proof fn lemma_known_names(t: ContentType)
    requires
        t.is_known(),
    ensures
        ascii_lowercase(t.text()) == t.text(),
        known_content_type(t.text()) == Some(t),
{
    reveal_strlit("application/json");
    reveal_strlit("application/xml");
    reveal_strlit("text/plain");
    reveal_strlit("text/html");
    reveal_strlit("application/x-www-form-urlencoded");
    let s = t.text();
    assert(ascii_lowercase(s) =~= s);
    match t {
        ContentType::ApplicationJson => {},
        ContentType::ApplicationXml => {
            assert(s[12] == 'x');
        },
        ContentType::TextPlain => {
            assert(s[0] == 't');
        },
        ContentType::TextHtml => {
            assert(s[0] == 't' && s[5] == 'h');
        },
        ContentType::FormUrlEncoded => {
            assert(s[12] == 'x' && s[13] == '-');
        },
        ContentType::Unknown(_) => {},
    }
}

/// Writing a known content type and reading the text back gives the type.
pub proof fn law_known_content_type_round_trip(t: ContentType, read: ContentType)
    requires
        t.is_known(),
        parses_to(t.text(), read),
    ensures
        read == t,
{
    lemma_known_names(t);
}

/// Reading a text that names no known content type never fails, and writing
/// what was read gives the text back.
pub proof fn law_unknown_content_type_round_trip(s: Seq<char>, read: ContentType)
    requires
        known_content_type(ascii_lowercase(s)) is None,
        parses_to(s, read),
    ensures
        read is Unknown,
        read.text() == s,
{
}

impl Default for ContentType {
    fn default() -> (r: ContentType)
        ensures
            r matches ContentType::Unknown(t) && t@.len() == 0,
    {
        ContentType::Unknown(String::new())
    }
}

impl Clone for ContentType {
    fn clone(&self) -> (r: ContentType)
        ensures
            r.same(self),
            r.text() == self.text(),
    {
        match self {
            ContentType::ApplicationJson => ContentType::ApplicationJson,
            ContentType::ApplicationXml => ContentType::ApplicationXml,
            ContentType::TextPlain => ContentType::TextPlain,
            ContentType::TextHtml => ContentType::TextHtml,
            ContentType::FormUrlEncoded => ContentType::FormUrlEncoded,
            ContentType::Unknown(t) => ContentType::Unknown(t.clone()),
        }
    }
}

impl PartialEq for ContentType {
    fn eq(&self, other: &ContentType) -> (r: bool) {
        match (self, other) {
            (ContentType::ApplicationJson, ContentType::ApplicationJson) => true,
            (ContentType::ApplicationXml, ContentType::ApplicationXml) => true,
            (ContentType::TextPlain, ContentType::TextPlain) => true,
            (ContentType::TextHtml, ContentType::TextHtml) => true,
            (ContentType::FormUrlEncoded, ContentType::FormUrlEncoded) => true,
            (ContentType::Unknown(a), ContentType::Unknown(b)) => same_str(a.as_str(), b.as_str()),
            _ => false,
        }
    }
}

impl vstd::std_specs::cmp::PartialEqSpecImpl for ContentType {
    open spec fn obeys_eq_spec() -> bool {
        true
    }

    open spec fn eq_spec(&self, other: &ContentType) -> bool {
        self.same(other)
    }
}

impl std::str::FromStr for ContentType {
    type Err = ();

    /// The content type that `s` names. Never fails: a text that names no
    /// known type is kept as it is.
    fn from_str(s: &str) -> (r: Result<ContentType, ()>)
        ensures
            r matches Ok(t) && parses_to(s@, t),
    {
        Ok(ContentType::parse(s))
    }
}

} // verus!
