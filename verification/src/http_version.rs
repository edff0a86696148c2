//! Protocol versions.

use vstd::prelude::*;
use vstd::string::*;
use crate::text::same_str;

verus! {

/// A protocol version: one of the five that are known, or any other word.
#[derive(Debug, Eq)]
pub enum HttpVersion {
    HTTP0_9,
    HTTP1_0,
    HTTP1_1,
    HTTP2,
    HTTP3,
    /// A version that is none of the known ones, with its text as it was read.
    Unknown(String),
}

/// The known version that `s` names, if it names one.
pub open spec fn known_version(s: Seq<char>) -> Option<HttpVersion> {
    if s == "HTTP/0.9"@ {
        Some(HttpVersion::HTTP0_9)
    } else if s == "HTTP/1.0"@ {
        Some(HttpVersion::HTTP1_0)
    } else if s == "HTTP/1.1"@ {
        Some(HttpVersion::HTTP1_1)
    } else if s == "HTTP/2"@ {
        Some(HttpVersion::HTTP2)
    } else if s == "HTTP/3"@ {
        Some(HttpVersion::HTTP3)
    } else {
        None
    }
}

/// Whether `v` is what parsing `s` gives: the known version of that name, or
/// `Unknown` with the text itself.
pub open spec fn parses_to(s: Seq<char>, v: HttpVersion) -> bool {
    match known_version(s) {
        Some(known) => v == known,
        None => v matches HttpVersion::Unknown(t) && t@ == s,
    }
}

impl HttpVersion {
    /// The text of the version on the wire.
    pub open spec fn text(&self) -> Seq<char> {
        match self {
            HttpVersion::HTTP0_9 => "HTTP/0.9"@,
            HttpVersion::HTTP1_0 => "HTTP/1.0"@,
            HttpVersion::HTTP1_1 => "HTTP/1.1"@,
            HttpVersion::HTTP2 => "HTTP/2"@,
            HttpVersion::HTTP3 => "HTTP/3"@,
            HttpVersion::Unknown(t) => t@,
        }
    }

    /// Whether the version is one of the five known ones.
    pub open spec fn is_known(&self) -> bool {
        !(self is Unknown)
    }

    /// Whether two versions are the same: the same known version, or two
    /// unknown ones with the same text.
    pub open spec fn same(&self, other: &HttpVersion) -> bool {
        match (self, other) {
            (HttpVersion::Unknown(a), HttpVersion::Unknown(b)) => a@ == b@,
            _ => self == other,
        }
    }

    /// The version that `s` names. Never fails: a word that names no known
    /// version is kept as it is.
    pub fn from_str(s: &str) -> (r: Result<HttpVersion, String>)
        ensures
            r matches Ok(v) && parses_to(s@, v),
    {
        Ok(HttpVersion::parse(s))
    }

    /// The version that `s` names.
    pub fn parse(s: &str) -> (v: HttpVersion)
        ensures
            parses_to(s@, v),
    {
        if same_str(s, "HTTP/0.9") {
            HttpVersion::HTTP0_9
        } else if same_str(s, "HTTP/1.0") {
            HttpVersion::HTTP1_0
        } else if same_str(s, "HTTP/1.1") {
            HttpVersion::HTTP1_1
        } else if same_str(s, "HTTP/2") {
            HttpVersion::HTTP2
        } else if same_str(s, "HTTP/3") {
            HttpVersion::HTTP3
        } else {
            HttpVersion::Unknown(s.to_string())
        }
    }

    /// The text of the version on the wire.
    pub fn to_string(&self) -> (r: String)
        ensures
            r@ == self.text(),
    {
        match self {
            HttpVersion::HTTP0_9 => "HTTP/0.9".to_string(),
            HttpVersion::HTTP1_0 => "HTTP/1.0".to_string(),
            HttpVersion::HTTP1_1 => "HTTP/1.1".to_string(),
            HttpVersion::HTTP2 => "HTTP/2".to_string(),
            HttpVersion::HTTP3 => "HTTP/3".to_string(),
            HttpVersion::Unknown(t) => t.clone(),
        }
    }

    /// Whether the version is HTTP/0.9.
    pub fn is_http0_9(&self) -> (r: bool)
        ensures
            r == (self is HTTP0_9),
    {
        matches!(self, HttpVersion::HTTP0_9)
    }

    /// Whether the version is HTTP/1.0.
    pub fn is_http1_0(&self) -> (r: bool)
        ensures
            r == (self is HTTP1_0),
    {
        matches!(self, HttpVersion::HTTP1_0)
    }

    /// Whether the version is HTTP/1.1.
    pub fn is_http1_1(&self) -> (r: bool)
        ensures
            r == (self is HTTP1_1),
    {
        matches!(self, HttpVersion::HTTP1_1)
    }

    /// Whether the version is HTTP/2.
    pub fn is_http2(&self) -> (r: bool)
        ensures
            r == (self is HTTP2),
    {
        matches!(self, HttpVersion::HTTP2)
    }

    /// Whether the version is HTTP/3.
    pub fn is_http3(&self) -> (r: bool)
        ensures
            r == (self is HTTP3),
    {
        matches!(self, HttpVersion::HTTP3)
    }

    /// Whether the version is none of the known ones.
    pub fn is_unknown(&self) -> (r: bool)
        ensures
            r == (self is Unknown),
    {
        matches!(self, HttpVersion::Unknown(_))
    }
}

/// The five known names differ from one another.
pub proof fn lemma_known_names()
    ensures
        forall|v: HttpVersion| v.is_known() ==> known_version(#[trigger] v.text()) == Some(v),
{
    reveal_strlit("HTTP/0.9");
    reveal_strlit("HTTP/1.0");
    reveal_strlit("HTTP/1.1");
    reveal_strlit("HTTP/2");
    reveal_strlit("HTTP/3");
    assert forall|v: HttpVersion| v.is_known() implies known_version(#[trigger] v.text()) == Some(
        v,
    ) by {
        let s = v.text();
        match v {
            HttpVersion::HTTP0_9 => {},
            HttpVersion::HTTP1_0 => {
                assert(s[5] == '1');
            },
            HttpVersion::HTTP1_1 => {
                assert(s[5] == '1' && s[7] == '1');
            },
            HttpVersion::HTTP2 => {
                assert(s.len() == 6 && s[5] == '2');
            },
            HttpVersion::HTTP3 => {
                assert(s.len() == 6 && s[5] == '3');
            },
            HttpVersion::Unknown(_) => {},
        }
    }
}

/// Writing a known version and reading the text back gives the version.
pub proof fn law_known_version_round_trip(v: HttpVersion, read: HttpVersion)
    requires
        v.is_known(),
        parses_to(v.text(), read),
    ensures
        read == v,
{
    lemma_known_names();
}

/// Reading a word that names no known version never fails, and writing what
/// was read gives the word back.
pub proof fn law_unknown_version_round_trip(s: Seq<char>, read: HttpVersion)
    requires
        known_version(s) is None,
        parses_to(s, read),
    ensures
        read is Unknown,
        read.text() == s,
{
}

impl Default for HttpVersion {
    fn default() -> (r: HttpVersion)
        ensures
            r matches HttpVersion::Unknown(t) && t@.len() == 0,
    {
        HttpVersion::Unknown(String::new())
    }
}

impl Clone for HttpVersion {
    fn clone(&self) -> (r: HttpVersion)
        ensures
            r.same(self),
            r.text() == self.text(),
    {
        match self {
            HttpVersion::HTTP0_9 => HttpVersion::HTTP0_9,
            HttpVersion::HTTP1_0 => HttpVersion::HTTP1_0,
            HttpVersion::HTTP1_1 => HttpVersion::HTTP1_1,
            HttpVersion::HTTP2 => HttpVersion::HTTP2,
            HttpVersion::HTTP3 => HttpVersion::HTTP3,
            HttpVersion::Unknown(t) => HttpVersion::Unknown(t.clone()),
        }
    }
}

impl PartialEq for HttpVersion {
    fn eq(&self, other: &HttpVersion) -> (r: bool) {
        match (self, other) {
            (HttpVersion::HTTP0_9, HttpVersion::HTTP0_9) => true,
            (HttpVersion::HTTP1_0, HttpVersion::HTTP1_0) => true,
            (HttpVersion::HTTP1_1, HttpVersion::HTTP1_1) => true,
            (HttpVersion::HTTP2, HttpVersion::HTTP2) => true,
            (HttpVersion::HTTP3, HttpVersion::HTTP3) => true,
            (HttpVersion::Unknown(a), HttpVersion::Unknown(b)) => same_str(a.as_str(), b.as_str()),
            _ => false,
        }
    }
}

impl vstd::std_specs::cmp::PartialEqSpecImpl for HttpVersion {
    open spec fn obeys_eq_spec() -> bool {
        true
    }

    open spec fn eq_spec(&self, other: &HttpVersion) -> bool {
        self.same(other)
    }
}

impl std::str::FromStr for HttpVersion {
    type Err = String;

    /// The version that `s` names. Never fails: a word that names no known
    /// version is kept as it is.
    fn from_str(s: &str) -> (r: Result<HttpVersion, String>)
        ensures
            r matches Ok(v) && parses_to(s@, v),
    {
        Ok(HttpVersion::parse(s))
    }
}

} // verus!
