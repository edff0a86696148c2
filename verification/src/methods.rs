//! Request methods.

use vstd::prelude::*;
use vstd::string::*;
use crate::text::same_str;

verus! {

/// A request method: one of the nine standard ones, or any other word.
#[derive(Debug, Eq)]
pub enum Methods {
    GET,
    POST,
    PUT,
    DELETE,
    PATCH,
    HEAD,
    OPTIONS,
    CONNECT,
    TRACE,
    /// A method that is none of the standard ones, with its text as it was read.
    UNKNOWN(String),
}

/// The standard method that `s` names, if it names one. Case matters.
pub open spec fn standard_method(s: Seq<char>) -> Option<Methods> {
    if s == "GET"@ {
        Some(Methods::GET)
    } else if s == "POST"@ {
        Some(Methods::POST)
    } else if s == "PUT"@ {
        Some(Methods::PUT)
    } else if s == "DELETE"@ {
        Some(Methods::DELETE)
    } else if s == "PATCH"@ {
        Some(Methods::PATCH)
    } else if s == "HEAD"@ {
        Some(Methods::HEAD)
    } else if s == "OPTIONS"@ {
        Some(Methods::OPTIONS)
    } else if s == "CONNECT"@ {
        Some(Methods::CONNECT)
    } else if s == "TRACE"@ {
        Some(Methods::TRACE)
    } else {
        None
    }
}

/// Whether `m` is what parsing `s` gives: the standard method of that name,
/// or `UNKNOWN` with the text itself.
pub open spec fn parses_to(s: Seq<char>, m: Methods) -> bool {
    match standard_method(s) {
        Some(standard) => m == standard,
        None => m matches Methods::UNKNOWN(t) && t@ == s,
    }
}

impl Methods {
    /// The text of the method on the wire.
    pub open spec fn text(&self) -> Seq<char> {
        match self {
            Methods::GET => "GET"@,
            Methods::POST => "POST"@,
            Methods::PUT => "PUT"@,
            Methods::DELETE => "DELETE"@,
            Methods::PATCH => "PATCH"@,
            Methods::HEAD => "HEAD"@,
            Methods::OPTIONS => "OPTIONS"@,
            Methods::CONNECT => "CONNECT"@,
            Methods::TRACE => "TRACE"@,
            Methods::UNKNOWN(t) => t@,
        }
    }

    /// Whether the method is one of the nine standard ones.
    pub open spec fn is_standard(&self) -> bool {
        !(self is UNKNOWN)
    }

    /// Whether two methods are the same: the same standard method, or two
    /// unknown ones with the same text.
    pub open spec fn same(&self, other: &Methods) -> bool {
        match (self, other) {
            (Methods::UNKNOWN(a), Methods::UNKNOWN(b)) => a@ == b@,
            _ => self == other,
        }
    }

    /// The method without a name: `UNKNOWN` with an empty text.
    pub fn new() -> (r: Methods)
        ensures
            r matches Methods::UNKNOWN(t) && t@.len() == 0,
    {
        Methods::UNKNOWN(String::new())
    }

    /// The method that `s` names. Never fails: a word that names no standard
    /// method is kept as it is.
    pub fn from_str(s: &str) -> (r: Result<Methods, ()>)
        ensures
            r matches Ok(m) && parses_to(s@, m),
    {
        Ok(Methods::parse(s))
    }

    /// The method that `s` names.
    pub fn parse(s: &str) -> (m: Methods)
        ensures
            parses_to(s@, m),
    {
        if same_str(s, "GET") {
            Methods::GET
        } else if same_str(s, "POST") {
            Methods::POST
        } else if same_str(s, "PUT") {
            Methods::PUT
        } else if same_str(s, "DELETE") {
            Methods::DELETE
        } else if same_str(s, "PATCH") {
            Methods::PATCH
        } else if same_str(s, "HEAD") {
            Methods::HEAD
        } else if same_str(s, "OPTIONS") {
            Methods::OPTIONS
        } else if same_str(s, "CONNECT") {
            Methods::CONNECT
        } else if same_str(s, "TRACE") {
            Methods::TRACE
        } else {
            Methods::UNKNOWN(s.to_string())
        }
    }

    /// The text of the method on the wire.
    pub fn to_string(&self) -> (r: String)
        ensures
            r@ == self.text(),
    {
        match self {
            Methods::GET => "GET".to_string(),
            Methods::POST => "POST".to_string(),
            Methods::PUT => "PUT".to_string(),
            Methods::DELETE => "DELETE".to_string(),
            Methods::PATCH => "PATCH".to_string(),
            Methods::HEAD => "HEAD".to_string(),
            Methods::OPTIONS => "OPTIONS".to_string(),
            Methods::CONNECT => "CONNECT".to_string(),
            Methods::TRACE => "TRACE".to_string(),
            Methods::UNKNOWN(t) => t.clone(),
        }
    }

    /// Whether the method is `GET`.
    pub fn is_get(&self) -> (r: bool)
        ensures
            r == (self is GET),
    {
        matches!(self, Methods::GET)
    }

    /// Whether the method is `POST`.
    pub fn is_post(&self) -> (r: bool)
        ensures
            r == (self is POST),
    {
        matches!(self, Methods::POST)
    }

    /// Whether the method is `PUT`.
    pub fn is_put(&self) -> (r: bool)
        ensures
            r == (self is PUT),
    {
        matches!(self, Methods::PUT)
    }

    /// Whether the method is `DELETE`.
    pub fn is_delete(&self) -> (r: bool)
        ensures
            r == (self is DELETE),
    {
        matches!(self, Methods::DELETE)
    }

    /// Whether the method is `PATCH`.
    pub fn is_patch(&self) -> (r: bool)
        ensures
            r == (self is PATCH),
    {
        matches!(self, Methods::PATCH)
    }

    /// Whether the method is `HEAD`.
    pub fn is_head(&self) -> (r: bool)
        ensures
            r == (self is HEAD),
    {
        matches!(self, Methods::HEAD)
    }

    /// Whether the method is `OPTIONS`.
    pub fn is_options(&self) -> (r: bool)
        ensures
            r == (self is OPTIONS),
    {
        matches!(self, Methods::OPTIONS)
    }

    /// Whether the method is `CONNECT`.
    pub fn is_connect(&self) -> (r: bool)
        ensures
            r == (self is CONNECT),
    {
        matches!(self, Methods::CONNECT)
    }

    /// Whether the method is `TRACE`.
    pub fn is_trace(&self) -> (r: bool)
        ensures
            r == (self is TRACE),
    {
        matches!(self, Methods::TRACE)
    }

    /// Whether the method is none of the standard ones.
    pub fn is_unknown(&self) -> (r: bool)
        ensures
            r == (self is UNKNOWN),
    {
        matches!(self, Methods::UNKNOWN(_))
    }
}

/// The nine standard names differ from one another.
pub proof fn lemma_standard_names()
    ensures
        forall|m: Methods| m.is_standard() ==> standard_method(#[trigger] m.text()) == Some(m),
{
    reveal_strlit("GET");
    reveal_strlit("POST");
    reveal_strlit("PUT");
    reveal_strlit("DELETE");
    reveal_strlit("PATCH");
    reveal_strlit("HEAD");
    reveal_strlit("OPTIONS");
    reveal_strlit("CONNECT");
    reveal_strlit("TRACE");
    assert forall|m: Methods| m.is_standard() implies standard_method(#[trigger] m.text()) == Some(
        m,
    ) by {
        let s = m.text();
        match m {
            Methods::GET => {},
            Methods::POST => {
                assert(s[0] == 'P');
            },
            Methods::PUT => {
                assert(s[1] == 'U');
            },
            Methods::DELETE => {
                assert(s[0] == 'D');
            },
            Methods::PATCH => {
                assert(s[1] == 'A');
            },
            Methods::HEAD => {
                assert(s[0] == 'H');
            },
            Methods::OPTIONS => {
                assert(s[0] == 'O');
            },
            Methods::CONNECT => {
                assert(s[0] == 'C');
            },
            Methods::TRACE => {
                assert(s[0] == 'T');
            },
            Methods::UNKNOWN(_) => {},
        }
    }
}

/// Writing a standard method and reading the text back gives the method.
pub proof fn law_standard_method_round_trip(m: Methods, read: Methods)
    requires
        m.is_standard(),
        parses_to(m.text(), read),
    ensures
        read == m,
{
    lemma_standard_names();
}

/// Reading a word that names no standard method never fails, and writing
/// what was read gives the word back.
pub proof fn law_unknown_method_round_trip(s: Seq<char>, read: Methods)
    requires
        standard_method(s) is None,
        parses_to(s, read),
    ensures
        read is UNKNOWN,
        read.text() == s,
{
}

impl Default for Methods {
    fn default() -> (r: Methods)
        ensures
            r matches Methods::UNKNOWN(t) && t@.len() == 0,
    {
        Methods::new()
    }
}

impl Clone for Methods {
    fn clone(&self) -> (r: Methods)
        ensures
            r.same(self),
            r.text() == self.text(),
    {
        match self {
            Methods::GET => Methods::GET,
            Methods::POST => Methods::POST,
            Methods::PUT => Methods::PUT,
            Methods::DELETE => Methods::DELETE,
            Methods::PATCH => Methods::PATCH,
            Methods::HEAD => Methods::HEAD,
            Methods::OPTIONS => Methods::OPTIONS,
            Methods::CONNECT => Methods::CONNECT,
            Methods::TRACE => Methods::TRACE,
            Methods::UNKNOWN(t) => Methods::UNKNOWN(t.clone()),
        }
    }
}

impl PartialEq for Methods {
    fn eq(&self, other: &Methods) -> (r: bool) {
        match (self, other) {
            (Methods::GET, Methods::GET) => true,
            (Methods::POST, Methods::POST) => true,
            (Methods::PUT, Methods::PUT) => true,
            (Methods::DELETE, Methods::DELETE) => true,
            (Methods::PATCH, Methods::PATCH) => true,
            (Methods::HEAD, Methods::HEAD) => true,
            (Methods::OPTIONS, Methods::OPTIONS) => true,
            (Methods::CONNECT, Methods::CONNECT) => true,
            (Methods::TRACE, Methods::TRACE) => true,
            (Methods::UNKNOWN(a), Methods::UNKNOWN(b)) => same_str(a.as_str(), b.as_str()),
            _ => false,
        }
    }
}

impl vstd::std_specs::cmp::PartialEqSpecImpl for Methods {
    open spec fn obeys_eq_spec() -> bool {
        true
    }

    open spec fn eq_spec(&self, other: &Methods) -> bool {
        self.same(other)
    }
}

impl std::str::FromStr for Methods {
    type Err = ();

    /// The method that `s` names. Never fails: a word that names no standard
    /// method is kept as it is.
    fn from_str(s: &str) -> (r: Result<Methods, ()>)
        ensures
            r matches Ok(m) && parses_to(s@, m),
    {
        Ok(Methods::parse(s))
    }
}

} // verus!
