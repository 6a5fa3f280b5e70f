//! HTTP methods as a bit set.

use vstd::prelude::*;

verus! {

/// The bit of the HTTP GET method.
pub const GET: u8 = 0b0000_0001;

/// The bit of the HTTP POST method.
pub const POST: u8 = 0b0000_0010;

/// The bit of the HTTP PUT method.
pub const PUT: u8 = 0b0000_0100;

/// The bit of the HTTP PATCH method.
pub const PATCH: u8 = 0b0000_1000;

/// The bit of the HTTP DELETE method.
pub const DELETE: u8 = 0b0001_0000;

/// The bit of the HTTP HEAD method.
pub const HEAD: u8 = 0b0010_0000;

/// The bit of the HTTP OPTIONS method.
pub const OPTIONS: u8 = 0b0100_0000;

/// The bit of the HTTP TRACE method.
pub const TRACE: u8 = 0b1000_0000;

/// A set of HTTP methods, one bit per method.
///
/// Two sets match when they share a method. A set of several methods is built
/// from the single-method sets with `|`.
#[derive(Debug, Clone, Copy, PartialEq, Eq, Hash, Structural)]
pub struct HttpMethod(pub u8);

impl HttpMethod {
    /// The set that holds the HTTP GET method alone.
    pub fn get() -> (r: HttpMethod)
        ensures
            r.bits() == GET,
    {
        HttpMethod(GET)
    }

    /// The set that holds the HTTP POST method alone.
    pub fn post() -> (r: HttpMethod)
        ensures
            r.bits() == POST,
    {
        HttpMethod(POST)
    }

    /// The set that holds the HTTP PUT method alone.
    pub fn put() -> (r: HttpMethod)
        ensures
            r.bits() == PUT,
    {
        HttpMethod(PUT)
    }

    /// The set that holds the HTTP PATCH method alone.
    pub fn patch() -> (r: HttpMethod)
        ensures
            r.bits() == PATCH,
    {
        HttpMethod(PATCH)
    }

    /// The set that holds the HTTP DELETE method alone.
    pub fn delete() -> (r: HttpMethod)
        ensures
            r.bits() == DELETE,
    {
        HttpMethod(DELETE)
    }

    /// The set that holds the HTTP HEAD method alone.
    pub fn head() -> (r: HttpMethod)
        ensures
            r.bits() == HEAD,
    {
        HttpMethod(HEAD)
    }

    /// The set that holds the HTTP OPTIONS method alone.
    pub fn options() -> (r: HttpMethod)
        ensures
            r.bits() == OPTIONS,
    {
        HttpMethod(OPTIONS)
    }

    /// The set that holds the HTTP TRACE method alone.
    pub fn trace() -> (r: HttpMethod)
        ensures
            r.bits() == TRACE,
    {
        HttpMethod(TRACE)
    }

    /// The bits of this set: bit `i` is set when the `i`-th method is a member.
    pub open spec fn bits(self) -> u8 {
        self.0
    }

    /// Whether the two sets share a method.
    pub open spec fn spec_matches(self, other: HttpMethod) -> bool {
        self.bits() & other.bits() != 0
    }

    /// The set that holds the methods of both sets.
    pub open spec fn spec_union(self, other: HttpMethod) -> HttpMethod {
        HttpMethod(self.bits() | other.bits())
    }

    /// The bits of this set.
    pub fn to_bits(&self) -> (r: u8)
        ensures
            r == self.bits(),
    {
        self.0
    }

    /// Returns true if this set and `other` share a method.
    pub fn matches(&self, other: &HttpMethod) -> (r: bool)
        ensures
            r == self.spec_matches(*other),
    {
        (self.0 & other.0) != 0
    }
}

impl std::ops::BitOr for HttpMethod {
    type Output = Self;

    /// The set that holds the methods of both sets.
    fn bitor(self, other: Self) -> (r: Self) {
        HttpMethod(self.0 | other.0)
    }
}

impl vstd::std_specs::ops::BitOrSpecImpl for HttpMethod {
    open spec fn obeys_bitor_spec() -> bool {
        true
    }

    open spec fn bitor_req(self, rhs: Self) -> bool {
        true
    }

    open spec fn bitor_spec(self, rhs: Self) -> Self {
        self.spec_union(rhs)
    }
}

/// `http::Method`, the method of a request.
#[verifier::external_type_specification]
#[verifier::external_body]
pub struct ExMethod(http::Method);

/// The name of a method, as `Method::as_str` gives it.
pub uninterp spec fn method_text(method: http::Method) -> Seq<char>;

/// `Method::as_str`: the name of the method, copied.
#[verifier::external_body]
fn method_name(method: &http::Method) -> (name: String)
    ensures
        name@ == method_text(*method),
{
    method.as_str().to_owned()
}

/// The bits of the set that holds the method named `name` alone. The eight
/// methods are named in upper case; any other name is that of no method.
pub open spec fn named_bits(name: Seq<char>) -> Option<u8> {
    if name == "GET"@ {
        Some(GET)
    } else if name == "POST"@ {
        Some(POST)
    } else if name == "PUT"@ {
        Some(PUT)
    } else if name == "PATCH"@ {
        Some(PATCH)
    } else if name == "DELETE"@ {
        Some(DELETE)
    } else if name == "HEAD"@ {
        Some(HEAD)
    } else if name == "OPTIONS"@ {
        Some(OPTIONS)
    } else if name == "TRACE"@ {
        Some(TRACE)
    } else {
        None
    }
}

/// Whether `bits` are those of one of the eight methods alone.
pub open spec fn is_single(bits: u8) -> bool {
    bits == GET || bits == POST || bits == PUT || bits == PATCH || bits == DELETE || bits == HEAD
        || bits == OPTIONS || bits == TRACE
}

/// Whether `name` is the text `literal`.
fn is_name(name: &str, literal: &str) -> (r: bool)
    ensures
        r == (name@ == literal@),
{
    name.to_owned() == literal.to_owned()
}

impl HttpMethod {
    /// The set with the given bits.
    pub fn from_bits(bits: u8) -> (r: HttpMethod)
        ensures
            r.bits() == bits,
    {
        HttpMethod(bits)
    }

    /// The set that holds the method named `name` alone, if it names one of
    /// the eight.
    pub fn from_name(name: &str) -> (r: Option<HttpMethod>)
        ensures
            match r {
                Some(m) => named_bits(name@) == Some(m.bits()),
                None => named_bits(name@) is None,
            },
    {
        if is_name(name, "GET") {
            Some(HttpMethod(GET))
        } else if is_name(name, "POST") {
            Some(HttpMethod(POST))
        } else if is_name(name, "PUT") {
            Some(HttpMethod(PUT))
        } else if is_name(name, "PATCH") {
            Some(HttpMethod(PATCH))
        } else if is_name(name, "DELETE") {
            Some(HttpMethod(DELETE))
        } else if is_name(name, "HEAD") {
            Some(HttpMethod(HEAD))
        } else if is_name(name, "OPTIONS") {
            Some(HttpMethod(OPTIONS))
        } else if is_name(name, "TRACE") {
            Some(HttpMethod(TRACE))
        } else {
            None
        }
    }

    /// The set that holds the method of a request alone. A method that is
    /// none of the eight gives nothing.
    pub fn from_method(method: &http::Method) -> (r: Option<HttpMethod>)
        ensures
            match r {
                Some(m) => named_bits(method_text(*method)) == Some(m.bits()),
                None => named_bits(method_text(*method)) is None,
            },
            r matches Some(m) ==> is_single(m.bits()),
    {
        let name = method_name(method);
        Self::from_name(name.as_str())
    }

    /// The methods of a request, as a set: its method alone, or, where that
    /// is none of the eight, no method at all. The empty set matches no
    /// route.
    pub fn of_request(method: &http::Method) -> (r: HttpMethod)
        ensures
            r.bits() == match named_bits(method_text(*method)) {
                Some(bits) => bits,
                None => 0u8,
            },
    {
        match Self::from_method(method) {
            Some(m) => m,
            None => HttpMethod(0),
        }
    }

    /// The methods by which an action can be called unless it says otherwise:
    /// GET, POST, PUT, PATCH and DELETE.
    pub fn action_default() -> (r: HttpMethod)
        ensures
            r.bits() == GET | POST | PUT | PATCH | DELETE,
    {
        HttpMethod::get() | HttpMethod::post() | HttpMethod::put() | HttpMethod::patch()
            | HttpMethod::delete()
    }
}

/// To match is mutual.
pub proof fn law_matches_is_symmetric(a: HttpMethod, b: HttpMethod)
    ensures
        a.spec_matches(b) == b.spec_matches(a),
{
    let x = a.bits();
    let y = b.bits();
    assert((x & y) == (y & x)) by (bit_vector);
}

/// A union matches what one of its two sets matches.
pub proof fn law_union_matches_either(a: HttpMethod, b: HttpMethod, c: HttpMethod)
    ensures
        a.spec_union(b).spec_matches(c) == (a.spec_matches(c) || b.spec_matches(c)),
{
    let x = a.bits();
    let y = b.bits();
    let z = c.bits();
    assert((((x | y) & z) != 0) == ((x & z) != 0 || (y & z) != 0)) by (bit_vector);
}

/// Two single methods match only where they are the same method.
pub proof fn law_single_methods_match_themselves(a: HttpMethod, b: HttpMethod)
    requires
        is_single(a.bits()),
        is_single(b.bits()),
    ensures
        a.spec_matches(b) == (a == b),
{
    let x = a.bits();
    let y = b.bits();
    assert((x == 1 || x == 2 || x == 4 || x == 8 || x == 16 || x == 32 || x == 64 || x == 128) && (
    y == 1 || y == 2 || y == 4 || y == 8 || y == 16 || y == 32 || y == 64 || y == 128) ==> (((x & y)
        != 0) == (x == y))) by (bit_vector);
}

/// The empty set matches nothing.
pub proof fn law_empty_set_matches_nothing(a: HttpMethod)
    ensures
        !HttpMethod(0).spec_matches(a),
{
    let x = a.bits();
    assert((0u8 & x) == 0) by (bit_vector);
}

} // verus!
