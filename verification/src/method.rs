//! The HTTP request method and the fixed list the method picker
//! offers.

use vstd::prelude::*;

verus! {

/// How many methods the picker offers.
pub const METHOD_COUNT: usize = 7;

#[derive(Copy, Clone, Debug, PartialEq, Eq, Structural)]
#[allow(clippy::upper_case_acronyms)]
pub enum HttpMethod {
    GET,
    POST,
    PUT,
    DELETE,
    PATCH,
    HEAD,
    OPTIONS,
}

/// The methods in picker order.
pub open spec fn method_seq() -> Seq<HttpMethod> {
    seq![
        HttpMethod::GET,
        HttpMethod::POST,
        HttpMethod::PUT,
        HttpMethod::DELETE,
        HttpMethod::PATCH,
        HttpMethod::HEAD,
        HttpMethod::OPTIONS,
    ]
}

/// The display name of each method.
pub open spec fn method_name(m: HttpMethod) -> Seq<char> {
    match m {
        HttpMethod::GET => "GET"@,
        HttpMethod::POST => "POST"@,
        HttpMethod::PUT => "PUT"@,
        HttpMethod::DELETE => "DELETE"@,
        HttpMethod::PATCH => "PATCH"@,
        HttpMethod::HEAD => "HEAD"@,
        HttpMethod::OPTIONS => "OPTIONS"@,
    }
}

impl HttpMethod {
    /// Every method, in the order the picker shows them.
    pub fn all_methods() -> (r: Vec<HttpMethod>)
        ensures
            r@ == method_seq(),
    {
        let mut v: Vec<HttpMethod> = Vec::new();
        v.push(HttpMethod::GET);
        v.push(HttpMethod::POST);
        v.push(HttpMethod::PUT);
        v.push(HttpMethod::DELETE);
        v.push(HttpMethod::PATCH);
        v.push(HttpMethod::HEAD);
        v.push(HttpMethod::OPTIONS);
        proof {
            assert(v@ =~= method_seq());
        }
        v
    }

    /// The display name of this method.
    pub fn to_string(&self) -> (r: &'static str)
        ensures
            r@ == method_name(*self),
    {
        match self {
            HttpMethod::GET => "GET",
            HttpMethod::POST => "POST",
            HttpMethod::PUT => "PUT",
            HttpMethod::DELETE => "DELETE",
            HttpMethod::PATCH => "PATCH",
            HttpMethod::HEAD => "HEAD",
            HttpMethod::OPTIONS => "OPTIONS",
        }
    }

    /// The method at a picker position.
    pub fn method_at(i: usize) -> (r: HttpMethod)
        requires
            i < METHOD_COUNT,
        ensures
            r == method_seq()[i as int],
    {
        if i == 0 {
            HttpMethod::GET
        } else if i == 1 {
            HttpMethod::POST
        } else if i == 2 {
            HttpMethod::PUT
        } else if i == 3 {
            HttpMethod::DELETE
        } else if i == 4 {
            HttpMethod::PATCH
        } else if i == 5 {
            HttpMethod::HEAD
        } else {
            HttpMethod::OPTIONS
        }
    }
}

} // verus!
