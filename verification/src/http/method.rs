use crate::text::str_eq;
use std::str::FromStr;
use vstd::prelude::*;

verus! {

/// The request methods that the server recognises.
#[derive(Eq, Hash, PartialEq, Clone, Copy, Debug, Structural)]
pub enum Method {
    GET,
    POST,
    PUT,
    OPTIONS,
    DELETE,
    TRACE,
}

impl Method {
    /// The method as it is written on the wire.
    pub open spec fn name(self) -> Seq<char> {
        match self {
            Method::GET => "GET"@,
            Method::POST => "POST"@,
            Method::PUT => "PUT"@,
            Method::OPTIONS => "OPTIONS"@,
            Method::DELETE => "DELETE"@,
            Method::TRACE => "TRACE"@,
        }
    }

    /// The method that `token` names, if it names one. Names are case sensitive.
    pub open spec fn named(token: Seq<char>) -> Option<Method> {
        if token == "GET"@ {
            Some(Method::GET)
        } else if token == "POST"@ {
            Some(Method::POST)
        } else if token == "PUT"@ {
            Some(Method::PUT)
        } else if token == "OPTIONS"@ {
            Some(Method::OPTIONS)
        } else if token == "DELETE"@ {
            Some(Method::DELETE)
        } else if token == "TRACE"@ {
            Some(Method::TRACE)
        } else {
            None
        }
    }

    /// Every method is found again by its name.
    pub proof fn lemma_named_name(m: Method)
        ensures
            Method::named(m.name()) == Some(m),
    {
        reveal_strlit("GET");
        reveal_strlit("POST");
        reveal_strlit("PUT");
        reveal_strlit("OPTIONS");
        reveal_strlit("DELETE");
        reveal_strlit("TRACE");
        assert("POST"@.len() == 4);
        assert("PUT"@.len() == 3 && "PUT"@[0] == 'P');
        assert("OPTIONS"@.len() == 7);
        assert("DELETE"@.len() == 6);
        assert("TRACE"@.len() == 5);
    }

    /// The method as it is written on the wire.
    pub fn as_str(&self) -> (s: &'static str)
        ensures
            s@ == self.name(),
    {
        match self {
            Method::GET => "GET",
            Method::POST => "POST",
            Method::PUT => "PUT",
            Method::OPTIONS => "OPTIONS",
            Method::DELETE => "DELETE",
            Method::TRACE => "TRACE",
        }
    }

    /// The method that `token` names.
    pub fn from_token(token: &str) -> (r: Option<Method>)
        ensures
            r == Method::named(token@),
    {
        if str_eq(token, "GET") {
            Some(Method::GET)
        } else if str_eq(token, "POST") {
            Some(Method::POST)
        } else if str_eq(token, "PUT") {
            Some(Method::PUT)
        } else if str_eq(token, "OPTIONS") {
            Some(Method::OPTIONS)
        } else if str_eq(token, "DELETE") {
            Some(Method::DELETE)
        } else if str_eq(token, "TRACE") {
            Some(Method::TRACE)
        } else {
            None
        }
    }
}

impl FromStr for Method {
    type Err = ();

    fn from_str(input: &str) -> (r: Result<Method, ()>)
        ensures
            match Method::named(input@) {
                Some(method) => r == Ok::<Method, ()>(method),
                None => r is Err,
            },
    {
        match Method::from_token(input) {
            Some(m) => Ok(m),
            None => Err(()),
        }
    }
}

} // verus!
