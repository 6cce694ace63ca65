use crate::http::text::str_eq;
use vstd::prelude::*;

verus! {

/// The request methods of HTTP/1.1.
#[derive(Debug, Clone, Copy, PartialEq, Eq, Hash, Structural)]
pub enum Method {
    Get,
    Head,
    Post,
    Put,
    Delete,
    Connect,
    Options,
    Trace,
    Patch,
}

impl Method {
    /// The token that names this method in a request line.
    pub open spec fn token(self) -> Seq<char> {
        match self {
            Method::Get => "GET"@,
            Method::Head => "HEAD"@,
            Method::Post => "POST"@,
            Method::Put => "PUT"@,
            Method::Delete => "DELETE"@,
            Method::Connect => "CONNECT"@,
            Method::Options => "OPTIONS"@,
            Method::Trace => "TRACE"@,
            Method::Patch => "PATCH"@,
        }
    }

    /// The method that `token` names, compared exactly and case-sensitively.
    pub open spec fn of_token(token: Seq<char>) -> Option<Method> {
        if token == "GET"@ {
            Some(Method::Get)
        } else if token == "HEAD"@ {
            Some(Method::Head)
        } else if token == "POST"@ {
            Some(Method::Post)
        } else if token == "PUT"@ {
            Some(Method::Put)
        } else if token == "DELETE"@ {
            Some(Method::Delete)
        } else if token == "CONNECT"@ {
            Some(Method::Connect)
        } else if token == "OPTIONS"@ {
            Some(Method::Options)
        } else if token == "TRACE"@ {
            Some(Method::Trace)
        } else if token == "PATCH"@ {
            Some(Method::Patch)
        } else {
            None
        }
    }

    /// Returns the token that names this method in a request line.
    pub fn as_str(&self) -> (s: &'static str)
        ensures
            s@ == self.token(),
    {
        match self {
            Method::Get => "GET",
            Method::Head => "HEAD",
            Method::Post => "POST",
            Method::Put => "PUT",
            Method::Delete => "DELETE",
            Method::Connect => "CONNECT",
            Method::Options => "OPTIONS",
            Method::Trace => "TRACE",
            Method::Patch => "PATCH",
        }
    }

    /// Recognizes a method token. The match is exact: `get` names no method.
    pub fn from_token(token: &str) -> (r: Option<Method>)
        ensures
            r == Method::of_token(token@),
    {
        if str_eq(token, "GET") {
            Some(Method::Get)
        } else if str_eq(token, "HEAD") {
            Some(Method::Head)
        } else if str_eq(token, "POST") {
            Some(Method::Post)
        } else if str_eq(token, "PUT") {
            Some(Method::Put)
        } else if str_eq(token, "DELETE") {
            Some(Method::Delete)
        } else if str_eq(token, "CONNECT") {
            Some(Method::Connect)
        } else if str_eq(token, "OPTIONS") {
            Some(Method::Options)
        } else if str_eq(token, "TRACE") {
            Some(Method::Trace)
        } else if str_eq(token, "PATCH") {
            Some(Method::Patch)
        } else {
            None
        }
    }

    /// Makes the characters of every method token known to the solver.
    pub proof fn reveal_tokens()
        ensures
            "GET"@ == seq!['G', 'E', 'T'],
            "HEAD"@ == seq!['H', 'E', 'A', 'D'],
            "POST"@ == seq!['P', 'O', 'S', 'T'],
            "PUT"@ == seq!['P', 'U', 'T'],
            "DELETE"@ == seq!['D', 'E', 'L', 'E', 'T', 'E'],
            "CONNECT"@ == seq!['C', 'O', 'N', 'N', 'E', 'C', 'T'],
            "OPTIONS"@ == seq!['O', 'P', 'T', 'I', 'O', 'N', 'S'],
            "TRACE"@ == seq!['T', 'R', 'A', 'C', 'E'],
            "PATCH"@ == seq!['P', 'A', 'T', 'C', 'H'],
    {
        reveal_strlit("GET");
        reveal_strlit("HEAD");
        reveal_strlit("POST");
        reveal_strlit("PUT");
        reveal_strlit("DELETE");
        reveal_strlit("CONNECT");
        reveal_strlit("OPTIONS");
        reveal_strlit("TRACE");
        reveal_strlit("PATCH");
        assert("GET"@ =~= seq!['G', 'E', 'T']);
        assert("HEAD"@ =~= seq!['H', 'E', 'A', 'D']);
        assert("POST"@ =~= seq!['P', 'O', 'S', 'T']);
        assert("PUT"@ =~= seq!['P', 'U', 'T']);
        assert("DELETE"@ =~= seq!['D', 'E', 'L', 'E', 'T', 'E']);
        assert("CONNECT"@ =~= seq!['C', 'O', 'N', 'N', 'E', 'C', 'T']);
        assert("OPTIONS"@ =~= seq!['O', 'P', 'T', 'I', 'O', 'N', 'S']);
        assert("TRACE"@ =~= seq!['T', 'R', 'A', 'C', 'E']);
        assert("PATCH"@ =~= seq!['P', 'A', 'T', 'C', 'H']);
    }

    /// Every method is recognized by its own token, and by no other's.
    pub proof fn law_token_round_trip(m: Method)
        ensures
            Method::of_token(m.token()) == Some(m),
    {
        Method::reveal_tokens();
        let t = m.token();
        match m {
            Method::Get => {},
            Method::Head => {
                assert(t[0] == 'H');
            },
            Method::Post => {
                assert(t[1] == 'O');
            },
            Method::Put => {
                assert(t[1] == 'U');
            },
            Method::Delete => {
                assert(t[0] == 'D');
            },
            Method::Connect => {
                assert(t[0] == 'C');
            },
            Method::Options => {
                assert(t[0] == 'O');
            },
            Method::Trace => {
                assert(t[0] == 'T');
            },
            Method::Patch => {
                assert(t[2] == 'T');
            },
        }
    }
}

} // verus!
