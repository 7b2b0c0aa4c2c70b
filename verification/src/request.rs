//! The request line: the one line of a request that the server reads.

use vstd::prelude::*;
use crate::text::{
    after_first_token, chars_of, first_token, lemma_token_len, token_end, trim_bounds, trimmed,
};

verus! {

/// The method of the request line `line`: its first space-delimited token.
pub open spec fn request_method(line: Seq<char>) -> Seq<char> {
    first_token(line)
}

/// The path of the request line `line`: its second space-delimited token,
/// without the whitespace around it. Whatever follows a further space, such
/// as a protocol version, is not part of it.
pub open spec fn request_path(line: Seq<char>) -> Seq<char>
    recommends
        line.contains(' '),
{
    trimmed(first_token(after_first_token(line)))
}

/// Splits a request line into its method and its path, or returns `None`
/// where the line holds no space and so names no path.
pub fn try_parse_request(req: &str) -> (parts: Option<(String, String)>)
    ensures
        parts is Some <==> req@.contains(' '),
        parts matches Some((method, path)) ==> method@ == request_method(req@) && path@
            == request_path(req@),
{
    let chars = chars_of(req);
    let method_end = token_end(&chars, 0);
    proof {
        assert(chars@.skip(0) =~= req@);
        lemma_token_len(req@);
    }
    if method_end == chars.len() {
        return None;
    }
    let path_start = method_end + 1;
    let path_end = token_end(&chars, path_start);
    let (lo, hi) = trim_bounds(&chars, path_start, path_end);
    proof {
        let rest = after_first_token(req@);
        assert(rest == chars@.skip(path_start as int));
        assert(first_token(rest) =~= chars@.subrange(path_start as int, path_end as int));
        assert(first_token(req@) =~= req@.subrange(0, method_end as int));
    }
    let method = req.substring_char(0, method_end).to_owned();
    let path = req.substring_char(lo, hi).to_owned();
    Some((method, path))
}

/// Splits a request line into its method and its path.
///
/// The line must hold a space: one without names no path.
pub fn parse_request(req: String) -> (parts: (String, String))
    requires
        req@.contains(' '),
    ensures
        parts.0@ == request_method(req@),
        parts.1@ == request_path(req@),
{
    try_parse_request(req.as_str()).unwrap()
}

} // verus!
