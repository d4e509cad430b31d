//! Library-specific utilities, mainly for internal use.

use vstd::prelude::*;

verus! {

use crate::error::RustWistiaError;
use crate::strings::find_any3_from;
use crate::strings::find_last_char;
use crate::strings::all_digits_from;
use crate::strings::first_where;
use crate::strings::is_digit;
use crate::strings::lemma_first_where_is;
use crate::strings::lemma_index_of_last_is;
use crate::strings::lemma_index_of_last_none;
use vstd::std_specs::cmp::PartialEqSpec;
use vstd::string::StrSliceExecFns;
use vstd::string::StringExecFns;

/// Whether a value equals its type's default, as far as the type's own
/// equality states it.
pub fn is_default<T: Default + PartialEq>(t: &T) -> (r: bool)
    ensures
        exists|d: T|
            #[trigger] call_ensures(T::default, (), d) && (T::obeys_eq_spec() ==> r == t.eq_spec(
                &d,
            )),
{
    let d = T::default();
    t == &d
}

/// Matches the scheme separator `:`.
pub open spec fn colon_pred() -> spec_fn(char) -> bool {
    |c: char| c == ':'
}

/// Matches the characters that end the authority of a URL.
pub open spec fn path_delim_pred() -> spec_fn(char) -> bool {
    |c: char| c == '/' || c == '?' || c == '#'
}

/// Matches the characters that end the path of a URL.
pub open spec fn query_delim_pred() -> spec_fn(char) -> bool {
    |c: char| c == '?' || c == '#'
}

/// Everything after the scheme separator `://`, when the URL's first `:`
/// begins one; else the whole URL.
pub open spec fn rest_of_url(s: Seq<char>) -> Seq<char> {
    let i = first_where(s, colon_pred());
    if i + 2 < s.len() && s[i + 1] == '/' && s[i + 2] == '/' {
        s.skip(i + 3)
    } else {
        s
    }
}

/// The authority: the rest of the URL up to the first `/`, `?` or `#`.
pub open spec fn authority_of(rest: Seq<char>) -> Seq<char> {
    rest.take(first_where(rest, path_delim_pred()))
}

/// The path: from its leading `/` up to the query or fragment, both
/// stripped; a bare `/` when the URL has no path.
pub open spec fn path_of(rest: Seq<char>) -> Seq<char> {
    let after = rest.skip(first_where(rest, path_delim_pred()));
    if after.len() > 0 && after[0] == '/' {
        after.take(first_where(after, query_delim_pred()))
    } else {
        seq!['/']
    }
}

/// The authority without a `userinfo@` prefix.
pub open spec fn strip_userinfo(a: Seq<char>) -> Seq<char> {
    match a.index_of_last('@') {
        Some(i) => a.skip(i + 1),
        None => a,
    }
}

/// The host without a trailing `:port`, stripped only when the port part
/// is digits and not empty.
pub open spec fn strip_port(h: Seq<char>) -> Seq<char> {
    match h.index_of_last(':') {
        Some(i) => if i + 1 < h.len() && (forall|j: int| i < j < h.len() ==> is_digit(h[j])) {
            h.take(i)
        } else {
            h
        },
        None => h,
    }
}

/// The display form of a request URL in error reasons: its host, then its
/// path, with scheme, userinfo, port, query and fragment all stripped.
pub open spec fn host_path_of(s: Seq<char>) -> Seq<char> {
    strip_port(strip_userinfo(authority_of(rest_of_url(s)))) + path_of(rest_of_url(s))
}

/// The host and path of a URL, in the display form error reasons use.
#[verifier::rlimit(60)]
pub fn host_with_path(url: &str) -> (r: Result<String, RustWistiaError>)
    ensures
        r matches Ok(s) && s@ == host_path_of(url@),
{
    let n = url.unicode_len();
    let ci = find_any3_from(url, 0, ':', ':', ':');
    proof {
        lemma_first_where_is(url@, colon_pred(), ci as int);
    }
    let rest_start: usize = if n > 2 && ci < n - 2 && url.get_char(ci + 1) == '/' && url.get_char(
        ci + 2,
    ) == '/' {
        ci + 3
    } else {
        0
    };
    let ghost rest = rest_of_url(url@);
    proof {
        assert(rest =~= url@.skip(rest_start as int));
    }
    let d = find_any3_from(url, rest_start, '/', '?', '#');
    proof {
        assert forall|j: int| 0 <= j < d - rest_start implies !(path_delim_pred()(rest[j])) by {
            assert(rest[j] == url@[rest_start + j]);
        }
        if (d as int) < rest.len() + rest_start {
            assert(rest[d - rest_start] == url@[d as int]);
        }
        lemma_first_where_is(rest, path_delim_pred(), d - rest_start);
    }
    let auth = url.substring_char(rest_start, d);
    proof {
        assert(auth@ =~= authority_of(rest));
    }
    let host1 = match find_last_char(auth, '@') {
        Some(i) => {
            proof {
                lemma_index_of_last_is(auth@, '@', i as int);
            }
            let m = auth.unicode_len();
            auth.substring_char(i + 1, m)
        },
        None => {
            proof {
                lemma_index_of_last_none(auth@, '@');
            }
            auth
        },
    };
    proof {
        assert(host1@ =~= strip_userinfo(auth@));
    }
    let host = match find_last_char(host1, ':') {
        Some(i) => {
            proof {
                lemma_index_of_last_is(host1@, ':', i as int);
            }
            let m1 = host1.unicode_len();
            if i + 1 < m1 && all_digits_from(host1, i + 1) {
                host1.substring_char(0, i)
            } else {
                host1
            }
        },
        None => {
            proof {
                lemma_index_of_last_none(host1@, ':');
            }
            host1
        },
    };
    proof {
        assert(host@ =~= strip_port(host1@));
    }
    let mut out = host.to_owned();
    if d < n && url.get_char(d) == '/' {
        let q = find_any3_from(url, d, '?', '#', '#');
        proof {
            let after = rest.skip(d - rest_start);
            assert forall|j: int| 0 <= j < q - d implies !(query_delim_pred()(after[j])) by {
                assert(after[j] == url@[d + j]);
            }
            if (q as int) < after.len() + d {
                assert(after[q - d] == url@[q as int]);
            }
            lemma_first_where_is(after, query_delim_pred(), q - d);
            assert(after[0] == url@[d as int]);
        }
        out.append(url.substring_char(d, q));
        proof {
            assert(out@ =~= host_path_of(url@));
        }
    } else {
        out.append("/");
        proof {
            reveal_strlit("/");
            assert("/"@ =~= seq!['/']);
            let after = rest.skip(d - rest_start);
            if (d as int) < n as int {
                assert(after[0] == url@[d as int]);
            }
            assert(out@ =~= host_path_of(url@));
        }
    }
    Ok(out)
}

} // verus!
