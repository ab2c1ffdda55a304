//! The dispatcher: which handler a method and a path select.
//!
//! Three routes are exact matches. The fourth, `/tasks/{id}/complete`, is
//! recognised by a regular expression that is compiled once, when the
//! [`Router`] is built, and used by reference for every request after that.
//! The digits it captures are then read as a signed 32-bit id. A path that
//! has the shape but whose digits are no such id is answered as a client
//! error; it never falls through to "not found".

use vstd::prelude::*;
use vstd::string::*;
use vstd::std_specs::iter::IteratorSpec;

use crate::text::same_text;

verus! {

/// The request methods the dispatcher tells apart.
#[derive(Clone, Copy, Debug, PartialEq, Eq, Structural)]
pub enum Method {
    Get,
    Post,
    /// Any method other than GET and POST.
    Other,
}

/// The handler that a request is dispatched to.
#[derive(Clone, Copy, Debug, PartialEq, Eq, Structural)]
pub enum Route {
    /// `GET /`: the HTML view of all tasks.
    Index,
    /// `POST /tasks`.
    CreateTask,
    /// `GET /tasks`.
    ListTasks,
    /// `POST /tasks/{id}/complete`, with the id read from the path.
    CompleteTask(i32),
    /// The path has the shape of a completion, but its digits are no id.
    InvalidId,
    /// Nothing matches.
    NotFound,
}

/// The pattern of a completion path. Its one group captures the id's digits.
pub open spec fn complete_task_pattern() -> Seq<char> {
    "^/tasks/(\\d+)/complete$"@
}

/// An ASCII digit.
pub open spec fn is_digit(c: char) -> bool {
    '0' <= c && c <= '9'
}

/// Nothing but ASCII digits.
pub open spec fn all_digits(s: Seq<char>) -> bool {
    forall|i: int| 0 <= i < s.len() ==> is_digit(#[trigger] s[i])
}

/// The number that a sequence of ASCII digits denotes in base ten.
pub open spec fn decimal(s: Seq<char>) -> nat
    decreases s.len(),
{
    if s.len() == 0 {
        0
    } else {
        (10 * decimal(s.drop_last()) + (s.last() as int - '0' as int)) as nat
    }
}

/// The id that a path segment denotes: one or more ASCII digits whose value
/// fits a signed 32-bit integer. Leading zeros are allowed; a sign is not.
pub open spec fn id_of(segment: Seq<char>) -> Option<i32> {
    if segment.len() > 0 && all_digits(segment) && decimal(segment) <= i32::MAX {
        Some(decimal(segment) as i32)
    } else {
        None
    }
}

/// The route for a request, given the digits that the completion pattern
/// captured from the path (if it matched at all).
pub open spec fn route_of(method: Method, path: Seq<char>, id_segment: Option<Seq<char>>) -> Route {
    if method == Method::Get && path == "/"@ {
        Route::Index
    } else if method == Method::Post && path == "/tasks"@ {
        Route::CreateTask
    } else if method == Method::Get && path == "/tasks"@ {
        Route::ListTasks
    } else if method == Method::Post && id_segment is Some {
        match id_of(id_segment->0) {
            Some(id) => Route::CompleteTask(id),
            None => Route::InvalidId,
        }
    } else {
        Route::NotFound
    }
}

/// A longer run of digits denotes a number at least as large as any of its
/// prefixes.
proof fn lemma_decimal_grows(s: Seq<char>, k: int)
    requires
        all_digits(s),
        0 <= k <= s.len(),
    ensures
        decimal(s.take(k)) <= decimal(s),
    decreases s.len() - k,
{
    if k == s.len() {
        assert(s.take(k) == s);
    } else {
        lemma_decimal_grows(s, k + 1);
        let t = s.take(k + 1);
        assert(t.drop_last() == s.take(k));
    }
}

/// Reads a path segment as a task id.
///
/// `Some(id)` exactly when the segment is one or more ASCII digits and their
/// value is at most `i32::MAX`.
pub fn parse_id(segment: &str) -> (id: Option<i32>)
    ensures
        id == id_of(segment@),
{
    broadcast use group_string_axioms;

    let mut it = segment.chars();
    let mut value: i32 = 0;
    let mut empty = true;
    let ghost mut seen: int = 0;
    loop
        invariant
            0 <= seen <= segment@.len(),
            it.remaining() == segment@.skip(seen),
            it.obeys_prophetic_iter_laws(),
            all_digits(segment@.take(seen)),
            value == decimal(segment@.take(seen)),
            empty == (seen == 0),
        decreases segment@.len() - seen,
    {
        match it.next() {
            Some(c) => {
                if !(c >= '0' && c <= '9') {
                    return None;
                }
                let digit: i32 = (c as u32 - '0' as u32) as i32;
                proof {
                    let longer = segment@.take(seen + 1);
                    assert(longer.drop_last() == segment@.take(seen));
                    assert(all_digits(longer)) by {
                        assert forall|i: int| 0 <= i < longer.len() implies is_digit(
                            #[trigger] longer[i],
                        ) by {
                            if i < seen {
                                assert(longer[i] == segment@.take(seen)[i]);
                            }
                        }
                    }
                    assert(decimal(longer) == 10 * value + digit);
                }
                if value > (i32::MAX - digit) / 10 {
                    proof {
                        if all_digits(segment@) {
                            lemma_decimal_grows(segment@, seen + 1);
                        }
                    }
                    return None;
                }
                value = value * 10 + digit;
                empty = false;
                proof {
                    seen = seen + 1;
                }
            },
            None => {
                assert(segment@.take(seen) == segment@);
                if empty {
                    return None;
                }
                return Some(value);
            },
        }
    }
}

/// Resolves a request to its route, once the completion pattern has been
/// tried on the path. `id_segment` is what the pattern's group captured, or
/// `None` if the path does not have the shape of a completion.
pub fn resolve(method: Method, path: &str, id_segment: Option<&str>) -> (route: Route)
    ensures
        route == route_of(
            method,
            path@,
            match id_segment {
                Some(s) => Some(s@),
                None => None,
            },
        ),
{
    match method {
        Method::Get => {
            if same_text(path, "/") {
                Route::Index
            } else if same_text(path, "/tasks") {
                Route::ListTasks
            } else {
                Route::NotFound
            }
        },
        Method::Post => {
            if same_text(path, "/tasks") {
                Route::CreateTask
            } else {
                match id_segment {
                    Some(digits) => match parse_id(digits) {
                        Some(id) => Route::CompleteTask(id),
                        None => Route::InvalidId,
                    },
                    None => Route::NotFound,
                }
            }
        },
        Method::Other => Route::NotFound,
    }
}

/// `regex::Regex`: a compiled expression. Nothing of its inside is known
/// here.
#[verifier::external_type_specification]
#[verifier::external_body]
pub struct ExRegex(regex::Regex);

/// `regex::Error`: why a pattern did not compile.
#[verifier::external_type_specification]
#[verifier::external_body]
pub struct ExRegexError(regex::Error);

/// The pattern that a compiled expression was built from: what
/// `regex::Regex::as_str` returns for it.
pub uninterp spec fn pattern_of(re: regex::Regex) -> Seq<char>;

/// Whether `regex::Regex::new` accepts a pattern: the pattern is valid, and
/// what it compiles to is within the size limit that `new` sets.
pub uninterp spec fn compiles(pattern: Seq<char>) -> bool;

/// What the first capture group holds in the leftmost match that a compiled
/// expression finds in `haystack`: group 1 of what `regex::Regex::captures`
/// returns. `None` if the expression matches nowhere, or matches without
/// that group taking part. It is a matter of the expression, not of its
/// pattern text alone: an expression can be built with options that change
/// what it matches.
pub uninterp spec fn group_in(re: regex::Regex, haystack: Seq<char>) -> Option<Seq<char>>;

/// What the first capture group holds in the leftmost match of `pattern` in
/// `haystack`, for an expression that `regex::Regex::new` compiled from
/// `pattern`, with the options that `new` sets.
pub uninterp spec fn first_group(pattern: Seq<char>, haystack: Seq<char>) -> Option<Seq<char>>;

/// The expression is what `regex::Regex::new` makes of `pattern`: it keeps
/// the pattern text, and it captures as the pattern does under the options
/// of `new`.
pub open spec fn compiled_from(re: regex::Regex, pattern: Seq<char>) -> bool {
    &&& pattern_of(re) == pattern
    &&& forall|haystack: Seq<char>| #[trigger]
        group_in(re, haystack) == first_group(pattern, haystack)
}

/// `regex::Regex::new`. Whether it succeeds is a matter of the pattern
/// alone. A compiled expression keeps the pattern it was given, and what it
/// captures in a haystack is a matter of that pattern and the haystack
/// alone, since `new` fixes every option.
#[verifier::external_body]
fn compile(pattern: &str) -> (compiled: Result<regex::Regex, regex::Error>)
    ensures
        compiled is Ok <==> compiles(pattern@),
        compiled matches Ok(re) ==> pattern_of(re) == pattern@,
        compiled matches Ok(re) ==> forall|haystack: Seq<char>| #[trigger]
            group_in(re, haystack) == first_group(pattern@, haystack),
{
    regex::Regex::new(pattern)
}

/// `regex::Regex::captures`, reduced to the text of group 1. The result is
/// the named one for this expression and the haystack.
#[verifier::external_body]
fn capture_first_group(re: &regex::Regex, haystack: &str) -> (group: Option<String>)
    ensures
        group_in(*re, haystack@) == (match group {
            Some(text) => Some(text@),
            None => None,
        }),
{
    re.captures(haystack).and_then(|found| found.get(1)).map(|m| String::from(m.as_str()))
}

/// The dispatcher. It owns the compiled completion pattern.
pub struct Router {
    complete_task: regex::Regex,
}

impl Router {
    #[verifier::type_invariant]
    spec fn holds_the_pattern(self) -> bool {
        compiled_from(self.complete_task, complete_task_pattern())
    }

    /// The pattern that completion paths are matched against.
    pub closed spec fn pattern(self) -> Seq<char> {
        pattern_of(self.complete_task)
    }

    /// Compiles the completion pattern. `Some` exactly when the expression
    /// engine accepts the pattern; the router then matches completion paths
    /// against that pattern.
    pub fn new() -> (router: Option<Router>)
        ensures
            router is Some <==> compiles(complete_task_pattern()),
            router matches Some(r) ==> r.pattern() == complete_task_pattern(),
    {
        Self::from_compiled(compile("^/tasks/(\\d+)/complete$"))
    }

    /// The router for what the expression engine made of the completion
    /// pattern: one that holds the compiled expression if there is one,
    /// none if the engine refused the pattern.
    fn from_compiled(compiled: Result<regex::Regex, regex::Error>) -> (router: Option<Router>)
        requires
            compiled matches Ok(re) ==> compiled_from(re, complete_task_pattern()),
        ensures
            router is Some <==> compiled is Ok,
            router matches Some(r) ==> compiled == Ok::<regex::Regex, regex::Error>(
                r.complete_task,
            ),
            router matches Some(r) ==> r.pattern() == complete_task_pattern(),
    {
        match compiled {
            Ok(re) => Some(Router { complete_task: re }),
            Err(_) => None,
        }
    }

    /// Dispatches one request.
    ///
    /// The result is [`route_of`] for the method, the path, and what the
    /// completion pattern captures from the path.
    pub fn route(&self, method: Method, path: &str) -> (route: Route)
        ensures
            route == route_of(method, path@, first_group(complete_task_pattern(), path@)),
    {
        proof {
            use_type_invariant(self);
        }
        match method {
            Method::Post => {
                if same_text(path, "/tasks") {
                    Route::CreateTask
                } else {
                    match capture_first_group(&self.complete_task, path) {
                        Some(digits) => resolve(method, path, Some(digits.as_str())),
                        None => resolve(method, path, None),
                    }
                }
            },
            _ => resolve(method, path, None),
        }
    }
}

} // verus!
