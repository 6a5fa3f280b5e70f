//! The route table of the server: path patterns in a `matchit` router, and the
//! routes they belong to.
//!
//! The router decides which pattern a path matches and what it captures. That
//! decision is not restated here: the contracts name it (`match_at`,
//! `insert_accepts`) and say what the table does with it. What the router
//! hands back is held against the pattern before it counts as a match.

use vstd::prelude::*;
use crate::method::HttpMethod;
use crate::params::{pairs_view, Params};
use crate::path::{is_rooted, starts_with_slash};
use crate::route::Route;
use crate::text::{names_view, to_chars};

verus! {

/// `matchit::Router`, a radix tree of path patterns with a value for each.
#[verifier::external_type_specification]
#[verifier::external_body]
#[verifier::reject_recursive_types(T)]
pub struct ExRouter<T>(matchit::Router<T>);

/// The patterns that a router took, each with its value, in the order in which
/// they were inserted.
pub uninterp spec fn router_entries(router: matchit::Router<usize>) -> Seq<(Seq<char>, usize)>;

/// Whether `Router::insert` takes the pattern `route` into a router that holds
/// `entries`.
pub uninterp spec fn insert_accepts(entries: Seq<(Seq<char>, usize)>, route: Seq<char>) -> bool;

/// What `Router::at` finds for `path` in a router that holds `entries`: the
/// value of the pattern that matches, and the parameters it captured as name
/// and value, in the order in which the pattern declares them.
pub uninterp spec fn match_at(entries: Seq<(Seq<char>, usize)>, path: Seq<char>) -> Option<
    (usize, Seq<(Seq<char>, Seq<char>)>),
>;

/// The most parameters that a pattern may declare: the router names them
/// internally with the letters it has.
pub const MAX_PARAMS: usize = 25;

/// Why the router refused a pattern.
#[derive(Debug)]
pub enum PatternError {
    /// The pattern conflicts with the route `with`, registered before.
    Conflict { with: String },
    /// A path segment declares more than one parameter.
    TooManyParams,
    /// A parameter has no name.
    UnnamedParam,
    /// A catch-all parameter stands elsewhere than at the end.
    InvalidCatchAll,
    /// The router refused the pattern for another reason.
    Other,
}

/// Whether every character of `pattern` is an ASCII character.
pub open spec fn is_ascii_pattern(pattern: Seq<char>) -> bool {
    vstd::utf8::is_ascii_chars(pattern)
}

/// Why a route was not taken into the table.
#[derive(Debug)]
pub enum RouteError {
    /// The path does not start with a slash.
    InvalidPath,
    /// The path holds a character that is not ASCII.
    NotAscii,
    /// The path holds more colons than a pattern may declare parameters.
    ParamLimit,
    /// The router refused the pattern.
    Pattern(PatternError),
}

/// `Router::new`: a router that holds nothing.
#[verifier::external_body]
fn router_new() -> (router: matchit::Router<usize>)
    ensures
        router_entries(router) == Seq::<(Seq<char>, usize)>::empty(),
{
    matchit::Router::new()
}

/// `Router::insert`: where the router takes the pattern, it holds it from then
/// on, after those it held. Where it refuses, it says why, and nothing is
/// claimed of what it holds afterwards. Two kinds of pattern are kept away
/// from it, because it does not return on them: one with more than
/// `MAX_PARAMS` parameters, and one with a character that is not ASCII, whose
/// bytes the router may cut apart when it reports a conflict.
#[verifier::external_body]
fn router_insert(router: &mut matchit::Router<usize>, route: &str, value: usize) -> (r: Result<
    (),
    PatternError,
>)
    requires
        occurrences(route@, ':') <= MAX_PARAMS,
        is_ascii_pattern(route@),
    ensures
        r is Ok <==> insert_accepts(router_entries(*old(router)), route@),
        r is Ok ==> router_entries(*final(router)) == router_entries(*old(router)).push(
            (route@, value),
        ),
{
    match router.insert(route, value) {
        Ok(()) => Ok(()),
        Err(matchit::InsertError::Conflict { with }) => Err(PatternError::Conflict { with }),
        Err(matchit::InsertError::TooManyParams) => Err(PatternError::TooManyParams),
        Err(matchit::InsertError::UnnamedParam) => Err(PatternError::UnnamedParam),
        Err(matchit::InsertError::InvalidCatchAll) => Err(PatternError::InvalidCatchAll),
        Err(_) => Err(PatternError::Other),
    }
}

/// `Router::at`: the value and the parameters of the pattern that matches
/// `path`, or nothing where the router reports no match.
#[verifier::external_body]
fn router_at(router: &matchit::Router<usize>, path: &str) -> (r: Option<
    (usize, Vec<(String, String)>),
>)
    ensures
        match r {
            Some((value, params)) => match_at(router_entries(*router), path@) == Some(
                (value, pairs_view(params@)),
            ),
            None => match_at(router_entries(*router), path@) is None,
        },
{
    match router.at(path) {
        Ok(found) => Some(
            (*found.value, found.params.iter().map(|(k, v)| (k.to_owned(), v.to_owned())).collect()),
        ),
        Err(_) => None,
    }
}

/// How often `c` occurs in `s`.
pub open spec fn occurrences(s: Seq<char>, c: char) -> nat
    decreases s.len(),
{
    if s.len() == 0 {
        0
    } else {
        occurrences(s.drop_last(), c) + if s.last() == c {
            1nat
        } else {
            0nat
        }
    }
}

/// Whether `c` occurs in `s` at most `limit` times.
pub fn occurs_at_most(s: &str, c: char, limit: usize) -> (r: bool)
    ensures
        r == (occurrences(s@, c) <= limit),
{
    let chars = to_chars(s);
    let mut count: usize = 0;
    let mut i: usize = 0;
    assert(chars@.take(0) =~= Seq::empty());
    while i < chars.len()
        invariant
            i <= chars.len(),
            chars@ == s@,
            count <= limit,
            count <= i,
            count == occurrences(chars@.take(i as int), c),
        decreases chars.len() - i,
    {
        assert(chars@.take(i as int + 1).drop_last() =~= chars@.take(i as int));
        assert(chars@.take(i as int + 1).last() == chars@[i as int]);
        if chars[i] == c {
            if count == limit {
                proof {
                    assert(occurrences(chars@.take(i as int + 1), c) == count + 1);
                    lemma_occurrences_grow(chars@, c, i as int + 1);
                }
                return false;
            }
            count += 1;
        }
        i += 1;
    }
    assert(chars@.take(chars.len() as int) =~= chars@);
    true
}

/// A sequence holds `c` at least as often as any of its prefixes.
pub proof fn lemma_occurrences_grow(s: Seq<char>, c: char, k: int)
    requires
        0 <= k <= s.len(),
    ensures
        occurrences(s.take(k), c) <= occurrences(s, c),
    decreases s.len() - k,
{
    if k == s.len() {
        assert(s.take(k) =~= s);
    } else {
        lemma_occurrences_grow(s.drop_last(), c, k);
        assert(s.drop_last().take(k) =~= s.take(k));
    }
}

/// Whether `c` begins a parameter in a pattern: a colon a named one, an
/// asterisk a catch-all.
pub open spec fn is_param_mark(c: char) -> bool {
    c == ':' || c == '*'
}

/// What a scan of `pattern` from the left has found at its end: the names of
/// the parameters so far, and whether the last of them is still being read. A
/// name begins after a colon or an asterisk and ends before the next slash.
pub open spec fn scanned_params(pattern: Seq<char>) -> (Seq<Seq<char>>, bool)
    decreases pattern.len(),
{
    if pattern.len() == 0 {
        (Seq::empty(), false)
    } else {
        let (names, open) = scanned_params(pattern.drop_last());
        let c = pattern.last();
        if is_param_mark(c) {
            (names.push(Seq::empty()), true)
        } else if c == '/' || !open || names.len() == 0 {
            (names, open && c != '/' && names.len() > 0)
        } else {
            (names.drop_last().push(names.last().push(c)), true)
        }
    }
}

/// The names of the parameters that `pattern` declares, in the order in which
/// it declares them.
pub open spec fn declared_params(pattern: Seq<char>) -> Seq<Seq<char>> {
    scanned_params(pattern).0
}

/// The names of a list of parameters, in their order.
pub open spec fn param_names(params: Seq<(Seq<char>, Seq<char>)>) -> Seq<Seq<char>> {
    params.map_values(|p: (Seq<char>, Seq<char>)| p.0)
}

/// The values of a list of parameters, in their order.
pub open spec fn param_values(params: Seq<(Seq<char>, Seq<char>)>) -> Seq<Seq<char>> {
    params.map_values(|p: (Seq<char>, Seq<char>)| p.1)
}

/// The first of `values`, or the empty text where there is none.
pub open spec fn first_or_empty(values: Seq<Seq<char>>) -> Seq<char> {
    if values.len() > 0 {
        values[0]
    } else {
        Seq::empty()
    }
}

/// `values` without the first, where there is one.
pub open spec fn without_first(values: Seq<Seq<char>>) -> Seq<Seq<char>> {
    if values.len() > 0 {
        values.skip(1)
    } else {
        values
    }
}

/// `pattern` with `values` in the place of its parameters: each parameter,
/// from its mark to the next slash or the end, gives way to the next value.
/// `in_name` says whether the text begins inside the name of a parameter.
pub open spec fn filled(pattern: Seq<char>, values: Seq<Seq<char>>, in_name: bool) -> Seq<char>
    decreases pattern.len(),
{
    if pattern.len() == 0 {
        Seq::empty()
    } else {
        let c = pattern[0];
        if is_param_mark(c) {
            first_or_empty(values) + filled(pattern.skip(1), without_first(values), true)
        } else if c == '/' {
            seq!['/'] + filled(pattern.skip(1), values, false)
        } else if in_name {
            filled(pattern.skip(1), values, true)
        } else {
            seq![c] + filled(pattern.skip(1), values, false)
        }
    }
}

/// Whether `path` is `pattern` with the values of `params` in the place of its
/// parameters.
pub fn is_instance(pattern: &str, params: &Vec<(String, String)>, path: &str) -> (r: bool)
    ensures
        r == (filled(pattern@, param_values(pairs_view(params@)), false) == path@),
{
    let chars = to_chars(pattern);
    let ghost values = param_values(pairs_view(params@));
    let mut out = String::new();
    let mut in_name = false;
    let mut used: usize = 0;
    let mut i: usize = 0;
    proof {
        assert(chars@.skip(0) =~= chars@);
        assert(values.skip(0) =~= values);
        assert(out@ + filled(chars@, values, false) =~= filled(chars@, values, false));
    }
    while i < chars.len()
        invariant
            i <= chars.len(),
            used <= params@.len(),
            chars@ == pattern@,
            values == param_values(pairs_view(params@)),
            out@ + filled(chars@.skip(i as int), values.skip(used as int), in_name) == filled(
                pattern@,
                values,
                false,
            ),
        decreases chars.len() - i,
    {
        let c = chars[i];
        let ghost rest = chars@.skip(i as int);
        let ghost left = values.skip(used as int);
        let ghost before = out@;
        proof {
            assert(rest[0] == c);
            assert(rest.skip(1) =~= chars@.skip(i as int + 1));
        }
        if c == ':' || c == '*' {
            if used < params.len() {
                out.append(params[used].1.as_str());
                proof {
                    assert(left[0] == params@[used as int].1@);
                    assert(left.skip(1) =~= values.skip(used as int + 1));
                    assert(out@ + filled(rest.skip(1), left.skip(1), true) =~= before + filled(
                        rest,
                        left,
                        in_name,
                    ));
                }
                used += 1;
            } else {
                proof {
                    assert(left.len() == 0);
                    assert(out@ + filled(rest.skip(1), left, true) =~= before + filled(
                        rest,
                        left,
                        in_name,
                    ));
                }
            }
            in_name = true;
        } else if c == '/' {
            out.push('/');
            proof {
                assert(out@ + filled(rest.skip(1), left, false) =~= before + filled(
                    rest,
                    left,
                    in_name,
                ));
            }
            in_name = false;
        } else if !in_name {
            out.push(c);
            proof {
                assert(out@ + filled(rest.skip(1), left, false) =~= before + filled(
                    rest,
                    left,
                    in_name,
                ));
            }
        }
        i += 1;
    }
    proof {
        assert(chars@.skip(chars@.len() as int) =~= Seq::<char>::empty());
        assert(out@ + Seq::<char>::empty() =~= out@);
    }
    out == path.to_owned()
}

/// The names of the parameters that `pattern` declares, in their order.
pub fn declared_param_names(pattern: &str) -> (names: Vec<String>)
    ensures
        names_view(names@) == declared_params(pattern@),
{
    let chars = to_chars(pattern);
    let mut names: Vec<String> = Vec::new();
    let mut open = false;
    let mut i: usize = 0;
    proof {
        assert(chars@.take(0) =~= Seq::empty());
        assert(names_view(names@) =~= Seq::empty());
    }
    while i < chars.len()
        invariant
            i <= chars.len(),
            chars@ == pattern@,
            (names_view(names@), open) == scanned_params(chars@.take(i as int)),
            open ==> names@.len() > 0,
        decreases chars.len() - i,
    {
        let c = chars[i];
        let ghost before = names_view(names@);
        proof {
            assert(chars@.take(i as int + 1).drop_last() =~= chars@.take(i as int));
            assert(chars@.take(i as int + 1).last() == c);
        }
        if c == ':' || c == '*' {
            names.push(String::new());
            open = true;
            proof {
                assert(names_view(names@) =~= before.push(Seq::empty()));
            }
        } else if c == '/' {
            open = false;
        } else if open {
            let mut name = match names.pop() {
                Some(name) => name,
                None => String::new(),
            };
            let ghost head = name@;
            name.push(c);
            names.push(name);
            proof {
                assert(head == before.last());
                assert(names_view(names@) =~= before.drop_last().push(before.last().push(c)));
            }
        }
        i += 1;
    }
    proof {
        assert(chars@.take(chars@.len() as int) =~= chars@);
    }
    names
}

/// Whether the parameters have exactly the given names, in their order.
pub fn has_names(params: &Vec<(String, String)>, names: &Vec<String>) -> (r: bool)
    ensures
        r == (param_names(pairs_view(params@)) == names_view(names@)),
{
    if params.len() != names.len() {
        assert(param_names(pairs_view(params@)).len() != names_view(names@).len());
        return false;
    }
    let mut i: usize = 0;
    while i < params.len()
        invariant
            i <= params.len(),
            params@.len() == names@.len(),
            forall|j: int| 0 <= j < i ==> params@[j].0@ == names@[j]@,
        decreases params.len() - i,
    {
        if !(params[i].0 == names[i]) {
            assert(param_names(pairs_view(params@))[i as int] != names_view(names@)[i as int]);
            return false;
        }
        i += 1;
    }
    assert(param_names(pairs_view(params@)) =~= names_view(names@));
    true
}

/// The patterns of `routes`, each with its place in the list: what the router
/// of a table holds.
pub open spec fn entries_of<H>(routes: Seq<Route<H>>) -> Seq<(Seq<char>, usize)> {
    Seq::new(routes.len(), |i: int| (routes[i].spec_path(), i as usize))
}

/// A route that a path matched, by its place in the table, and the parameters
/// that the pattern captured.
#[derive(Debug)]
pub struct RouteMatch {
    pub index: usize,
    pub params: Params,
}

/// The route table: the routes in the order of their registration, a router
/// that holds the pattern of each with its place, and for each the names of
/// the parameters that its pattern declares.
pub struct RouteTable<H> {
    router: matchit::Router<usize>,
    routes: Vec<Route<H>>,
    declared: Vec<Vec<String>>,
}

impl<H> RouteTable<H> {
    #[verifier::type_invariant]
    spec fn in_step(self) -> bool {
        &&& router_entries(self.router) == entries_of(self.routes@)
        &&& self.declared@.len() == self.routes@.len()
        &&& forall|i: int|
            0 <= i < self.routes@.len() ==> names_view((#[trigger] self.declared@[i])@)
                == declared_params(self.routes@[i].spec_path())
    }

    /// The routes of the table, in the order of their registration.
    pub closed spec fn routes(self) -> Seq<Route<H>> {
        self.routes@
    }

    /// What the table finds for `path`: the place of the route whose pattern
    /// the router matched, and the parameters that it captured. They count
    /// only where they are the parameters that the pattern declares, and the
    /// path is the pattern with their values filled in.
    pub open spec fn lookup(self, path: Seq<char>) -> Option<(usize, Seq<(Seq<char>, Seq<char>)>)> {
        match match_at(entries_of(self.routes()), path) {
            Some((index, params)) => if index < self.routes().len() && param_names(params)
                == declared_params(self.routes()[index as int].spec_path()) && filled(
                self.routes()[index as int].spec_path(),
                param_values(params),
                false,
            ) == path {
                Some((index, params))
            } else {
                None
            },
            None => None,
        }
    }

    /// Whether the table takes a route with the pattern `path`.
    pub open spec fn accepts(self, path: Seq<char>) -> bool {
        &&& is_rooted(path)
        &&& is_ascii_pattern(path)
        &&& occurrences(path, ':') <= MAX_PARAMS
        &&& insert_accepts(entries_of(self.routes()), path)
    }

    /// A table without routes.
    pub fn new() -> (t: RouteTable<H>)
        ensures
            t.routes() == Seq::<Route<H>>::empty(),
    {
        let router = router_new();
        let routes: Vec<Route<H>> = Vec::new();
        assert(entries_of(routes@) =~= Seq::empty());
        RouteTable { router, routes, declared: Vec::new() }
    }

    /// The number of routes.
    pub fn len(&self) -> (n: usize)
        ensures
            n == self.routes().len(),
    {
        self.routes.len()
    }

    /// The route at place `index`.
    pub fn route(&self, index: usize) -> (r: &Route<H>)
        requires
            index < self.routes().len(),
        ensures
            *r == self.routes()[index as int],
    {
        &self.routes[index]
    }

    /// The table with one more route, registered after the others.
    ///
    /// The route is refused where its path does not start with a slash, where
    /// it holds a character that is not ASCII, where it holds more than
    /// `MAX_PARAMS` colons, and where the router refuses the pattern beside
    /// those it holds.
    pub fn insert(self, path: &str, method: HttpMethod, handler: H) -> (r: Result<
        RouteTable<H>,
        RouteError,
    >)
        ensures
            r is Ok <==> self.accepts(path@),
            r matches Ok(t) ==> {
                &&& t.routes().len() == self.routes().len() + 1
                &&& t.routes().drop_last() == self.routes()
                &&& t.routes().last().spec_path() == path@
                &&& t.routes().last().spec_method() == method
                &&& t.routes().last().spec_handler() == handler
            },
            r matches Err(e) ==> {
                &&& e is InvalidPath <==> !is_rooted(path@)
                &&& e is NotAscii <==> is_rooted(path@) && !is_ascii_pattern(path@)
                &&& e is ParamLimit <==> is_rooted(path@) && is_ascii_pattern(path@) && occurrences(
                    path@,
                    ':',
                ) > MAX_PARAMS
                &&& e is Pattern <==> is_rooted(path@) && is_ascii_pattern(path@) && occurrences(
                    path@,
                    ':',
                ) <= MAX_PARAMS
            },
    {
        proof {
            use_type_invariant(&self);
        }
        if !starts_with_slash(path) {
            return Err(RouteError::InvalidPath);
        }
        if !path.is_ascii() {
            return Err(RouteError::NotAscii);
        }
        if !occurs_at_most(path, ':', MAX_PARAMS) {
            return Err(RouteError::ParamLimit);
        }
        let RouteTable { mut router, mut routes, mut declared } = self;
        let ghost before = routes@;
        let ghost names_before = declared@;
        let index = routes.len();
        match router_insert(&mut router, path, index) {
            Ok(()) => {
                routes.push(Route::new(path, method, handler));
                declared.push(declared_param_names(path));
                proof {
                    assert(routes@.drop_last() =~= before);
                    assert(entries_of(routes@) =~= entries_of(before).push((path@, index)));
                    assert forall|i: int| 0 <= i < routes@.len() implies names_view(
                        (#[trigger] declared@[i])@,
                    ) == declared_params(routes@[i].spec_path()) by {
                        if i < before.len() {
                            assert(declared@[i] == names_before[i]);
                            assert(routes@[i] == before[i]);
                        }
                    }
                }
                Ok(RouteTable { router, routes, declared })
            },
            Err(e) => Err(RouteError::Pattern(e)),
        }
    }

    /// The route that `path` matches, with the parameters it captured: those
    /// that the pattern of the route declares, in the order in which it
    /// declares them, with the values that make the pattern the path. What
    /// the router reports otherwise is no match.
    pub fn find(&self, path: &str) -> (r: Option<RouteMatch>)
        ensures
            match r {
                Some(m) => {
                    &&& self.lookup(path@) == Some((m.index, m.params@))
                    &&& m.index < self.routes().len()
                    &&& param_names(m.params@) == declared_params(
                        self.routes()[m.index as int].spec_path(),
                    )
                    &&& filled(
                        self.routes()[m.index as int].spec_path(),
                        param_values(m.params@),
                        false,
                    ) == path@
                },
                None => self.lookup(path@) is None,
            },
    {
        proof {
            use_type_invariant(self);
        }
        match router_at(&self.router, path) {
            Some((index, pairs)) => {
                if index < self.declared.len() && has_names(&pairs, &self.declared[index])
                    && is_instance(self.routes[index].path(), &pairs, path) {
                    Some(RouteMatch { index, params: Params::from_pairs(pairs) })
                } else {
                    None
                }
            },
            None => None,
        }
    }
}

/// Every match carries the parameters of its route: whatever path the table
/// finds a route for, the route is one of the table, the parameters are named
/// as the pattern of that route declares them, in that order, and the path is
/// that pattern with their values in the place of the parameters.
pub proof fn law_match_has_declared_params<H>(table: RouteTable<H>, path: Seq<char>)
    ensures
        table.lookup(path) matches Some((index, params)) ==> {
            &&& index < table.routes().len()
            &&& param_names(params) == declared_params(table.routes()[index as int].spec_path())
            &&& params.len() == declared_params(table.routes()[index as int].spec_path()).len()
            &&& filled(table.routes()[index as int].spec_path(), param_values(params), false)
                == path
        },
{
}

/// A pattern without parameters is matched by itself alone: filled in, it is
/// what it was, whatever the values.
pub proof fn law_static_pattern_fills_to_itself(pattern: Seq<char>, values: Seq<Seq<char>>)
    requires
        forall|i: int| 0 <= i < pattern.len() ==> !is_param_mark(#[trigger] pattern[i]),
    ensures
        filled(pattern, values, false) == pattern,
    decreases pattern.len(),
{
    if pattern.len() > 0 {
        let rest = pattern.skip(1);
        assert forall|i: int| 0 <= i < rest.len() implies !is_param_mark(#[trigger] rest[i]) by {
            assert(rest[i] == pattern[i + 1]);
        }
        law_static_pattern_fills_to_itself(rest, values);
        assert(pattern =~= seq![pattern[0]] + rest);
    }
}

} // verus!
