//! Maps a request's method and path to the route that serves it.
use vstd::prelude::*;
use vstd::std_specs::iter::IteratorSpec;

verus! {

broadcast use vstd::string::axiom_spec_iter, vstd::string::next_postcondition;

/// The characters of `s`, in order.
pub(crate) fn chars_of(s: &str) -> (r: Vec<char>)
    ensures
        r@ == s@,
{
    let mut out: Vec<char> = Vec::new();
    let mut it = s.chars();
    let ghost all = s@;
    loop
        invariant
            it.obeys_prophetic_iter_laws(),
            all == out@ + it.remaining(),
        ensures
            out@ == all,
        decreases all.len() - out@.len(),
    {
        match it.next() {
            Some(c) => {
                out.push(c);
            },
            None => {
                assert(out@ =~= all);
                break;
            },
        }
    }
    out
}

/// The HTTP methods the routes tell apart.
#[derive(Clone, Copy, Debug, PartialEq, Eq, Structural)]
pub enum Method {
    Get,
    Head,
    Put,
    Post,
    Other,
}

impl Method {
    /// Whether a `GET` route accepts this method (a `GET` route answers `HEAD` too).
    pub open spec fn reads(self) -> bool {
        self == Method::Get || self == Method::Head
    }
}

/// What a request's method and path select.
#[derive(Debug, PartialEq, Eq)]
pub enum Route {
    /// `GET /`
    Index,
    /// `GET /contact/{id}`
    ShowContact { id: u32 },
    /// `GET /contact/{id}/edit`
    EditContact { id: u32 },
    /// `PUT /contact/{id}`
    UpdateContact { id: u32 },
    /// `POST /users`
    CreateUser,
    /// Any request under `/styles`, with the path of the file inside the
    /// styles directory.
    Styles { file: String },
    /// A contact route whose method fits but whose identifier is not a `u32`.
    BadContactId,
    /// A known path with a method it does not serve.
    MethodNotAllowed,
    /// No route has this path.
    NotFound,
}

pub open spec fn contact_prefix() -> Seq<char> {
    "/contact/"@
}

pub open spec fn edit_suffix() -> Seq<char> {
    "/edit"@
}

pub open spec fn styles_prefix() -> Seq<char> {
    "/styles"@
}

pub open spec fn no_slash_in(s: Seq<char>) -> bool {
    forall|i: int| 0 <= i < s.len() ==> s[i] != '/'
}

/// A non-empty path segment: no `/` in it.
pub open spec fn is_segment(s: Seq<char>) -> bool {
    s.len() > 0 && no_slash_in(s)
}

pub open spec fn has_prefix(s: Seq<char>, pre: Seq<char>) -> bool {
    pre.len() <= s.len() && s.subrange(0, pre.len() as int) == pre
}

/// `p` is `/contact/{seg}` for a segment `seg`.
pub open spec fn is_contact_path(p: Seq<char>) -> bool {
    has_prefix(p, contact_prefix()) && is_segment(p.subrange(contact_prefix().len() as int, p.len() as int))
}

/// The identifier segment of `/contact/{seg}`.
pub open spec fn contact_segment(p: Seq<char>) -> Seq<char> {
    p.subrange(contact_prefix().len() as int, p.len() as int)
}

/// `p` is `/contact/{seg}/edit` for a segment `seg`.
pub open spec fn is_edit_path(p: Seq<char>) -> bool {
    &&& has_prefix(p, contact_prefix())
    &&& contact_prefix().len() + edit_suffix().len() <= p.len()
    &&& p.subrange(p.len() - edit_suffix().len(), p.len() as int) == edit_suffix()
    &&& is_segment(edit_segment(p))
}

/// The identifier segment of `/contact/{seg}/edit`.
pub open spec fn edit_segment(p: Seq<char>) -> Seq<char> {
    p.subrange(contact_prefix().len() as int, p.len() - edit_suffix().len())
}

/// `p` is `/styles` or lies under `/styles/`.
pub open spec fn is_styles_path(p: Seq<char>) -> bool {
    has_prefix(p, styles_prefix()) && (p.len() == styles_prefix().len() || p[
        styles_prefix().len() as int
    ] == '/')
}

/// The path inside the styles directory that a path under `/styles` names.
pub open spec fn styles_file(p: Seq<char>) -> Seq<char> {
    if p.len() == styles_prefix().len() {
        "/"@
    } else {
        p.subrange(styles_prefix().len() as int, p.len() as int)
    }
}

pub open spec fn is_digit(c: char) -> bool {
    '0' <= c && c <= '9'
}

pub open spec fn digit_value(c: char) -> nat {
    (c as u32 - '0' as u32) as nat
}

pub open spec fn all_digits(s: Seq<char>) -> bool {
    forall|i: int| 0 <= i < s.len() ==> is_digit(s[i])
}

/// The number that a string of decimal digits writes.
pub open spec fn decimal_value(s: Seq<char>) -> nat
    decreases s.len(),
{
    if s.len() == 0 {
        0
    } else {
        decimal_value(s.drop_last()) * 10 + digit_value(s.last())
    }
}

/// The digits of an identifier: the segment without one leading `+`.
pub open spec fn id_digits(seg: Seq<char>) -> Seq<char> {
    if seg.len() > 0 && seg[0] == '+' {
        seg.drop_first()
    } else {
        seg
    }
}

/// The identifier that a path segment writes, if it writes a `u32` in decimal.
pub open spec fn id_value(seg: Seq<char>) -> Option<u32> {
    let d = id_digits(seg);
    if d.len() > 0 && all_digits(d) && decimal_value(d) <= u32::MAX {
        Some(decimal_value(d) as u32)
    } else {
        None
    }
}

/// The route of a contact path with the given identifier segment:
/// `show` for a reading method, `update` (if any) for `PUT`.
pub open spec fn contact_route(m: Method, seg: Seq<char>, editing: bool) -> Route {
    if m.reads() || (!editing && m == Method::Put) {
        match id_value(seg) {
            Some(id) => if editing {
                Route::EditContact { id }
            } else if m == Method::Put {
                Route::UpdateContact { id }
            } else {
                Route::ShowContact { id }
            },
            None => Route::BadContactId,
        }
    } else {
        Route::MethodNotAllowed
    }
}

/// Whether `r` is the route that method `m` and path `p` select.
pub open spec fn routes_to(m: Method, p: Seq<char>, r: Route) -> bool {
    if p == "/"@ {
        r == (if m.reads() { Route::Index } else { Route::MethodNotAllowed })
    } else if p == "/users"@ {
        r == (if m == Method::Post { Route::CreateUser } else { Route::MethodNotAllowed })
    } else if is_styles_path(p) {
        r matches Route::Styles { file } && file@ == styles_file(p)
    } else if is_contact_path(p) {
        r == contact_route(m, contact_segment(p), false)
    } else if is_edit_path(p) {
        r == contact_route(m, edit_segment(p), true)
    } else {
        r == Route::NotFound
    }
}

proof fn lemma_decimal_prefix(s: Seq<char>, k: int)
    requires
        0 <= k <= s.len(),
    ensures
        decimal_value(s.subrange(0, k)) <= decimal_value(s),
    decreases s.len(),
{
    if k < s.len() {
        lemma_decimal_prefix(s.drop_last(), k);
        assert(s.drop_last().subrange(0, k) =~= s.subrange(0, k));
    } else {
        assert(s.subrange(0, k) =~= s);
    }
}

/// Reads the identifier that `seg` writes in decimal, with an optional
/// leading `+`, as `str::parse::<u32>` does.
pub fn parse_id(seg: &str) -> (r: Option<u32>)
    ensures
        r == id_value(seg@),
{
    let c = chars_of(seg);
    assert(c@.subrange(0, c@.len() as int) =~= seg@);
    parse_id_chars(&c, 0, c.len())
}

fn parse_id_chars(c: &Vec<char>, from: usize, to: usize) -> (r: Option<u32>)
    requires
        from <= to <= c@.len(),
    ensures
        r == id_value(c@.subrange(from as int, to as int)),
{
    let ghost seg = c@.subrange(from as int, to as int);
    let mut start = from;
    if from < to && c[from] == '+' {
        start = from + 1;
    }
    let ghost d = c@.subrange(start as int, to as int);
    assert(d =~= id_digits(seg));
    if start == to {
        return None;
    }
    let mut acc: u64 = 0;
    let mut i = start;
    while i < to
        invariant
            start <= i <= to <= c@.len(),
            d == c@.subrange(start as int, to as int),
            d == id_digits(c@.subrange(from as int, to as int)),
            forall|j: int| 0 <= j < i - start ==> is_digit(d[j]),
            acc == decimal_value(d.subrange(0, i - start)),
            acc <= u32::MAX,
        decreases to - i,
    {
        let ch = c[i];
        if !('0' <= ch && ch <= '9') {
            assert(d[i - start] == ch);
            return None;
        }
        let ghost before = d.subrange(0, i - start);
        let ghost after = d.subrange(0, i - start + 1);
        assert(after.drop_last() =~= before);
        assert(after.last() == ch);
        acc = acc * 10 + (ch as u32 - '0' as u32) as u64;
        i = i + 1;
        if acc > u32::MAX as u64 {
            proof {
                if all_digits(d) {
                    lemma_decimal_prefix(d, i - start);
                }
            }
            return None;
        }
    }
    assert(d.subrange(0, i - start) =~= d);
    Some(acc as u32)
}

/// Whether `lit` stands in `p` at `start`.
fn matches_at(p: &Vec<char>, start: usize, lit: &str) -> (r: bool)
    requires
        start <= p@.len(),
    ensures
        r == (start + lit@.len() <= p@.len() && p@.subrange(
            start as int,
            start + lit@.len(),
        ) == lit@),
{
    let l = chars_of(lit);
    if l.len() > p.len() - start {
        return false;
    }
    let mut i: usize = 0;
    while i < l.len()
        invariant
            l@ == lit@,
            start <= p@.len(),
            start + l@.len() <= p.len(),
            i <= l@.len(),
            forall|j: int| 0 <= j < i ==> p@[start + j] == l@[j],
        decreases l@.len() - i,
    {
        if p[start + i] != l[i] {
            assert(p@.subrange(start as int, start + lit@.len())[i as int] != lit@[i as int]);
            return false;
        }
        i = i + 1;
    }
    assert(p@.subrange(start as int, start + lit@.len()) =~= lit@);
    true
}

/// Whether `p` is exactly `lit`.
pub(crate) fn equals_lit(p: &Vec<char>, lit: &str) -> (r: bool)
    ensures
        r == (p@ == lit@),
{
    let n = lit.unicode_len();
    if p.len() != n {
        return false;
    }
    let r = matches_at(p, 0, lit);
    assert(p@.subrange(0, n as int) =~= p@);
    r
}

/// Whether `p[from..to]` holds no `/`.
fn no_slash(p: &Vec<char>, from: usize, to: usize) -> (r: bool)
    requires
        from <= to <= p@.len(),
    ensures
        r == no_slash_in(p@.subrange(from as int, to as int)),
{
    let ghost sub = p@.subrange(from as int, to as int);
    let mut i = from;
    while i < to
        invariant
            from <= i <= to <= p@.len(),
            sub == p@.subrange(from as int, to as int),
            forall|j: int| 0 <= j < i - from ==> sub[j] != '/',
        decreases to - i,
    {
        if p[i] == '/' {
            assert(sub[i - from] == '/');
            return false;
        }
        i = i + 1;
    }
    true
}

fn reads(m: Method) -> (r: bool)
    ensures
        r == m.reads(),
{
    m == Method::Get || m == Method::Head
}

/// The route of a contact path whose identifier segment is `p[from..to]`.
fn contact_route_at(m: Method, p: &Vec<char>, from: usize, to: usize, editing: bool) -> (r: Route)
    requires
        from <= to <= p@.len(),
    ensures
        r == contact_route(m, p@.subrange(from as int, to as int), editing),
{
    if reads(m) || (!editing && m == Method::Put) {
        match parse_id_chars(p, from, to) {
            Some(id) => if editing {
                Route::EditContact { id }
            } else if m == Method::Put {
                Route::UpdateContact { id }
            } else {
                Route::ShowContact { id }
            },
            None => Route::BadContactId,
        }
    } else {
        Route::MethodNotAllowed
    }
}

/// The route that method `method` and path `path` select.
pub fn route(method: Method, path: &str) -> (r: Route)
    ensures
        routes_to(method, path@, r),
{
    let p = chars_of(path);
    let n = p.len();
    proof {
        reveal_strlit("/contact/");
        reveal_strlit("/edit");
        reveal_strlit("/styles");
    }
    if equals_lit(&p, "/") {
        return if reads(method) {
            Route::Index
        } else {
            Route::MethodNotAllowed
        };
    }
    if equals_lit(&p, "/users") {
        return if method == Method::Post {
            Route::CreateUser
        } else {
            Route::MethodNotAllowed
        };
    }
    if matches_at(&p, 0, "/styles") && (n == 7 || p[7] == '/') {
        let file = if n == 7 {
            String::from_str("/")
        } else {
            String::from_str(path.substring_char(7, n))
        };
        return Route::Styles { file };
    }
    if matches_at(&p, 0, "/contact/") {
        if no_slash(&p, 9, n) && n > 9 {
            return contact_route_at(method, &p, 9, n, false);
        }
        if n >= 14 && matches_at(&p, n - 5, "/edit") && n - 5 > 9 && no_slash(&p, 9, n - 5) {
            return contact_route_at(method, &p, 9, n - 5, true);
        }
    }
    Route::NotFound
}

} // verus!
