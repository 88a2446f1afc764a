//! The request handlers: what each route answers.
use vstd::prelude::*;
use crate::contact::{Contact, ContactEditTemplate, ContactTemplate};
use crate::form::{contact_from_pairs, form_result, FormError};
use crate::form::{count_key, first_repeat, Field};
use crate::routing::{
    contact_prefix, contact_segment, edit_segment, edit_suffix, id_digits, id_value, is_contact_path,
    is_edit_path, is_segment, is_styles_path, routes_to, Method, Route,
};
use crate::user::{create_user, CreateUser, User};

verus! {

pub const OK: u16 = 200;

pub const CREATED: u16 = 201;

pub const BAD_REQUEST: u16 = 400;

pub const NOT_FOUND: u16 = 404;

pub const METHOD_NOT_ALLOWED: u16 = 405;

pub const UNPROCESSABLE_ENTITY: u16 = 422;

pub const INTERNAL_SERVER_ERROR: u16 = 500;

/// A template to render, with its view-model.
pub enum Page {
    /// The index page; it has no variables.
    Index,
    /// The whole contact page.
    ContactPage(ContactTemplate),
    /// Only the `contact` fragment of the contact page.
    ContactFragment(ContactTemplate),
    /// The contact edit form.
    ContactEdit(ContactEditTemplate),
}

/// What the service answers a request with.
pub enum Reply {
    /// An HTML page, with status 200.
    Html { page: Page },
    /// A created user as JSON, with status 201.
    Created { user: User },
    /// A file of the styles directory, at this path inside it.
    Styles { file: String },
    /// A contact form that makes no contact, with status 422.
    InvalidForm { error: FormError },
    /// An empty answer with this status.
    Status { status: u16 },
    /// A failure of the service, with status 500 and this body.
    Failed { message: String },
}

/// What the service does next with a routed request.
pub enum Step {
    /// Answer at once.
    Answer(Reply),
    /// Read the request body as a contact form, then answer through
    /// [`submit_contact_form`] for this contact.
    ReadForm { id: u32 },
    /// Read the request body as a JSON user, then answer through [`submit_user`].
    ReadUser,
}

impl Reply {
    /// The reply's status, or `None` where serving a file decides it.
    pub open spec fn status_spec(&self) -> Option<u16> {
        match self {
            Reply::Html { .. } => Some(OK),
            Reply::Created { .. } => Some(CREATED),
            Reply::Styles { .. } => None,
            Reply::InvalidForm { .. } => Some(UNPROCESSABLE_ENTITY),
            Reply::Status { status } => Some(*status),
            Reply::Failed { .. } => Some(INTERNAL_SERVER_ERROR),
        }
    }

    /// The reply's status, or `None` where serving a file decides it.
    pub fn status(&self) -> (r: Option<u16>)
        ensures
            r == self.status_spec(),
    {
        match self {
            Reply::Html { .. } => Some(OK),
            Reply::Created { .. } => Some(CREATED),
            Reply::Styles { .. } => None,
            Reply::InvalidForm { .. } => Some(UNPROCESSABLE_ENTITY),
            Reply::Status { status } => Some(*status),
            Reply::Failed { .. } => Some(INTERNAL_SERVER_ERROR),
        }
    }
}

/// The page that shows the default contact: only its fragment when the
/// request asked for a fragment, else the whole page.
pub open spec fn is_show_page(page: Page, fragment: bool) -> bool {
    if fragment {
        page matches Page::ContactFragment(t) && t.shows_default()
    } else {
        page matches Page::ContactPage(t) && t.shows_default()
    }
}

/// The index page.
pub fn index() -> (r: Page)
    ensures
        r is Index,
{
    Page::Index
}

/// The page for `GET /contact/{id}`: the default contact, whatever the
/// identifier; only the `contact` fragment when `hx_request` is set.
pub fn show_contact(id: u32, hx_request: bool) -> (r: Page)
    ensures
        is_show_page(r, hx_request),
{
    if hx_request {
        Page::ContactFragment(ContactTemplate::default())
    } else {
        Page::ContactPage(ContactTemplate::default())
    }
}

/// The page for `GET /contact/{id}/edit`: the edit form, pre-filled with the
/// default contact whatever the identifier.
pub fn edit_contact(id: u32) -> (r: Page)
    ensures
        r matches Page::ContactEdit(t) && t.shows_default(),
{
    Page::ContactEdit(ContactEditTemplate::default())
}

/// The page for `PUT /contact/{id}`: the `contact` fragment showing the
/// submitted contact, whatever the identifier. The update echoes what was
/// submitted and stores nothing, so later reads still show the default
/// contact.
pub fn update_contact(id: u32, contact: Contact) -> (r: Page)
    ensures
        r matches Page::ContactFragment(t) && t.fields() == contact.fields(),
{
    Page::ContactFragment(ContactTemplate::new(contact))
}

/// Whether `r` is what the service does with a request that took route
/// `route`; `fragment` tells whether the request asked for a fragment.
pub open spec fn responds(route: Route, fragment: bool, r: Step) -> bool {
    match route {
        Route::Index => r matches Step::Answer(Reply::Html { page }) && page is Index,
        Route::ShowContact { .. } => r matches Step::Answer(Reply::Html { page })
            && is_show_page(page, fragment),
        Route::EditContact { .. } => r matches Step::Answer(Reply::Html { page })
            && page matches Page::ContactEdit(t) && t.shows_default(),
        Route::UpdateContact { id } => r == Step::ReadForm { id },
        Route::CreateUser => r is ReadUser,
        Route::Styles { file } => r matches Step::Answer(Reply::Styles { file: f })
            && f@ == file@,
        Route::BadContactId => r == Step::Answer(Reply::Status { status: BAD_REQUEST }),
        Route::MethodNotAllowed => r == Step::Answer(
            Reply::Status { status: METHOD_NOT_ALLOWED },
        ),
        Route::NotFound => r == Step::Answer(Reply::Status { status: NOT_FOUND }),
    }
}

/// What the service does with a request that took route `route`;
/// `hx_request` tells whether the request carries the `HX-Request` header.
pub fn respond(route: Route, hx_request: bool) -> (r: Step)
    ensures
        responds(route, hx_request, r),
{
    match route {
        Route::Index => Step::Answer(Reply::Html { page: index() }),
        Route::ShowContact { id } => Step::Answer(Reply::Html { page: show_contact(id, hx_request) }),
        Route::EditContact { id } => Step::Answer(Reply::Html { page: edit_contact(id) }),
        Route::UpdateContact { id } => Step::ReadForm { id },
        Route::CreateUser => Step::ReadUser,
        Route::Styles { file } => Step::Answer(Reply::Styles { file }),
        Route::BadContactId => Step::Answer(Reply::Status { status: BAD_REQUEST }),
        Route::MethodNotAllowed => Step::Answer(Reply::Status { status: METHOD_NOT_ALLOWED }),
        Route::NotFound => Step::Answer(Reply::Status { status: NOT_FOUND }),
    }
}

/// Whether `r` answers a contact form of these key/value pairs.
pub open spec fn answers_form(pairs: Seq<(String, String)>, r: Reply) -> bool {
    match form_result(pairs) {
        Ok(fields) => r matches Reply::Html { page } && page matches Page::ContactFragment(t)
            && t.fields() == fields,
        Err(e) => r == Reply::InvalidForm { error: e },
    }
}

/// The answer to `PUT /contact/{id}` with a form of these key/value pairs:
/// the submitted contact's fragment, or the reason the form makes no contact.
pub fn submit_contact_form(id: u32, pairs: &Vec<(String, String)>) -> (r: Reply)
    ensures
        answers_form(pairs@, r),
{
    match contact_from_pairs(pairs) {
        Ok(contact) => Reply::Html { page: update_contact(id, contact) },
        Err(error) => Reply::InvalidForm { error },
    }
}

/// The answer to `POST /users` with this body: the created user.
pub fn submit_user(payload: CreateUser) -> (r: Reply)
    ensures
        r matches Reply::Created { user } && user.id == crate::user::USER_ID && user.username@
            == payload.username@,
{
    Reply::Created { user: create_user(payload) }
}

/// A path segment that writes a `u32` holds no `/`.
proof fn lemma_id_is_segment(seg: Seq<char>)
    requires
        id_value(seg) is Some,
    ensures
        is_segment(seg),
{
    let d = id_digits(seg);
    assert forall|i: int| 0 <= i < seg.len() implies seg[i] != '/' by {
        if seg.len() > 0 && seg[0] == '+' {
            if i > 0 {
                assert(seg[i] == d[i - 1]);
            }
        } else {
            assert(seg[i] == d[i]);
        }
    }
}

/// Which route `/contact/{seg}` and `/contact/{seg}/edit` take, for a
/// segment that writes a `u32`.
proof fn lemma_contact_paths(seg: Seq<char>)
    requires
        id_value(seg) is Some,
    ensures
        is_contact_path(contact_prefix() + seg),
        contact_segment(contact_prefix() + seg) == seg,
        !is_edit_path(contact_prefix() + seg),
        !is_contact_path(contact_prefix() + seg + edit_suffix()),
        is_edit_path(contact_prefix() + seg + edit_suffix()),
        edit_segment(contact_prefix() + seg + edit_suffix()) == seg,
        contact_prefix() + seg != "/"@,
        contact_prefix() + seg != "/users"@,
        !is_styles_path(contact_prefix() + seg),
        contact_prefix() + seg + edit_suffix() != "/"@,
        contact_prefix() + seg + edit_suffix() != "/users"@,
        !is_styles_path(contact_prefix() + seg + edit_suffix()),
{
    reveal_strlit("/contact/");
    reveal_strlit("/edit");
    reveal_strlit("/styles");
    reveal_strlit("/users");
    reveal_strlit("/");
    lemma_id_is_segment(seg);
    let p = contact_prefix() + seg;
    let q = p + edit_suffix();
    assert(p.subrange(0, 9) =~= contact_prefix());
    assert(p.subrange(9, p.len() as int) =~= seg);
    assert(q.subrange(0, 9) =~= contact_prefix());
    assert(q.subrange(q.len() - 5, q.len() as int) =~= edit_suffix());
    assert(q.subrange(9, q.len() - 5) =~= seg);
    assert(q.subrange(9, q.len() as int)[seg.len() as int] == '/');
    assert(p.subrange(p.len() - 5, p.len() as int)[1] != 'e') by {
        assert(p.subrange(p.len() - 5, p.len() as int)[1] == p[p.len() - 4]);
        if p.len() - 4 >= 9 {
            assert(p[p.len() - 4] == seg[p.len() - 4 - 9]);
            if seg[0] == '+' && p.len() - 4 > 9 {
                assert(seg[p.len() - 4 - 9] == id_digits(seg)[p.len() - 4 - 10]);
            } else if seg[0] != '+' {
                assert(seg[p.len() - 4 - 9] == id_digits(seg)[p.len() - 4 - 9]);
            }
        }
    }
    assert(edit_suffix()[1] == 'e');
    assert(p[1] == 'c' && q[1] == 'c');
    assert("/users"@[1] == 'u');
}

/// `GET /contact/{id}`, for every identifier that is a `u32`, shows the
/// default contact with status 200: only the `contact` fragment when the
/// request asked for a fragment, the whole page when it did not.
pub proof fn law_show_contact(seg: Seq<char>, fragment: bool, route: Route, step: Step)
    requires
        id_value(seg) is Some,
        routes_to(Method::Get, contact_prefix() + seg, route),
        responds(route, fragment, step),
    ensures
        route == (Route::ShowContact { id: id_value(seg)->0 }),
        step matches Step::Answer(reply) && (reply.status_spec() == Some(OK) && (
        reply matches Reply::Html { page } && is_show_page(page, fragment))),
{
    lemma_contact_paths(seg);
}

/// `GET /contact/{id}/edit`, for every identifier that is a `u32`, answers
/// with status 200 the edit form pre-filled with the default contact.
pub proof fn law_edit_contact(seg: Seq<char>, fragment: bool, route: Route, step: Step)
    requires
        id_value(seg) is Some,
        routes_to(Method::Get, contact_prefix() + seg + edit_suffix(), route),
        responds(route, fragment, step),
    ensures
        route == (Route::EditContact { id: id_value(seg)->0 }),
        step matches Step::Answer(reply) && (reply.status_spec() == Some(OK) && (
        reply matches Reply::Html { page } && (page matches Page::ContactEdit(t)
            && t.shows_default()))),
{
    lemma_contact_paths(seg);
}

/// `PUT /contact/{id}`, for every identifier that is a `u32`, goes on to
/// read the submitted form for that identifier.
pub proof fn law_update_contact(seg: Seq<char>, fragment: bool, route: Route, step: Step)
    requires
        id_value(seg) is Some,
        routes_to(Method::Put, contact_prefix() + seg, route),
        responds(route, fragment, step),
    ensures
        step == (Step::ReadForm { id: id_value(seg)->0 }),
{
    lemma_contact_paths(seg);
}

/// A contact form without one of its fields is answered with a client
/// error, never with a page.
pub proof fn law_missing_field_rejected(pairs: Seq<(String, String)>, f: Field, reply: Reply)
    requires
        count_key(pairs, f.key()) == 0,
        answers_form(pairs, reply),
    ensures
        reply is InvalidForm,
        reply.status_spec() matches Some(s) && 400 <= s < 500,
{
}

/// `PUT /contact/{id}`, for every identifier that is a `u32`, with a form
/// that lacks one of the contact's fields, is answered with a client error
/// and never with a page.
pub proof fn law_update_missing_field(
    seg: Seq<char>,
    fragment: bool,
    route: Route,
    step: Step,
    pairs: Seq<(String, String)>,
    f: Field,
    reply: Reply,
)
    requires
        id_value(seg) is Some,
        routes_to(Method::Put, contact_prefix() + seg, route),
        responds(route, fragment, step),
        count_key(pairs, f.key()) == 0,
        answers_form(pairs, reply),
    ensures
        step == (Step::ReadForm { id: id_value(seg)->0 }),
        reply is InvalidForm,
        reply.status_spec() matches Some(s) && 400 <= s < 500,
{
    law_update_contact(seg, fragment, route, step);
    law_missing_field_rejected(pairs, f, reply);
}

} // verus!
