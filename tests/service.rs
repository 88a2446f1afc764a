use contacts::contact::{Contact, ContactEditTemplate, ContactTemplate};
use contacts::error::{render_failure, AppError};
use contacts::form::{contact_from_pairs, Field, FormError};
use contacts::handlers::{
    edit_contact, index, respond, show_contact, submit_contact_form, submit_user, update_contact,
    Page, Reply, Step,
};
use contacts::routing::{parse_id, route, Method, Route};
use contacts::user::{create_user, CreateUser, USER_ID};

fn pairs(items: &[(&str, &str)]) -> Vec<(String, String)> {
    items.iter().map(|(k, v)| (k.to_string(), v.to_string())).collect()
}

fn fields_of(t: &ContactTemplate) -> (&str, &str, &str) {
    (t.first_name.as_str(), t.last_name.as_str(), t.email.as_str())
}

fn answer(step: Step) -> Reply {
    match step {
        Step::Answer(reply) => reply,
        _ => panic!("expected an immediate answer"),
    }
}

#[test]
fn show_contact_returns_defaults_for_any_id() {
    for (path, id) in [("/contact/42", 42u32), ("/contact/0", 0), ("/contact/4294967295", u32::MAX)] {
        let r = route(Method::Get, path);
        assert_eq!(r, Route::ShowContact { id });
        let reply = answer(respond(r, false));
        assert_eq!(reply.status(), Some(200));
        match reply {
            Reply::Html { page: Page::ContactPage(t) } => {
                assert_eq!(fields_of(&t), ("Joe", "Blow", "joe@blow.com"));
            }
            _ => panic!("expected the whole contact page"),
        }
    }
}

#[test]
fn show_contact_fragment_only_with_header() {
    let reply = answer(respond(route(Method::Get, "/contact/7"), true));
    assert_eq!(reply.status(), Some(200));
    match reply {
        Reply::Html { page: Page::ContactFragment(t) } => {
            assert_eq!(fields_of(&t), ("Joe", "Blow", "joe@blow.com"));
        }
        _ => panic!("expected the contact fragment"),
    }
    assert!(matches!(show_contact(7, false), Page::ContactPage(_)));
    assert!(matches!(show_contact(7, true), Page::ContactFragment(_)));
}

#[test]
fn edit_contact_is_prefilled_with_defaults() {
    let r = route(Method::Get, "/contact/3/edit");
    assert_eq!(r, Route::EditContact { id: 3 });
    let reply = answer(respond(r, false));
    assert_eq!(reply.status(), Some(200));
    match reply {
        Reply::Html { page: Page::ContactEdit(t) } => {
            assert_eq!(t.first_name, "Joe");
            assert_eq!(t.last_name, "Blow");
            assert_eq!(t.email, "joe@blow.com");
        }
        _ => panic!("expected the edit form"),
    }
    assert!(matches!(edit_contact(9), Page::ContactEdit(_)));
    let d = ContactEditTemplate::default();
    assert_eq!((d.first_name.as_str(), d.last_name.as_str(), d.email.as_str()), ("Joe", "Blow", "joe@blow.com"));
}

#[test]
fn update_contact_echoes_form_and_stores_nothing() {
    let r = route(Method::Put, "/contact/1");
    assert_eq!(r, Route::UpdateContact { id: 1 });
    let id = match respond(r, false) {
        Step::ReadForm { id } => id,
        _ => panic!("expected to read the form"),
    };
    assert_eq!(id, 1);
    let body = pairs(&[("first_name", "Jane"), ("last_name", "Doe"), ("email", "jane@doe.com")]);
    let reply = submit_contact_form(id, &body);
    assert_eq!(reply.status(), Some(200));
    match reply {
        Reply::Html { page: Page::ContactFragment(t) } => {
            assert_eq!(fields_of(&t), ("Jane", "Doe", "jane@doe.com"));
        }
        _ => panic!("expected the contact fragment"),
    }
    match answer(respond(route(Method::Get, "/contact/1"), false)) {
        Reply::Html { page: Page::ContactPage(t) } => {
            assert_eq!(fields_of(&t), ("Joe", "Blow", "joe@blow.com"));
        }
        _ => panic!("expected the whole contact page"),
    }
}

#[test]
fn update_contact_missing_field_is_client_error() {
    let body = pairs(&[("first_name", "Jane"), ("last_name", "Doe")]);
    let reply = submit_contact_form(1, &body);
    let status = reply.status().unwrap();
    assert!((400..500).contains(&status));
    assert_eq!(status, 422);
    match reply {
        Reply::InvalidForm { error } => {
            assert_eq!(error, FormError::Missing(Field::Email));
            assert_eq!(error.describe(), "Failed to deserialize form body: missing field `email`");
        }
        _ => panic!("expected a rejected form"),
    }
    let empty: Vec<(String, String)> = Vec::new();
    assert!(matches!(
        submit_contact_form(1, &empty),
        Reply::InvalidForm { error: FormError::Missing(Field::FirstName) }
    ));
}

#[test]
fn create_user_scenario() {
    let r = route(Method::Post, "/users");
    assert_eq!(r, Route::CreateUser);
    assert!(matches!(respond(r, false), Step::ReadUser));
    let reply = submit_user(CreateUser { username: "alice".to_string() });
    assert_eq!(reply.status(), Some(201));
    match reply {
        Reply::Created { user } => {
            assert_eq!(user.id, 1337);
            assert_eq!(user.username, "alice");
        }
        _ => panic!("expected a created user"),
    }
    let u = create_user(CreateUser { username: "bob".to_string() });
    assert_eq!((u.id, u.username.as_str()), (USER_ID, "bob"));
}

#[test]
fn unknown_path_is_not_found() {
    let r = route(Method::Get, "/unknown-path");
    assert_eq!(r, Route::NotFound);
    let reply = answer(respond(r, false));
    assert_eq!(reply.status(), Some(404));
}

#[test]
fn index_route() {
    assert_eq!(route(Method::Get, "/"), Route::Index);
    assert_eq!(route(Method::Head, "/"), Route::Index);
    assert_eq!(route(Method::Post, "/"), Route::MethodNotAllowed);
    assert!(matches!(index(), Page::Index));
    let reply = answer(respond(Route::Index, false));
    assert!(matches!(reply, Reply::Html { page: Page::Index }));
}

#[test]
fn method_and_id_errors() {
    assert_eq!(route(Method::Get, "/users"), Route::MethodNotAllowed);
    assert_eq!(route(Method::Post, "/contact/5"), Route::MethodNotAllowed);
    assert_eq!(route(Method::Put, "/contact/5/edit"), Route::MethodNotAllowed);
    assert_eq!(route(Method::Get, "/contact/abc"), Route::BadContactId);
    assert_eq!(route(Method::Put, "/contact/abc"), Route::BadContactId);
    assert_eq!(route(Method::Post, "/contact/abc"), Route::MethodNotAllowed);
    assert_eq!(route(Method::Get, "/contact/edit"), Route::BadContactId);
    assert_eq!(route(Method::Get, "/contact/4294967296"), Route::BadContactId);
    assert_eq!(route(Method::Get, "/contact/x/edit"), Route::BadContactId);
    assert_eq!(route(Method::Other, "/"), Route::MethodNotAllowed);
    assert_eq!(answer(respond(Route::BadContactId, false)).status(), Some(400));
    assert_eq!(answer(respond(Route::MethodNotAllowed, false)).status(), Some(405));
}

#[test]
fn unmatched_shapes_are_not_found() {
    for path in ["", "/contact", "/contact/", "/contact/5/", "/contact//edit", "/contact/5/edit/", "/contact/5/view", "/stylesheet", "/users/1", "//"] {
        assert_eq!(route(Method::Get, path), Route::NotFound, "{}", path);
    }
}

#[test]
fn styles_routes() {
    assert_eq!(route(Method::Get, "/styles"), Route::Styles { file: "/".to_string() });
    assert_eq!(route(Method::Get, "/styles/"), Route::Styles { file: "/".to_string() });
    assert_eq!(route(Method::Get, "/styles/site.css"), Route::Styles { file: "/site.css".to_string() });
    assert_eq!(route(Method::Post, "/styles/a/b.css"), Route::Styles { file: "/a/b.css".to_string() });
    let reply = answer(respond(route(Method::Get, "/styles/site.css"), false));
    assert_eq!(reply.status(), None);
    assert!(matches!(reply, Reply::Styles { file } if file == "/site.css"));
}

#[test]
fn id_parsing() {
    assert_eq!(parse_id("0"), Some(0));
    assert_eq!(parse_id("007"), Some(7));
    assert_eq!(parse_id("+12"), Some(12));
    assert_eq!(parse_id("4294967295"), Some(4294967295));
    assert_eq!(parse_id("4294967296"), None);
    assert_eq!(parse_id("99999999999999999999"), None);
    assert_eq!(parse_id(""), None);
    assert_eq!(parse_id("+"), None);
    assert_eq!(parse_id("-1"), None);
    assert_eq!(parse_id("1a"), None);
    assert_eq!(parse_id("++1"), None);
    assert_eq!(parse_id("١"), None);
}

#[test]
fn form_fields() {
    let c = contact_from_pairs(&pairs(&[("email", "e@x"), ("other", "z"), ("last_name", "L"), ("first_name", "F")])).ok().unwrap();
    assert_eq!((c.first_name.as_str(), c.last_name.as_str(), c.email.as_str()), ("F", "L", "e@x"));
    let dup = contact_from_pairs(&pairs(&[("first_name", "a"), ("email", "b"), ("email", "c"), ("first_name", "d")]));
    assert_eq!(dup.err(), Some(FormError::Duplicate(Field::Email)));
    let missing = contact_from_pairs(&pairs(&[("email", "b"), ("first_name", "a")]));
    assert_eq!(missing.err(), Some(FormError::Missing(Field::LastName)));
    assert_eq!(
        FormError::Duplicate(Field::FirstName).describe(),
        "Failed to deserialize form body: duplicate field `first_name`"
    );
    assert_eq!(Field::LastName.name(), "last_name");
}

#[test]
fn templates_from_contact() {
    let t = ContactTemplate::new(Contact {
        first_name: "A".to_string(),
        last_name: "B".to_string(),
        email: "c@d".to_string(),
    });
    assert_eq!(fields_of(&t), ("A", "B", "c@d"));
    assert_eq!(fields_of(&ContactTemplate::default()), ("Joe", "Blow", "joe@blow.com"));
    let page = update_contact(2, Contact {
        first_name: "X".to_string(),
        last_name: "Y".to_string(),
        email: "z".to_string(),
    });
    match page {
        Page::ContactFragment(t) => assert_eq!(fields_of(&t), ("X", "Y", "z")),
        _ => panic!("expected the contact fragment"),
    }
}

#[test]
fn render_failures() {
    match render_failure("boom") {
        Reply::Failed { message } => assert_eq!(message, "Template rendering failed: boom"),
        _ => panic!("expected a failure"),
    }
    let reply = AppError::from(askama::Error::ValueMissing).into_response();
    assert_eq!(reply.status(), Some(500));
    match reply {
        Reply::Failed { message } => {
            assert_eq!(message, "Template rendering failed: key missing in values");
        }
        _ => panic!("expected a failure"),
    }
}
