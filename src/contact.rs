//! The contact data and the view-models the contact templates are filled with.
use vstd::prelude::*;

verus! {

/// The first name every contact read returns.
pub open spec fn default_first_name() -> Seq<char> {
    "Joe"@
}

/// The last name every contact read returns.
pub open spec fn default_last_name() -> Seq<char> {
    "Blow"@
}

/// The email address every contact read returns.
pub open spec fn default_email() -> Seq<char> {
    "joe@blow.com"@
}

/// A contact as submitted by a client.
pub struct Contact {
    pub first_name: String,
    pub last_name: String,
    pub email: String,
}

/// The view-model of the contact page and of its `contact` fragment.
pub struct ContactTemplate {
    pub first_name: String,
    pub last_name: String,
    pub email: String,
}

/// The view-model of the contact edit form.
pub struct ContactEditTemplate {
    pub first_name: String,
    pub last_name: String,
    pub email: String,
}

impl Contact {
    /// The contact's fields as character sequences, in the order
    /// first name, last name, email.
    pub open spec fn fields(&self) -> (Seq<char>, Seq<char>, Seq<char>) {
        (self.first_name@, self.last_name@, self.email@)
    }
}

impl ContactTemplate {
    pub open spec fn fields(&self) -> (Seq<char>, Seq<char>, Seq<char>) {
        (self.first_name@, self.last_name@, self.email@)
    }

    /// Whether this view-model shows the fixed default contact.
    pub open spec fn shows_default(&self) -> bool {
        self.fields() == (default_first_name(), default_last_name(), default_email())
    }

    /// The view-model showing the given contact.
    pub fn new(contact: Contact) -> (r: Self)
        ensures
            r.fields() == contact.fields(),
    {
        ContactTemplate {
            first_name: contact.first_name,
            last_name: contact.last_name,
            email: contact.email,
        }
    }
}

impl Default for ContactTemplate {
    fn default() -> (r: Self)
        ensures
            r.shows_default(),
    {
        ContactTemplate {
            first_name: String::from_str("Joe"),
            last_name: String::from_str("Blow"),
            email: String::from_str("joe@blow.com"),
        }
    }
}

impl ContactEditTemplate {
    pub open spec fn fields(&self) -> (Seq<char>, Seq<char>, Seq<char>) {
        (self.first_name@, self.last_name@, self.email@)
    }

    /// Whether the edit form is pre-filled with the fixed default contact.
    pub open spec fn shows_default(&self) -> bool {
        self.fields() == (default_first_name(), default_last_name(), default_email())
    }
}

impl Default for ContactEditTemplate {
    fn default() -> (r: Self)
        ensures
            r.shows_default(),
    {
        ContactEditTemplate {
            first_name: String::from_str("Joe"),
            last_name: String::from_str("Blow"),
            email: String::from_str("joe@blow.com"),
        }
    }
}

} // verus!
