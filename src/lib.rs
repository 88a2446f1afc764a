//! A small contact-management web service: routing, handlers and view-models.
//!
//! The library decides everything about a request that can be decided from
//! plain values: which route a method and path select, which template and
//! view-model a handler fills, how a submitted form becomes a contact, and
//! which status a reply carries. Rendering templates and talking HTTP are
//! left to the program around it.
pub mod contact;
pub mod routing;
pub mod form;
pub mod user;
pub mod handlers;
pub mod error;
