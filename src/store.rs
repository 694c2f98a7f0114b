//! The page store: the record that is written to it, the parameters used
//! to reach it, and what a read-back yields when no page is found.

use vstd::prelude::*;
use vstd::string::StringExecFns;

verus! {

/// A page: a title and a text.
#[derive(Clone, Debug)]
pub struct Page {
    pub title: String,
    pub text: String,
}

/// The page that stands in when the store holds none.
pub open spec fn is_placeholder(p: Page) -> bool {
    p.title@ == "empty"@ && p.text@ == "page not found"@
}

impl Page {
    pub fn new(title: &str, text: &str) -> (p: Page)
        ensures
            p.title@ == title@,
            p.text@ == text@,
    {
        Page { title: String::from_str(title), text: String::from_str(text) }
    }

    /// The page written to the store at startup.
    pub fn greeting() -> (p: Page)
        ensures
            p.title@ == "Hello!"@,
            p.text@ == "Hi from Rust"@,
    {
        Page::new("Hello!", "Hi from Rust")
    }

    /// The page returned when the store holds none.
    pub fn placeholder() -> (p: Page)
        ensures
            is_placeholder(p),
    {
        Page::new("empty", "page not found")
    }
}

/// The page read back from the store, or the placeholder where there was
/// none.
pub fn page_or_placeholder(found: Option<Page>) -> (p: Page)
    ensures
        match found {
            Some(f) => p.title@ == f.title@ && p.text@ == f.text@,
            None => is_placeholder(p),
        },
{
    match found {
        Some(f) => f,
        None => Page::placeholder(),
    }
}

/// Where the store is and how to sign in to it.
#[derive(Clone, Debug)]
pub struct StoreConfig {
    /// Host and port of the store's socket endpoint.
    pub address: String,
    pub username: String,
    pub password: String,
    pub namespace: String,
    pub database: String,
    /// The collection that holds the pages.
    pub table: String,
}

impl StoreConfig {
    /// The store on this machine that the server uses.
    pub fn local() -> (c: StoreConfig)
        ensures
            c.address@ == "127.0.0.1:8000"@,
            c.username@ == "root"@,
            c.password@ == "root"@,
            c.namespace@ == "test"@,
            c.database@ == "test"@,
            c.table@ == "page"@,
    {
        StoreConfig {
            address: String::from_str("127.0.0.1:8000"),
            username: String::from_str("root"),
            password: String::from_str("root"),
            namespace: String::from_str("test"),
            database: String::from_str("test"),
            table: String::from_str("page"),
        }
    }

    /// The query that reads the text of every page; the collection's name
    /// is bound to `$table`.
    pub fn text_query(&self) -> (q: &'static str)
        ensures
            q@ == "SELECT text FROM type::table($table)"@,
    {
        "SELECT text FROM type::table($table)"
    }
}

} // verus!
