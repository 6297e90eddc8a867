//! Plain records with their constructors and defaults.

use vstd::prelude::*;
use vstd::string::StringExecFns;

verus! {

/// A book; moving it moves its title.
pub struct Book {
    pub title: String,
    pub pages: u32,
}

impl Book {
    pub fn new(title: &str, pages: u32) -> (r: Book)
        ensures
            r.title@ == title@,
            r.pages == pages,
    {
        let title = title.to_owned();
        Book { title, pages }
    }
}

/// A magazine issue.
#[derive(Clone)]
pub struct Magazine {
    pub name: String,
    pub issue: u32,
}

impl Magazine {
    pub fn new(name: &str, issue: u32) -> (r: Magazine)
        ensures
            r.name@ == name@,
            r.issue == issue,
    {
        let name = name.to_owned();
        Magazine { name, issue }
    }
}

/// A point with whole coordinates; a copy and what it was copied from
/// are both usable.
#[derive(Debug, Clone, Copy)]
pub struct Point {
    pub x: i32,
    pub y: i32,
}

impl Point {
    pub fn new(x: i32, y: i32) -> (r: Point)
        ensures
            r.x == x,
            r.y == y,
    {
        Point { x, y }
    }
}

/// A person with a name and an age in years.
#[derive(Debug, Clone)]
pub struct Person {
    pub name: String,
    pub age: u8,
}

impl Person {
    pub fn new(name: &str, age: u8) -> (r: Person)
        ensures
            r.name@ == name@,
            r.age == age,
    {
        Person { name: name.to_owned(), age }
    }
}

/// A rectangle with whole side lengths.
#[derive(Debug, Clone, Copy)]
pub struct Rectangle {
    pub width: u32,
    pub height: u32,
}

impl Rectangle {
    pub fn new(width: u32, height: u32) -> (r: Rectangle)
        ensures
            r.width == width,
            r.height == height,
    {
        Rectangle { width, height }
    }

    /// Width times height; the product must fit in 32 bits.
    pub fn area(&self) -> (r: u32)
        requires
            self.width * self.height <= u32::MAX,
        ensures
            r == self.width * self.height,
    {
        self.width * self.height
    }
}

/// A document that counts how often it was copied.
pub struct TrackedDocument {
    pub content: String,
    pub clone_count: u32,
}

impl TrackedDocument {
    pub fn new(content: &str) -> (r: TrackedDocument)
        ensures
            r.content@ == content@,
            r.clone_count == 0,
    {
        let content = content.to_owned();
        let clone_count: u32 = 0;
        TrackedDocument { content, clone_count }
    }

    pub fn times_cloned(&self) -> (r: u32)
        ensures
            r == self.clone_count,
    {
        self.clone_count
    }

    /// A copy with the same content and a count of zero; the document
    /// itself counts one copy more. Its count must not be at its maximum.
    pub fn clone_tracked(&mut self) -> (r: TrackedDocument)
        requires
            old(self).clone_count < u32::MAX,
        ensures
            r.content@ == old(self).content@,
            r.clone_count == 0,
            final(self).content == old(self).content,
            final(self).clone_count == old(self).clone_count + 1,
    {
        self.clone_count = self.clone_count + 1;
        let content = self.content.clone();
        let clone_count: u32 = 0;
        TrackedDocument { content, clone_count }
    }
}

/// Where a server listens and how many connections it takes.
#[derive(Debug)]
pub struct ServerConfig {
    pub host: String,
    pub port: u16,
    pub max_conn: u32,
}

impl ServerConfig {
    pub fn new(host: &str, port: u16, max_conn: u32) -> (r: ServerConfig)
        ensures
            r.host@ == host@,
            r.port == port,
            r.max_conn == max_conn,
    {
        let host = host.to_owned();
        ServerConfig { host, port, max_conn }
    }
}

/// A rendering of `s` between double quotes with its special characters
/// escaped, as the standard library's debug formatting of a string writes
/// it.
pub uninterp spec fn quoted(s: Seq<char>) -> Seq<char>;

/// Calls the debug formatting of `str`, which quotes and escapes.
#[verifier::external_body]
fn render_quoted(s: &str) -> (r: String)
    ensures
        r@ == quoted(s@),
{
    format!("{:?}", s)
}

/// A login; the password never shows in its debug text.
pub struct UserCredentials {
    pub username: String,
    pub password: String,
}

impl UserCredentials {
    pub fn new(username: &str, password: &str) -> (r: UserCredentials)
        ensures
            r.username@ == username@,
            r.password@ == password@,
    {
        UserCredentials { username: username.to_owned(), password: password.to_owned() }
    }

    /// The debug text of credentials with the user name `username`.
    pub open spec fn debug_text(username: Seq<char>) -> Seq<char> {
        "UserCredentials { username: "@ + quoted(username) + ", password: \"[SECRET]\" }"@
    }

    /// The debug text: the user name, and a fixed word in place of the
    /// password.
    pub fn debug_string(&self) -> (r: String)
        ensures
            r@ == Self::debug_text(self.username@),
    {
        let mut out = "UserCredentials { username: ".to_owned();
        let name = render_quoted(self.username.as_str());
        out.append(name.as_str());
        out.append(", password: \"[SECRET]\" }");
        out
    }
}

/// Settings whose defaults are all zero values.
#[derive(Debug)]
pub struct AppSettings {
    pub debug_mode: bool,
    pub log_level: u8,
    pub app_name: String,
}

impl Default for AppSettings {
    fn default() -> (r: AppSettings)
        ensures
            !r.debug_mode,
            r.log_level == 0,
            r.app_name@ == Seq::<char>::empty(),
    {
        AppSettings { debug_mode: false, log_level: 0, app_name: String::new() }
    }
}

/// How to reach a database.
pub struct DatabaseConf {
    pub host: String,
    pub port: u16,
    pub pool_size: u32,
    pub timeout_seconds: u64,
}

impl Default for DatabaseConf {
    fn default() -> (r: DatabaseConf)
        ensures
            r.host@ == "localhost"@,
            r.port == 5432,
            r.pool_size == 10,
            r.timeout_seconds == 30,
    {
        let host = "localhost".to_owned();
        let port: u16 = 5432;
        let pool_size: u32 = 10;
        let timeout_seconds: u64 = 30;
        DatabaseConf { host, port, pool_size, timeout_seconds }
    }
}

} // verus!
