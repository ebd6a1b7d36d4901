use vstd::prelude::*;
use vstd::string::*;

use crate::models::FieldInfo;

verus! {

/// The ASCII upper-case form of `c`; any other character is kept.
pub open spec fn ascii_upper(c: char) -> char {
    if 'a' <= c && c <= 'z' {
        ((c as u8) - 32) as u8 as char
    } else {
        c
    }
}

/// `s` with its first character in ASCII upper case.
pub open spec fn capitalized(s: Seq<char>) -> Seq<char>
    recommends
        s.len() > 0,
{
    s.update(0, ascii_upper(s[0]))
}

fn to_ascii_upper(c: char) -> (r: char)
    ensures
        r == ascii_upper(c),
{
    if 'a' <= c && c <= 'z' {
        ((c as u8) - 32) as char
    } else {
        c
    }
}

/// The characters of `s`, in order.
fn chars_of(s: &str) -> (r: Vec<char>)
    ensures
        r@ == s@,
{
    let n = s.unicode_len();
    let mut out: Vec<char> = Vec::new();
    let mut i: usize = 0;
    while i < n
        invariant
            0 <= i <= n,
            n == s@.len(),
            out@ == s@.take(i as int),
        decreases n - i,
    {
        out.push(s.get_char(i));
        proof {
            assert(s@.take(i + 1) == s@.take(i as int).push(s@[i as int]));
        }
        i = i + 1;
    }
    proof {
        assert(s@.take(i as int) == s@);
    }
    out
}

/// Relies on `String`'s `FromIterator<char>`: the string of the given characters.
#[verifier::external_body]
fn string_of(v: Vec<char>) -> (r: String)
    ensures
        r@ == v@,
{
    String::from_iter(v)
}

/// Upper-cases the first character, the way the schema compiler names enum
/// enumerants.
pub fn capitalize_first_letter(s: &str) -> (r: String)
    requires
        s@.len() > 0,
    ensures
        r@ == capitalized(s@),
{
    let mut chars = chars_of(s);
    let first = to_ascii_upper(chars[0]);
    chars.set(0, first);
    string_of(chars)
}

/// What heck's `to_snake_case` gives for the characters `s`.
pub uninterp spec fn snake_case_of(s: Seq<char>) -> Seq<char>;

/// What heck's `to_upper_camel_case` gives for the characters `s`.
pub uninterp spec fn upper_camel_case_of(s: Seq<char>) -> Seq<char>;

/// Relies on heck's `ToSnakeCase::to_snake_case` for `str`: its result is
/// a function of the characters alone.
#[verifier::external_body]
fn to_snake_case(s: &str) -> (r: String)
    ensures
        r@ == snake_case_of(s@),
{
    heck::ToSnakeCase::to_snake_case(s)
}

/// Relies on heck's `ToUpperCamelCase::to_upper_camel_case` for `str`: its
/// result is a function of the characters alone.
#[verifier::external_body]
fn to_upper_camel_case(s: &str) -> (r: String)
    ensures
        r@ == upper_camel_case_of(s@),
{
    heck::ToUpperCamelCase::to_upper_camel_case(s)
}

/// The casing that a generated accessor or variant name is written in.
#[derive(Debug, Clone, Copy, PartialEq, Eq)]
pub enum NameCase {
    /// Accessor names: `get_x`, `set_x`, ...
    Snake,
    /// Names of the generated `Which` variants.
    UpperCamel,
    /// Enumerant names of generated enums.
    Capitalized,
}

/// `s` written in the casing `case`.
pub open spec fn cased(case: NameCase, s: Seq<char>) -> Seq<char> {
    match case {
        NameCase::Snake => snake_case_of(s),
        NameCase::UpperCamel => upper_camel_case_of(s),
        NameCase::Capitalized => if s.len() == 0 {
            s
        } else {
            capitalized(s)
        },
    }
}

/// Writes `s` in the casing `case`.
pub fn to_case(case: NameCase, s: &str) -> (r: String)
    ensures
        r@ == cased(case, s@),
{
    match case {
        NameCase::Snake => to_snake_case(s),
        NameCase::UpperCamel => to_upper_camel_case(s),
        NameCase::Capitalized => if s.is_empty() {
            String::from_str(s)
        } else {
            capitalize_first_letter(s)
        },
    }
}

/// Whether `s` holds exactly the characters of `lit`.
pub fn is_str(s: &String, lit: &str) -> (r: bool)
    ensures
        r == (s@ == lit@),
{
    let t = String::from_str(lit);
    s.eq(&t)
}

/// `prefix` followed by `name`.
pub fn prefixed(prefix: &str, name: &String) -> (r: String)
    ensures
        r@ == prefix@ + name@,
{
    String::from_str(prefix).concat(name.as_str())
}

/// The name of the wire-level type parameter that stands beside the Rust
/// type parameter `generic`.
pub fn to_capnp_generic(generic: &String) -> (r: String)
    ensures
        r@ == "__CaPnP__"@ + generic@,
{
    prefixed("__CaPnP__", generic)
}

impl FieldInfo {
    /// The name in the schema: the override if there is one, else the Rust name.
    pub open spec fn capnp_base_name(&self) -> Seq<char> {
        match self.capnp_name_override {
            Some(n) => n@,
            None => self.rust_name@,
        }
    }

    /// The schema name of the field, written in the casing `case`.
    pub fn get_capnp_name(&self, case: NameCase) -> (r: String)
        ensures
            r@ == cased(case, self.capnp_base_name()),
    {
        match &self.capnp_name_override {
            Some(n) => to_case(case, n.as_str()),
            None => to_case(case, self.rust_name.as_str()),
        }
    }
}

} // verus!
