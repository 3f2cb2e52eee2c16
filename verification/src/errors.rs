//! API errors, their HTTP status codes, and how database failures map onto them.
use vstd::prelude::*;

use crate::text::{
    chars_of, find_char, lemma_find_char, owned, push_chars, push_str, string_of,
};

verus! {

/// A field-level validation failure: the field's name and the failed rule.
#[derive(Debug)]
pub struct FieldError {
    pub field: String,
    pub code: String,
}

/// Errors returned by the API handlers.
#[derive(Debug)]
pub enum Error {
    /// An internal database error occurred (its message is kept for logging).
    Sqlx(String),
    /// Validation error in the request body.
    InvalidEntity(Vec<FieldError>),
    UnprocessableEntity(String),
    Conflict(String),
    InternalServerError,
    NotFound,
}

impl Error {
    pub open spec fn spec_status_code(&self) -> u16 {
        match self {
            Error::Sqlx(_) | Error::InternalServerError => 500,
            Error::InvalidEntity(_) | Error::UnprocessableEntity(_) => 422,
            Error::Conflict(_) => 409,
            Error::NotFound => 404,
        }
    }

    /// The HTTP status code the error is answered with.
    pub fn status_code(&self) -> (r: u16)
        ensures
            r == self.spec_status_code(),
    {
        match self {
            Error::Sqlx(_) | Error::InternalServerError => 500,
            Error::InvalidEntity(_) | Error::UnprocessableEntity(_) => 422,
            Error::Conflict(_) => 409,
            Error::NotFound => 404,
        }
    }
}

impl Error {
    /// The error's message, as `Display` prints it.
    pub open spec fn text(self) -> Seq<char> {
        match self {
            Error::Sqlx(_) => "an internal database error occurred"@,
            Error::InvalidEntity(_) => "validation error in request body"@,
            Error::UnprocessableEntity(m) => m@,
            Error::Conflict(m) => m@,
            Error::InternalServerError => "internal server error"@,
            Error::NotFound => "not found"@,
        }
    }

    /// What `Display` prints for the error.
    pub fn to_string(&self) -> (r: String)
        ensures
            r@ == self.text(),
    {
        match self {
            Error::Sqlx(_) => owned("an internal database error occurred"),
            Error::InvalidEntity(_) => owned("validation error in request body"),
            Error::UnprocessableEntity(m) => m.clone(),
            Error::Conflict(m) => m.clone(),
            Error::InternalServerError => owned("internal server error"),
            Error::NotFound => owned("not found"),
        }
    }
}

/// Whether `e` is an `UnprocessableEntity` error with message `m`.
pub open spec fn is_unprocessable(e: Error, m: Seq<char>) -> bool {
    e matches Error::UnprocessableEntity(s) && s@ == m
}

/// Whether `e` is a `Conflict` error with message `m`.
pub open spec fn is_conflict(e: Error, m: Seq<char>) -> bool {
    e matches Error::Conflict(s) && s@ == m
}

/// An `UnprocessableEntity` error with the given message.
pub fn unprocessable(m: &str) -> (e: Error)
    ensures
        is_unprocessable(e, m@),
{
    Error::UnprocessableEntity(owned(m))
}

// ---------------------------------------------------------------------------
// Unique-constraint messages
// ---------------------------------------------------------------------------

/// The upper-case mapping of a character (`char::to_uppercase`).
pub uninterp spec fn char_uppercase(c: char) -> Seq<char>;

/// Calls `char::to_uppercase` and collects the characters it yields.
/// Its result is named `char_uppercase`, a function of the character alone.
#[verifier::external_body]
fn uppercase_of(c: char) -> (r: String)
    ensures
        r@ == char_uppercase(c),
{
    c.to_uppercase().collect::<String>()
}

/// A plural table name made singular (one trailing `s` removed) with its
/// first character upper-cased.
pub open spec fn singular_title(s: Seq<char>) -> Seq<char> {
    let singular = if s.len() > 0 && s.last() == 's' { s.drop_last() } else { s };
    if singular.len() == 0 {
        Seq::empty()
    } else {
        char_uppercase(singular[0]) + singular.drop_first()
    }
}

/// Singular, title-cased form of a table name ("hosts" -> "Host").
pub fn to_singular_title(s: &str) -> (r: String)
    ensures
        r@ == singular_title(s@),
{
    let v = chars_of(s);
    let mut n = v.len();
    if n > 0 && v[n - 1] == 's' {
        n = n - 1;
    }
    let ghost singular = if s@.len() > 0 && s@.last() == 's' { s@.drop_last() } else { s@ };
    assert(v@.subrange(0, n as int) =~= singular);
    if n == 0 {
        return String::new();
    }
    let mut r = uppercase_of(v[0]);
    push_chars(&mut r, &v, 1, n);
    assert(v@.subrange(1, n as int) =~= singular.drop_first());
    r
}

pub open spec fn ends_with(s: Seq<char>, suffix: Seq<char>) -> bool {
    s.len() >= suffix.len() && s.skip(s.len() - suffix.len()) == suffix
}

/// The message for a violated unique constraint. Constraint names follow the
/// pattern `{table}_{column}_key`.
pub open spec fn unique_violation_text(constraint: Option<Seq<char>>) -> Seq<char> {
    match constraint {
        Some(c) => match find_char(c, '_') {
            Some(k) => {
                let resource = c.take(k as int);
                let rest = c.skip(k + 1 as int);
                let field = if ends_with(rest, "_key"@) {
                    rest.take(rest.len() - 4)
                } else {
                    match find_char(rest, '_') {
                        Some(j) => rest.take(j as int),
                        None => rest,
                    }
                };
                singular_title(resource) + " with this "@ + field + " already exists"@
            },
            None => "resource with this value already exists"@,
        },
        None => "resource with this value already exists"@,
    }
}

fn find_from(v: &Vec<char>, from: usize, c: char) -> (k: usize)
    requires
        from <= v.len(),
    ensures
        from <= k <= v.len(),
        k < v.len() ==> v@[k as int] == c,
        forall|j: int| from <= j < k ==> v@[j] != c,
{
    let mut k = from;
    while k < v.len() && v[k] != c
        invariant
            from <= k <= v.len(),
            forall|j: int| from <= j < k ==> v@[j] != c,
        decreases v.len() - k,
    {
        k = k + 1;
    }
    k
}

/// Human-friendly message for a unique-constraint violation.
pub fn unique_violation_message(constraint: Option<&str>) -> (r: String)
    ensures
        r@ == unique_violation_text(match constraint {
            Some(c) => Some(c@),
            None => None,
        }),
{
    match constraint {
        None => owned("resource with this value already exists"),
        Some(c) => {
            let v = chars_of(c);
            let k = find_from(&v, 0, '_');
            proof {
                lemma_find_char(v@, '_', k as int);
            }
            if k == v.len() {
                return owned("resource with this value already exists");
            }
            let resource_chars = slice_chars(&v, 0, k);
            let resource = string_of(&resource_chars);
            let ghost rest = v@.skip(k + 1);
            let n = v.len();
            let ends = n - (k + 1) >= 4 && v[n - 4] == '_' && v[n - 3] == 'k' && v[n - 2] == 'e'
                && v[n - 1] == 'y';
            proof {
                reveal_strlit("_key");
                let key = "_key"@;
                assert(key =~= seq!['_', 'k', 'e', 'y']);
                if n - (k + 1) >= 4 {
                    assert(rest.skip(rest.len() - 4) =~= v@.subrange(n - 4, n as int));
                    if ends {
                        assert(v@.subrange(n - 4, n as int) =~= key);
                    } else {
                        if v@.subrange(n - 4, n as int) == key {
                            assert(v@.subrange(n - 4, n as int)[0] == v@[n - 4]);
                            assert(v@.subrange(n - 4, n as int)[1] == v@[n - 3]);
                            assert(v@.subrange(n - 4, n as int)[2] == v@[n - 2]);
                            assert(v@.subrange(n - 4, n as int)[3] == v@[n - 1]);
                        }
                    }
                }
                assert(ends == ends_with(rest, "_key"@));
            }
            let field_end = if ends {
                assert(rest.take(rest.len() - 4) =~= v@.subrange(k + 1, n - 4));
                n - 4
            } else {
                let j = find_from(&v, k + 1, '_');
                proof {
                    lemma_find_char(rest, '_', j - (k + 1));
                    if j < n {
                        assert(rest.take(j - (k + 1)) =~= v@.subrange(k + 1, j as int));
                    } else {
                        assert(rest =~= v@.subrange(k + 1, j as int));
                    }
                }
                j
            };
            let mut r = to_singular_title(resource.as_str());
            push_str(&mut r, " with this ");
            push_chars(&mut r, &v, k + 1, field_end);
            push_str(&mut r, " already exists");
            assert(resource@ == v@.take(k as int));
            r
        },
    }
}

/// The characters `v[from..to]`.
pub fn slice_chars(v: &Vec<char>, from: usize, to: usize) -> (r: Vec<char>)
    requires
        from <= to <= v.len(),
    ensures
        r@ == v@.subrange(from as int, to as int),
{
    let mut r: Vec<char> = Vec::new();
    let mut i = from;
    while i < to
        invariant
            from <= i <= to <= v.len(),
            r@ == v@.subrange(from as int, i as int),
        decreases to - i,
    {
        r.push(v[i]);
        assert(v@.subrange(from as int, i + 1) =~= v@.subrange(from as int, i as int).push(v@[i as int]));
        i = i + 1;
    }
    r
}

// ---------------------------------------------------------------------------
// Database failures
// ---------------------------------------------------------------------------

/// What the handlers need to know of a failed database call.
#[derive(Debug)]
pub enum DbFailure {
    /// The query expected a row and found none.
    RowNotFound,
    /// The database rejected the statement, with its SQLSTATE code and the
    /// name of the violated constraint, where there is one.
    Database { code: Option<String>, constraint: Option<String>, message: String },
    /// Any other failure (connection, decoding, ...).
    Other { message: String },
}

/// Whether the failure is a unique-constraint violation (SQLSTATE 23505).
pub open spec fn is_unique_violation(f: DbFailure) -> bool {
    f matches DbFailure::Database { code: Some(c), .. } && c@ == "23505"@
}

/// How a failed database call is answered: a missing row is `NotFound`, a
/// unique violation a `Conflict` naming the duplicated field, anything else
/// an internal error.
pub fn error_from_db(f: DbFailure) -> (e: Error)
    ensures
        f is RowNotFound ==> e is NotFound,
        is_unique_violation(f) ==> is_conflict(e, unique_violation_text(match f {
            DbFailure::Database { constraint: Some(c), .. } => Some(c@),
            _ => None,
        })),
        !(f is RowNotFound) && !is_unique_violation(f) ==> e is Sqlx,
{
    match f {
        DbFailure::RowNotFound => Error::NotFound,
        DbFailure::Database { code, constraint, message } => {
            let unique = match &code {
                Some(c) => crate::text::str_eq(c.as_str(), "23505"),
                None => false,
            };
            if unique {
                let msg = match &constraint {
                    Some(c) => unique_violation_message(Some(c.as_str())),
                    None => unique_violation_message(None),
                };
                Error::Conflict(msg)
            } else {
                Error::Sqlx(message)
            }
        },
        DbFailure::Other { message } => Error::Sqlx(message),
    }
}

} // verus!
