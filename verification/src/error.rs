//! The service's error type: its message, and the HTTP status and body text
//! it is answered with.

use vstd::prelude::*;

use crate::text::push_char;

verus! {

/// An error the service answers a request with. The database and internal
/// variants carry the text of the underlying error.
#[derive(Clone, Debug)]
pub enum AppError {
    DatabaseError(String),
    ValidationError(String),
    NotFound(String),
    Unauthorized(String),
    InternalError(String),
}

/// The message of an error, as its `Display` renders it.
pub open spec fn app_error_text(e: AppError) -> Seq<char> {
    match e {
        AppError::DatabaseError(m) => "Database error: "@ + m@,
        AppError::ValidationError(m) => m@,
        AppError::NotFound(m) => m@,
        AppError::Unauthorized(m) => m@,
        AppError::InternalError(m) => "Internal error: "@ + m@,
    }
}

/// The HTTP status an error is answered with.
pub open spec fn app_error_status(e: AppError) -> u16 {
    match e {
        AppError::DatabaseError(_) => 500,
        AppError::ValidationError(_) => 400,
        AppError::NotFound(_) => 404,
        AppError::Unauthorized(_) => 401,
        AppError::InternalError(_) => 500,
    }
}

/// The text with every line break replaced by `", "`.
pub open spec fn newlines_to_commas(s: Seq<char>) -> Seq<char>
    decreases s.len(),
{
    if s.len() == 0 {
        Seq::empty()
    } else {
        newlines_to_commas(s.drop_last()) + (if s.last() == '\n' { seq![',', ' '] } else { seq![s.last()] })
    }
}

/// No line break survives `newlines_to_commas`.
pub proof fn lemma_no_newlines_left(s: Seq<char>)
    ensures
        !newlines_to_commas(s).contains('\n'),
    decreases s.len(),
{
    if s.len() > 0 {
        lemma_no_newlines_left(s.drop_last());
        let head = newlines_to_commas(s.drop_last());
        let piece = if s.last() == '\n' { seq![',', ' '] } else { seq![s.last()] };
        assert(newlines_to_commas(s) == head + piece);
        if newlines_to_commas(s).contains('\n') {
            let k = choose|k: int| 0 <= k < newlines_to_commas(s).len() && newlines_to_commas(s)[k] == '\n';
            if k < head.len() {
                assert(head[k] == '\n');
            } else {
                assert(piece[k - head.len()] == '\n');
            }
        }
    }
}

/// Replaces every line break in `s` by `", "`, as `str::replace` does.
pub fn replace_newlines(s: &str) -> (r: String)
    ensures
        r@ == newlines_to_commas(s@),
{
    let n = s.unicode_len();
    let mut out = String::new();
    let mut i: usize = 0;
    assert(s@.subrange(0, 0) =~= Seq::<char>::empty());
    while i < n
        invariant
            n == s@.len(),
            i <= n,
            out@ == newlines_to_commas(s@.subrange(0, i as int)),
        decreases n - i,
    {
        let c = s.get_char(i);
        if c == '\n' {
            push_char(&mut out, ',');
            push_char(&mut out, ' ');
        } else {
            push_char(&mut out, c);
        }
        proof {
            let next = s@.subrange(0, i + 1);
            assert(next.drop_last() =~= s@.subrange(0, i as int));
            assert(next.last() == c);
            if c == '\n' {
                assert(out@ =~= newlines_to_commas(s@.subrange(0, i as int)) + seq![',', ' ']);
            } else {
                assert(out@ =~= newlines_to_commas(s@.subrange(0, i as int)) + seq![c]);
            }
        }
        i += 1;
    }
    assert(s@.subrange(0, n as int) =~= s@);
    out
}

impl AppError {
    /// The message of the error: the database and internal variants prefix
    /// the underlying text, the others are their text alone.
    pub fn message(&self) -> (r: String)
        ensures
            r@ == app_error_text(*self),
    {
        match self {
            AppError::DatabaseError(m) => {
                let mut s = String::from_str("Database error: ");
                s.append(m.as_str());
                s
            },
            AppError::ValidationError(m) => m.clone(),
            AppError::NotFound(m) => m.clone(),
            AppError::Unauthorized(m) => m.clone(),
            AppError::InternalError(m) => {
                let mut s = String::from_str("Internal error: ");
                s.append(m.as_str());
                s
            },
        }
    }

    /// The HTTP status the error is answered with: 500 for database and
    /// internal errors, 400 for validation, 404 for not found, 401 for
    /// unauthorized.
    pub fn status_code(&self) -> (r: u16)
        ensures
            r == app_error_status(*self),
    {
        match self {
            AppError::DatabaseError(_) => 500,
            AppError::ValidationError(_) => 400,
            AppError::NotFound(_) => 404,
            AppError::Unauthorized(_) => 401,
            AppError::InternalError(_) => 500,
        }
    }

    /// The text of the `error` field of the response body: the message on a
    /// single line, each line break replaced by `", "`.
    pub fn response_text(&self) -> (r: String)
        ensures
            r@ == newlines_to_commas(app_error_text(*self)),
            !r@.contains('\n'),
    {
        let m = self.message();
        let r = replace_newlines(m.as_str());
        proof {
            lemma_no_newlines_left(m@);
        }
        r
    }
}

} // verus!
