//! A validated e-mail address.

use crate::result::{ValobsError, ValobsResult};
use crate::traits::{ValobsValidate, ValueObject};
use vstd::prelude::*;
use vstd::string::StrSliceExecFns;

verus! {

/// Why a piece of raw e-mail input was rejected.
#[derive(Debug, Clone, Copy, PartialEq, Eq, Structural)]
pub enum EmailError {
    /// Fewer than five characters remained after sanitization.
    TooShort,
    /// More than thirty characters remained after sanitization.
    TooLong,
    /// The sanitized text holds no e-mail-shaped substring.
    BadFormat,
}

/// What `str::trim` returns on the given characters: the input without
/// its leading and trailing whitespace. The exact Unicode whitespace
/// set is the standard library's; the result is a function of the
/// characters alone.
pub uninterp spec fn trimmed(s: Seq<char>) -> Seq<char>;

/// What `str::to_lowercase` returns on the given characters. Unicode
/// lowercasing takes pages to state; the result is a function of the
/// characters alone.
pub uninterp spec fn lowercased(s: Seq<char>) -> Seq<char>;

/// The sanitized form of raw e-mail input: trimmed, then lowercased.
pub open spec fn sanitized(s: Seq<char>) -> Seq<char> {
    lowercased(trimmed(s))
}

/// A character the address pattern accepts in the local part, before
/// the `@`.
pub open spec fn is_local_char(c: char) -> bool {
    ('A' <= c && c <= 'Z') || ('a' <= c && c <= 'z') || ('0' <= c && c <= '9') || c == '.' || c
        == '_' || c == '%' || c == '+' || c == '-'
}

/// A character the address pattern accepts in the domain, between the
/// `@` and the final dot.
pub open spec fn is_domain_char(c: char) -> bool {
    ('A' <= c && c <= 'Z') || ('a' <= c && c <= 'z') || ('0' <= c && c <= '9') || c == '.' || c
        == '-'
}

/// A letter, as the final label of the address pattern allows.
pub open spec fn is_letter(c: char) -> bool {
    ('A' <= c && c <= 'Z') || ('a' <= c && c <= 'z')
}

/// The text holds an e-mail-shaped substring with the `@` at `b` and
/// the final dot at `d`: a local character right before the `@`, one
/// or more domain characters between `@` and dot, and `k` letters
/// right after the dot, for some `k` between two and sixty-four.
pub open spec fn email_shaped_at(s: Seq<char>, b: int, d: int, k: int) -> bool {
    &&& 1 <= b
    &&& b + 1 < d
    &&& 2 <= k <= 64
    &&& d + k < s.len()
    &&& is_local_char(s[b - 1])
    &&& s[b] == '@'
    &&& forall|i: int| b < i < d ==> is_domain_char(#[trigger] s[i])
    &&& s[d] == '.'
    &&& forall|i: int| d < i <= d + k ==> is_letter(#[trigger] s[i])
}

/// The text holds an e-mail-shaped substring somewhere.
pub open spec fn email_shaped(s: Seq<char>) -> bool {
    exists|b: int, d: int, k: int| email_shaped_at(s, b, d, k)
}

/// Relies on `str::trim`: returns the input without leading and
/// trailing whitespace, hence never longer than the input.
#[verifier::external_body]
fn trim_str(s: &str) -> (r: &str)
    ensures
        r@ == trimmed(s@),
        r@.len() <= s@.len(),
{
    s.trim()
}

/// Relies on `str::to_lowercase`: returns the lowercased text, a
/// function of the input characters alone.
#[verifier::external_body]
fn lowercase_str(s: &str) -> (r: String)
    ensures
        r@ == lowercased(s@),
{
    s.to_lowercase()
}

/// Relies on `regex::Regex::new` and `regex::Regex::is_match`: with
/// the fixed pattern `[A-Z0-9a-z._%+-]+@[A-Za-z0-9.-]+\.[A-Za-z]{2,64}`,
/// `is_match` reports whether the haystack holds a substring matching
/// the pattern anywhere, which is exactly an e-mail-shaped substring;
/// `new` always succeeds on this fixed, well-formed pattern.
#[verifier::external_body]
fn email_pattern_match(s: &str) -> (r: bool)
    ensures
        r == email_shaped(s@),
{
    let pattern = regex::Regex::new("[A-Z0-9a-z._%+-]+@[A-Za-z0-9.-]+\\.[A-Za-z]{2,64}").unwrap();
    pattern.is_match(s)
}

/// A validated e-mail address.
///
/// Construction sanitizes the raw input (trim, then lowercase) and
/// accepts the result only when it is five to thirty characters long
/// and holds an e-mail-shaped substring; the stored text is always the
/// sanitized form.
#[derive(Debug, Clone, PartialEq, Eq)]
pub struct Email {
    value: String,
}

impl View for Email {
    type V = Seq<char>;

    closed spec fn view(&self) -> Seq<char> {
        self.value@
    }
}

impl Email {
    /// Whether sanitized e-mail text is accepted: five to thirty
    /// characters holding an e-mail-shaped substring.
    pub open spec fn spec_accepts_text(s: Seq<char>) -> bool {
        5 <= sanitized(s).len() <= 30 && email_shaped(sanitized(s))
    }

    /// Validate raw input into an e-mail address.
    ///
    /// The input is first sanitized (trimmed, then lowercased); the
    /// sanitized text must be five to thirty characters long and hold
    /// an e-mail-shaped substring. The checks run in that order, so a
    /// short input is `TooShort` even if it is also shapeless.
    pub fn new(s: &str) -> (r: Result<Email, EmailError>)
        ensures
            match r {
                Ok(e) => Email::spec_accepts_text(s@) && e@ == sanitized(s@),
                Err(EmailError::TooShort) => sanitized(s@).len() < 5,
                Err(EmailError::TooLong) => sanitized(s@).len() > 30,
                Err(EmailError::BadFormat) => 5 <= sanitized(s@).len() <= 30 && !email_shaped(
                    sanitized(s@),
                ),
            },
            r is Ok <==> Email::spec_accepts_text(s@),
    {
        let t = trim_str(s);
        let low = lowercase_str(t);
        let n = low.as_str().unicode_len();
        if n < 5 {
            return Err(EmailError::TooShort);
        }
        if n > 30 {
            return Err(EmailError::TooLong);
        }
        if !email_pattern_match(low.as_str()) {
            return Err(EmailError::BadFormat);
        }
        Ok(Email { value: low })
    }

    /// The sanitized address text.
    pub fn as_str(&self) -> (r: &str)
        ensures
            r@ == self@,
    {
        self.value.as_str()
    }
}

impl ValobsValidate for Email {
    type Target = String;

    /// Raw input is accepted when its sanitized form is.
    open spec fn spec_accepts(target: &String) -> bool {
        Email::spec_accepts_text(target@)
    }

    /// The factory builds the address holding the sanitized input.
    open spec fn spec_builds(target: &String, v: &Email) -> bool {
        v@ == sanitized(target@)
    }

    fn validate(target: String) -> (r: ValobsResult<Email>) {
        match Email::new(target.as_str()) {
            Ok(e) => Ok(e),
            Err(_) => Err(ValobsError::InvalidEmail),
        }
    }
}

impl ValueObject for Email {

}

} // verus!
