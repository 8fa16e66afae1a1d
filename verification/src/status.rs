//! HTTP status codes as the Pasqal API errors carry them, checked and named
//! by the `http` crate.

use vstd::prelude::*;

verus! {

/// `http::StatusCode::from_u16` accepts exactly the codes from 100 to 999.
pub open spec fn is_status_code(code: u16) -> bool {
    100 <= code <= 999
}

/// The reason phrase that the `http` crate registers for a status code
/// (`"Not Found"` for 404), or `None` for a code it has no phrase for.
pub uninterp spec fn canonical_reason_of(code: u16) -> Option<Seq<char>>;

/// The view of an optional static string.
pub open spec fn opt_str_view(s: Option<&'static str>) -> Option<Seq<char>> {
    match s {
        Some(t) => Some(t@),
        None => None,
    }
}

/// Calls `http::StatusCode::from_u16`, which (per its source and
/// documentation) succeeds exactly when the code lies in 100..=999.
#[verifier::external_body]
fn http_accepts(code: u16) -> (ok: bool)
    ensures
        ok == is_status_code(code),
{
    http::StatusCode::from_u16(code).is_ok()
}

/// Calls `http::StatusCode::canonical_reason` on the status code with the
/// given number. Its result is named, not stated: it is the crate's table of
/// registered reason phrases.
#[verifier::external_body]
fn http_canonical_reason(code: u16) -> (reason: Option<&'static str>)
    requires
        is_status_code(code),
    ensures
        opt_str_view(reason) == canonical_reason_of(code),
{
    match http::StatusCode::from_u16(code) {
        Ok(status) => status.canonical_reason(),
        Err(_) => None,
    }
}

/// A valid HTTP status code (100 to 999).
#[derive(Clone, Copy, Debug, PartialEq, Eq, Structural)]
pub struct HttpStatus {
    code: u16,
}

/// The decimal digit `d` as a character.
pub open spec fn digit_char(d: int) -> char {
    seq!['0', '1', '2', '3', '4', '5', '6', '7', '8', '9'][d]
}

/// The three decimal digits of a status code.
pub open spec fn code_digits(code: u16) -> Seq<char> {
    seq![
        digit_char(code as int / 100),
        digit_char((code as int / 10) % 10),
        digit_char(code as int % 10),
    ]
}

/// The text `http::StatusCode` displays: the number, a space and the reason
/// phrase, or `<unknown status code>` where the crate has none.
pub open spec fn status_text(code: u16) -> Seq<char> {
    code_digits(code) + seq![' '] + match canonical_reason_of(code) {
        Some(r) => r,
        None => "<unknown status code>"@,
    }
}

/// A status displays as its three digits, a space and the phrase that `http`
/// registers for it, whenever there is one; only a code without a registered
/// phrase displays `<unknown status code>`.
pub proof fn lemma_status_text_uses_reason(code: u16)
    ensures
        canonical_reason_of(code) matches Some(r) ==> status_text(code) == code_digits(code)
            + seq![' '] + r,
        canonical_reason_of(code) is None ==> status_text(code) == code_digits(code) + seq![' ']
            + "<unknown status code>"@,
        status_text(code).len() >= 4,
        status_text(code).subrange(0, 3) == code_digits(code),
        status_text(code)[3] == ' ',
{
    let t = status_text(code);
    assert(t.subrange(0, 3) =~= code_digits(code));
}

impl View for HttpStatus {
    type V = u16;

    closed spec fn view(&self) -> u16 {
        self.code
    }
}

impl HttpStatus {
    #[verifier::type_invariant]
    spec fn well_formed(self) -> bool {
        is_status_code(self.code)
    }

    /// The status with the given number, or `None` where `http` rejects it.
    pub fn from_u16(code: u16) -> (res: Option<HttpStatus>)
        ensures
            res is Some <==> is_status_code(code),
            res matches Some(s) ==> s@ == code,
    {
        if http_accepts(code) {
            Some(HttpStatus { code })
        } else {
            None
        }
    }

    /// The number of this status.
    pub fn as_u16(&self) -> (code: u16)
        ensures
            code == self@,
            is_status_code(code),
    {
        proof {
            use_type_invariant(self);
        }
        self.code
    }

    /// The registered reason phrase of this status, if `http` has one.
    pub fn canonical_reason(&self) -> (reason: Option<&'static str>)
        ensures
            opt_str_view(reason) == canonical_reason_of(self@),
    {
        proof {
            use_type_invariant(self);
        }
        http_canonical_reason(self.code)
    }

    /// The status as `http` displays it, e.g. `404 Not Found`.
    pub fn to_text(&self) -> (s: String)
        ensures
            s@ == status_text(self@),
            canonical_reason_of(self@) matches Some(r) ==> s@ == code_digits(self@) + seq![' '] + r,
            canonical_reason_of(self@) is None ==> s@ == code_digits(self@) + seq![' ']
                + "<unknown status code>"@,
    {
        proof {
            use_type_invariant(self);
        }
        let code = self.code;
        let mut s = digit_string(code / 100);
        s.append(digit_string((code / 10) % 10).as_str());
        s.append(digit_string(code % 10).as_str());
        s.append(" ");
        proof {
            reveal_strlit(" ");
        }
        match self.canonical_reason() {
            Some(r) => s.append(r),
            None => s.append("<unknown status code>"),
        }
        s
    }
}

/// The one-character string of a decimal digit.
fn digit_string(d: u16) -> (s: String)
    requires
        d < 10,
    ensures
        s@ == seq![digit_char(d as int)],
{
    let digits = "0123456789";
    proof {
        reveal_strlit("0123456789");
    }
    let one = digits.substring_char(d as usize, d as usize + 1);
    assert(one@ =~= seq![digit_char(d as int)]);
    String::from_str(one)
}

} // verus!
