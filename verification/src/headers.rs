//! Header names and values: what may stand as one, and how a
//! `KEY=value` argument is read.

use vstd::prelude::*;
use vstd::slice::*;
use vstd::string::*;
use crate::text::{find, find_from, to_chars};

verus! {

/// A character that may stand in a header value: a tab, or anything from
/// the space on but the delete character.
pub open spec fn is_header_value_char(c: char) -> bool {
    c == '\t' || (' ' <= c && c != '\u{7f}')
}

/// A text that may stand as a header value.
pub open spec fn is_header_value(value: Seq<char>) -> bool {
    forall|i: int| 0 <= i < value.len() ==> is_header_value_char(#[trigger] value[i])
}

/// A character that may stand in a header name: an ASCII letter or digit,
/// or one of ``! " # $ % & ' * + - . ^ _ ` | ~``.
pub open spec fn is_header_name_char(c: char) -> bool {
    ||| 'a' <= c <= 'z'
    ||| 'A' <= c <= 'Z'
    ||| '0' <= c <= '9'
    ||| '!' <= c <= '\''
    ||| c == '*'
    ||| c == '+'
    ||| c == '-'
    ||| c == '.'
    ||| c == '^'
    ||| c == '_'
    ||| c == '`'
    ||| c == '|'
    ||| c == '~'
}

/// A text that may stand as a header name: from 1 to 65535 characters, each
/// of which may stand in a header name.
pub open spec fn is_header_name(name: Seq<char>) -> bool {
    1 <= name.len() <= 65535 && forall|i: int|
        0 <= i < name.len() ==> is_header_name_char(#[trigger] name[i])
}

/// `hyper::header::HeaderValue::from_str` accepts a text exactly where each
/// of its bytes is a tab, or is at least 32 and not 127. Every byte of a
/// character beyond ASCII is above 127.
#[verifier::external_body]
pub(crate) fn accepts_header_value(value: &str) -> (accepted: bool)
    ensures
        accepted == is_header_value(value@),
{
    hyper::header::HeaderValue::from_str(value).is_ok()
}

/// `hyper::header::HeaderName::from_bytes` accepts from 1 to 65535 bytes,
/// each a letter, a digit or one of the signs that its table admits. Every
/// byte of a character beyond ASCII is refused.
#[verifier::external_body]
pub(crate) fn accepts_header_name(name: &str) -> (accepted: bool)
    ensures
        accepted == is_header_name(name@),
{
    hyper::header::HeaderName::from_bytes(name.as_bytes()).is_ok()
}

/// Why a `KEY=value` argument is no header.
#[derive(Debug)]
pub enum HeaderError {
    /// The argument holds no `=`.
    NoSeparator(String),
    /// What stands before the `=` cannot be a header name.
    InvalidName,
    /// What stands after the `=` cannot be a header value.
    InvalidValue,
}

/// The mathematical value of a [`HeaderError`].
#[verifier::ext_equal]
pub ghost enum HeaderErrorView {
    NoSeparator(Seq<char>),
    InvalidName,
    InvalidValue,
}

impl View for HeaderError {
    type V = HeaderErrorView;

    open spec fn view(&self) -> HeaderErrorView {
        match self {
            HeaderError::NoSeparator(argument) => HeaderErrorView::NoSeparator(argument@),
            HeaderError::InvalidName => HeaderErrorView::InvalidName,
            HeaderError::InvalidValue => HeaderErrorView::InvalidValue,
        }
    }
}

impl HeaderErrorView {
    /// The error as one line of text.
    pub open spec fn message(self) -> Seq<char> {
        match self {
            HeaderErrorView::NoSeparator(argument) => "invalid KEY=value: no `=` found in `"@
                + argument + "`"@,
            HeaderErrorView::InvalidName => "invalid HTTP header name"@,
            HeaderErrorView::InvalidValue => "failed to parse header value"@,
        }
    }
}

impl HeaderError {
    /// The error as one line of text.
    pub fn message(&self) -> (line: String)
        ensures
            line@ == self@.message(),
    {
        match self {
            HeaderError::NoSeparator(argument) => {
                let mut line = String::from_str("invalid KEY=value: no `=` found in `");
                line.append(argument.as_str());
                line.append("`");
                line
            },
            HeaderError::InvalidName => String::from_str("invalid HTTP header name"),
            HeaderError::InvalidValue => String::from_str("failed to parse header value"),
        }
    }
}

/// The header that a `KEY=value` argument stands for: the name is what
/// stands before the first `=`, the value what stands after it.
pub open spec fn header_of(argument: Seq<char>) -> Result<(Seq<char>, Seq<char>), HeaderErrorView> {
    match find(argument, "="@) {
        None => Err(HeaderErrorView::NoSeparator(argument)),
        Some(at) => if !is_header_name(argument.take(at)) {
            Err(HeaderErrorView::InvalidName)
        } else if !is_header_value(argument.skip(at + 1)) {
            Err(HeaderErrorView::InvalidValue)
        } else {
            Ok((argument.take(at), argument.skip(at + 1)))
        },
    }
}

/// Parse a single key-value pair
pub fn parse_header(argument: &str) -> (parsed: Result<(String, String), HeaderError>)
    ensures
        match parsed {
            Ok((name, value)) => header_of(argument@) == Ok::<
                (Seq<char>, Seq<char>),
                HeaderErrorView,
            >((name@, value@)),
            Err(error) => header_of(argument@) == Err::<(Seq<char>, Seq<char>), HeaderErrorView>(
                error@,
            ),
        },
{
    proof {
        reveal_strlit("=");
    }
    let chars = to_chars(argument);
    let equals = to_chars("=");
    assert(chars@.skip(0) =~= chars@);
    let at = match find_from(chars.as_slice(), 0, equals.as_slice()) {
        Some(at) => at,
        None => {
            return Err(HeaderError::NoSeparator(argument.to_owned()));
        },
    };
    let len = chars.len();
    let name = argument.substring_char(0, at);
    let value = argument.substring_char(at + 1, len);
    assert(name@ =~= argument@.take(at as int));
    assert(value@ =~= argument@.skip(at + 1));
    if !accepts_header_name(name) {
        Err(HeaderError::InvalidName)
    } else if !accepts_header_value(value) {
        Err(HeaderError::InvalidValue)
    } else {
        Ok((name.to_owned(), value.to_owned()))
    }
}

} // verus!
