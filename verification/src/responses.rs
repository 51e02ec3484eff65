//! What each handler answers, as a status code and a body, computed from the
//! repository's result alone. The HTTP layer only has to send these out.

use vstd::prelude::*;

use crate::models::Book;

verus! {

/// A response body before serialization: one book, a list of books, a
/// plain-text message, or nothing.
#[derive(Debug)]
pub enum Body {
    Record(Book),
    Records(Vec<Book>),
    Message(String),
    Empty,
}

/// A computed response: the HTTP status code and the body to send.
#[derive(Debug)]
pub struct Response {
    pub status: u16,
    pub body: Body,
}

/// The decimal digits of `n`, most significant first.
pub open spec fn decimal_digits(n: nat) -> Seq<char>
    decreases n,
{
    if n < 10 {
        seq![digit_char(n)]
    } else {
        decimal_digits(n / 10).push(digit_char(n % 10))
    }
}

/// The digit character for a value below ten.
pub open spec fn digit_char(d: nat) -> char {
    if d == 0 {
        '0'
    } else if d == 1 {
        '1'
    } else if d == 2 {
        '2'
    } else if d == 3 {
        '3'
    } else if d == 4 {
        '4'
    } else if d == 5 {
        '5'
    } else if d == 6 {
        '6'
    } else if d == 7 {
        '7'
    } else if d == 8 {
        '8'
    } else {
        '9'
    }
}

/// The text of the not-found answer for a missing id.
pub open spec fn not_found_text(id: u32) -> Seq<char> {
    "Book with ID "@ + decimal_digits(id as nat) + " not found"@
}

/// Appends the decimal digits of `n` to `s`.
fn append_decimal(s: &mut String, n: u32)
    ensures
        final(s)@ == old(s)@ + decimal_digits(n as nat),
    decreases n,
{
    proof {
        reveal_strlit("0");
        reveal_strlit("1");
        reveal_strlit("2");
        reveal_strlit("3");
        reveal_strlit("4");
        reveal_strlit("5");
        reveal_strlit("6");
        reveal_strlit("7");
        reveal_strlit("8");
        reveal_strlit("9");
    }
    if n >= 10 {
        append_decimal(s, n / 10);
    }
    let digit: &str = match n % 10 {
        0 => "0",
        1 => "1",
        2 => "2",
        3 => "3",
        4 => "4",
        5 => "5",
        6 => "6",
        7 => "7",
        8 => "8",
        _ => "9",
    };
    s.append(digit);
}

/// The plain-text message sent with every 404: it names the missing id.
pub fn not_found_message(id: u32) -> (msg: String)
    ensures
        msg@ == not_found_text(id),
{
    let mut msg = "Book with ID ".to_owned();
    append_decimal(&mut msg, id);
    msg.append(" not found");
    msg
}

/// The answer to a list request: always 200 with every current book.
pub fn list_response(books: Vec<Book>) -> (r: Response)
    ensures
        r.status == 200,
        r.body == Body::Records(books),
{
    Response { status: 200, body: Body::Records(books) }
}

/// The answer to a lookup: 200 with the book when found, else 404 with the
/// message naming the id.
pub fn fetch_response(id: u32, found: Option<Book>) -> (r: Response)
    ensures
        match found {
            Some(b) => r.status == 200 && r.body == Body::Record(b),
            None => r.status == 404 && (r.body matches Body::Message(m) && m@ == not_found_text(
                id,
            )),
        },
{
    match found {
        Some(b) => Response { status: 200, body: Body::Record(b) },
        None => Response { status: 404, body: Body::Message(not_found_message(id)) },
    }
}

/// The answer to a create: always 201 with the stored book.
pub fn create_response(book: Book) -> (r: Response)
    ensures
        r.status == 201,
        r.body == Body::Record(book),
{
    Response { status: 201, body: Body::Record(book) }
}

/// The answer to an update: 200 with the merged book when the id was found,
/// else 404 with the message naming the id.
pub fn update_response(id: u32, updated: Option<Book>) -> (r: Response)
    ensures
        match updated {
            Some(b) => r.status == 200 && r.body == Body::Record(b),
            None => r.status == 404 && (r.body matches Body::Message(m) && m@ == not_found_text(
                id,
            )),
        },
{
    match updated {
        Some(b) => Response { status: 200, body: Body::Record(b) },
        None => Response { status: 404, body: Body::Message(not_found_message(id)) },
    }
}

/// The answer to a delete: 204 with an empty body on success, else 404 with
/// the message naming the id.
pub fn delete_response(id: u32, deleted: bool) -> (r: Response)
    ensures
        deleted ==> r.status == 204 && r.body is Empty,
        !deleted ==> r.status == 404 && (r.body matches Body::Message(m) && m@ == not_found_text(
            id,
        )),
{
    if deleted {
        Response { status: 204, body: Body::Empty }
    } else {
        Response { status: 404, body: Body::Message(not_found_message(id)) }
    }
}

} // verus!
