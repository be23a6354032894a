//! Headers given as text, one `Name: Value` per argument, form bodies, and
//! the choice of the body of a request.

use crate::errors::ErrorView;
use crate::errors::ImpitError;
use crate::http_headers::first_position;
use crate::http_headers::lemma_first_position;
use crate::http_headers::HeaderSeq;
use crate::text::text_is;
use vstd::prelude::*;

verus! {

/// Whether a character is white space: whether it has the Unicode property
/// White_Space.
pub open spec fn is_white_space(c: char) -> bool {
    let n = c as u32;
    (0x09 <= n <= 0x0d) || n == 0x20 || n == 0x85 || n == 0xa0 || n == 0x1680 || (0x2000 <= n
        <= 0x200a) || n == 0x2028 || n == 0x2029 || n == 0x202f || n == 0x205f || n == 0x3000
}

/// How many white space characters a text begins with.
pub open spec fn leading_white_space(text: Seq<char>) -> nat
    decreases text.len(),
{
    if text.len() == 0 || !is_white_space(text[0]) {
        0
    } else {
        1 + leading_white_space(text.drop_first())
    }
}

/// How many white space characters a text ends with.
pub open spec fn trailing_white_space(text: Seq<char>) -> nat
    decreases text.len(),
{
    if text.len() == 0 || !is_white_space(text.last()) {
        0
    } else {
        1 + trailing_white_space(text.drop_last())
    }
}

/// A text without the white space at its two ends: what is left when the
/// white space it begins with is taken away, and then the white space that
/// the rest ends with.
pub open spec fn trimmed(text: Seq<char>) -> Seq<char> {
    let rest = text.skip(leading_white_space(text) as int);
    rest.take(rest.len() - trailing_white_space(rest))
}

/// `str::trim`: the result is the argument without its leading and trailing
/// white space, where white space is what Unicode gives the property
/// White_Space.
#[verifier::external_body]
fn trim(text: &str) -> (r: String)
    ensures
        r@ == trimmed(text@),
{
    text.trim().to_owned()
}

/// How many colons a text holds.
pub open spec fn count_colons(text: Seq<char>) -> nat
    decreases text.len(),
{
    if text.len() == 0 {
        0
    } else {
        count_colons(text.drop_last()) + if text.last() == ':' {
            1nat
        } else {
            0nat
        }
    }
}

/// The two sides of the colon of a text that holds exactly one colon, and
/// `None` for every other text.
pub open spec fn split_at_colon(text: Seq<char>) -> Option<(Seq<char>, Seq<char>)> {
    if count_colons(text) == 1 {
        let p = choose|p: int| 0 <= p < text.len() && text[p] == ':';
        Some((text.subrange(0, p), text.subrange(p + 1, text.len() as int)))
    } else {
        None
    }
}

/// A text without colons has a count of zero, and the other way round.
pub proof fn lemma_no_colon(text: Seq<char>)
    ensures
        count_colons(text) == 0 <==> forall|i: int| 0 <= i < text.len() ==> text[i] != ':',
    decreases text.len(),
{
    if text.len() > 0 {
        let front = text.drop_last();
        lemma_no_colon(front);
        if count_colons(text) == 0 {
            assert forall|i: int| 0 <= i < text.len() implies text[i] != ':' by {
                if i < front.len() {
                    assert(front[i] == text[i]);
                }
            }
        }
        if forall|i: int| 0 <= i < text.len() ==> text[i] != ':' {
            assert forall|i: int| 0 <= i < front.len() implies front[i] != ':' by {
                assert(front[i] == text[i]);
            }
        }
    }
}

/// In a text with exactly one colon, any two positions that hold a colon
/// are the same position.
pub proof fn lemma_single_colon(text: Seq<char>, p: int, q: int)
    requires
        count_colons(text) == 1,
        0 <= p < text.len(),
        0 <= q < text.len(),
        text[p] == ':',
        text[q] == ':',
    ensures
        p == q,
    decreases text.len(),
{
    let front = text.drop_last();
    let last = text.len() - 1;
    if text.last() == ':' {
        lemma_no_colon(front);
        if p < last {
            assert(front[p] == text[p]);
        }
        if q < last {
            assert(front[q] == text[q]);
        }
    } else {
        assert(front[p] == text[p]);
        assert(front[q] == text[q]);
        lemma_single_colon(front, p, q);
    }
}

/// Splits a text at its colon, where it holds exactly one.
pub fn split_header(text: &str) -> (r: Option<(String, String)>)
    ensures
        r.deep_view() == split_at_colon(text@),
{
    let n = text.unicode_len();
    let mut count: usize = 0;
    let mut at: usize = 0;
    let mut i: usize = 0;
    while i < n
        invariant
            i <= n,
            n == text@.len(),
            count <= i,
            count == count_colons(text@.take(i as int)),
            count > 0 ==> at < i && text@[at as int] == ':',
        decreases n - i,
    {
        proof {
            assert(text@.take(i + 1).drop_last() =~= text@.take(i as int));
        }
        if text.get_char(i) == ':' {
            count += 1;
            at = i;
        }
        i += 1;
    }
    proof {
        assert(text@.take(n as int) =~= text@);
    }
    if count == 1 {
        let name = text.substring_char(0, at).to_owned();
        let value = text.substring_char(at + 1, n).to_owned();
        proof {
            let p = choose|p: int| 0 <= p < text@.len() && text@[p] == ':';
            lemma_single_colon(text@, p, at as int);
        }
        Some((name, value))
    } else {
        None
    }
}

/// What one argument stands for: its two sides without the white space
/// around them where it holds exactly one colon, and a pair of empty texts
/// otherwise. A value that itself holds a colon therefore makes the whole
/// argument an empty pair.
pub open spec fn header_of(text: Seq<char>) -> (Seq<char>, Seq<char>) {
    match split_at_colon(text) {
        Some((name, value)) => (trimmed(name), trimmed(value)),
        None => (Seq::empty(), Seq::empty()),
    }
}

/// Turns arguments of the form `Name: Value` into headers, one for each
/// argument and in their order.
pub fn process_headers(headers: Vec<String>) -> (r: Vec<(String, String)>)
    ensures
        r.deep_view() == Seq::new(headers.len() as nat, |i: int| header_of(headers[i]@)),
{
    let mut out: Vec<(String, String)> = Vec::new();
    let mut i: usize = 0;
    while i < headers.len()
        invariant
            i <= headers.len(),
            out.len() == i,
            forall|j: int| 0 <= j < i ==> out.deep_view()[j] == header_of(headers[j]@),
        decreases headers.len() - i,
    {
        let pair = match split_header(headers[i].as_str()) {
            Some((name, value)) => (trim(name.as_str()), trim(value.as_str())),
            None => (String::new(), String::new()),
        };
        let ghost before = out.deep_view();
        out.push(pair);
        assert(out.deep_view() =~= before.push(header_of(headers[i as int]@)));
        i += 1;
    }
    assert(out.deep_view() =~= Seq::new(headers.len() as nat, |i: int| header_of(headers[i]@)));
    out
}

/// The body of a form: for every field its name, `=`, its value and `&`,
/// as UTF-8 and in the order of the fields. Nothing is escaped, and the
/// last field is followed by `&` as every other.
pub open spec fn form_bytes(fields: Seq<(Seq<char>, Seq<char>)>) -> Seq<u8>
    decreases fields.len(),
{
    if fields.len() == 0 {
        Seq::empty()
    } else {
        form_bytes(fields.drop_last()) + vstd::utf8::encode_utf8(fields.last().0) + seq![0x3du8]
            + vstd::utf8::encode_utf8(fields.last().1) + seq![0x26u8]
    }
}

/// Writes the fields of a form as a request body.
pub fn form_to_bytes(data: Vec<(String, String)>) -> (body: Vec<u8>)
    ensures
        body@ == form_bytes(data.deep_view()),
{
    let ghost all = data.deep_view();
    let mut body: Vec<u8> = Vec::new();
    let mut i: usize = 0;
    while i < data.len()
        invariant
            i <= data.len(),
            all == data.deep_view(),
            body@ == form_bytes(all.take(i as int)),
        decreases data.len() - i,
    {
        proof {
            assert(all.take(i + 1).drop_last() =~= all.take(i as int));
            assert(all.take(i + 1).last() == (data[i as int].0@, data[i as int].1@));
        }
        let ghost before = body@;
        append_bytes(&mut body, data[i].0.as_str().as_bytes());
        body.push(0x3du8);
        append_bytes(&mut body, data[i].1.as_str().as_bytes());
        body.push(0x26u8);
        assert(body@ =~= before + vstd::utf8::encode_utf8(data[i as int].0@) + seq![0x3du8]
            + vstd::utf8::encode_utf8(data[i as int].1@) + seq![0x26u8]);
        i += 1;
    }
    assert(all.take(i as int) =~= all);
    body
}

/// Appends bytes to a buffer.
fn append_bytes(buffer: &mut Vec<u8>, bytes: &[u8])
    ensures
        final(buffer)@ == old(buffer)@ + bytes@,
{
    let mut i: usize = 0;
    while i < bytes.len()
        invariant
            i <= bytes.len(),
            buffer@ == old(buffer)@ + bytes@.take(i as int),
        decreases bytes.len() - i,
    {
        buffer.push(bytes[i]);
        assert(buffer@ =~= old(buffer)@ + bytes@.take(i + 1));
        i += 1;
    }
    assert(bytes@.take(i as int) =~= bytes@);
}

/// What a caller passes as the data of a request.
#[derive(Clone, Debug, PartialEq, Eq)]
pub enum RequestBody {
    /// The body itself.
    Bytes(Vec<u8>),
    /// The fields of a form.
    Form(Vec<(String, String)>),
    /// Anything else, by its description.
    CatchAll(String),
}

/// Model of a [`RequestBody`].
pub enum RequestBodyView {
    Bytes(Seq<u8>),
    Form(Seq<(Seq<char>, Seq<char>)>),
    CatchAll(Seq<char>),
}

impl View for RequestBody {
    type V = RequestBodyView;

    open spec fn view(&self) -> RequestBodyView {
        match self {
            RequestBody::Bytes(bytes) => RequestBodyView::Bytes(bytes@),
            RequestBody::Form(fields) => RequestBodyView::Form(fields.deep_view()),
            RequestBody::CatchAll(description) => RequestBodyView::CatchAll(description@),
        }
    }
}

/// The names of a header list, position by position.
pub open spec fn header_names(headers: HeaderSeq) -> Seq<Seq<char>> {
    Seq::new(headers.len(), |i: int| headers[i].0)
}

/// A header list with a header set: the first header of exactly that name
/// gets the value, and where there is none, the header is added at the end.
pub open spec fn with_header(headers: HeaderSeq, name: Seq<char>, value: Seq<char>) -> HeaderSeq {
    let at = first_position(header_names(headers), name);
    if at < headers.len() {
        headers.update(at, (name, value))
    } else {
        headers.push((name, value))
    }
}

/// Sets a header in a list.
pub fn set_header(headers: Vec<(String, String)>, name: &str, value: &str) -> (r: Vec<
    (String, String),
>)
    ensures
        r.deep_view() == with_header(headers.deep_view(), name@, value@),
{
    let ghost all = headers.deep_view();
    let ghost names = header_names(all);
    let mut out = headers;
    let mut i: usize = 0;
    while i < out.len()
        invariant
            i <= out.len(),
            out.deep_view() == all,
            all == headers.deep_view(),
            names == header_names(all),
            forall|j: int| 0 <= j < i ==> names[j] != name@,
        decreases out.len() - i,
    {
        assert(names[i as int] == out[i as int].0@) by {
            assert(all[i as int] == (out[i as int].0@, out[i as int].1@));
        }
        if text_is(&out[i].0, name) {
            assert(first_position(names, name@) == i) by {
                lemma_first_position(names, name@);
                let at = first_position(names, name@);
                if at < i {
                    assert(names[at] == name@);
                }
                if at > i {
                    assert(names[i as int] != name@);
                }
            }
            assert(i < all.len());
            assert(with_header(all, name@, value@) == all.update(i as int, (name@, value@)));
            out.set(i, (name.to_owned(), value.to_owned()));
            assert(out.deep_view() =~= all.update(i as int, (name@, value@)));
            return out;
        }
        i += 1;
    }
    proof {
        lemma_first_position(names, name@);
        assert(!names.contains(name@));
    }
    out.push((name.to_owned(), value.to_owned()));
    assert(out.deep_view() =~= all.push((name@, value@)));
    out
}

/// Model of an optional data argument.
pub open spec fn data_view(data: Option<RequestBody>) -> Option<RequestBodyView> {
    match data {
        Some(d) => Some(d@),
        None => None,
    }
}

/// Model of optional bytes.
pub open spec fn bytes_view(bytes: Option<Vec<u8>>) -> Option<Seq<u8>> {
    match bytes {
        Some(b) => Some(b@),
        None => None,
    }
}

/// Model of optional headers: none stands for the empty list.
pub open spec fn headers_view(headers: Option<Vec<(String, String)>>) -> HeaderSeq {
    match headers {
        Some(h) => h.deep_view(),
        None => Seq::empty(),
    }
}

/// The body and the headers of a request, from what the caller passed as
/// content, as data and as headers. Content outranks data. Bytes are the
/// body as they are. A form is written field by field, and the request is
/// marked as a form by its `Content-Type`. Without content and data the
/// body is empty. Data of any other kind is rejected with its description.
pub open spec fn body_and_headers(
    content: Option<Seq<u8>>,
    data: Option<RequestBodyView>,
    headers: HeaderSeq,
) -> Result<(Seq<u8>, HeaderSeq), ErrorView> {
    match content {
        Some(bytes) => Ok((bytes, headers)),
        None => match data {
            Some(RequestBodyView::Bytes(bytes)) => Ok((bytes, headers)),
            Some(RequestBodyView::Form(fields)) => Ok(
                (
                    form_bytes(fields),
                    with_header(headers, "Content-Type"@, "application/x-www-form-urlencoded"@),
                ),
            ),
            Some(RequestBodyView::CatchAll(description)) => Err(
                ErrorView::UnsupportedBody(description),
            ),
            None => Ok((Seq::empty(), headers)),
        },
    }
}

/// Model of the result of [`request_body`].
pub open spec fn body_result_view(r: Result<(Vec<u8>, Vec<(String, String)>), ImpitError>) -> Result<
    (Seq<u8>, HeaderSeq),
    ErrorView,
> {
    match r {
        Ok((body, headers)) => Ok((body@, headers.deep_view())),
        Err(e) => Err(e@),
    }
}

/// Chooses the body of a request and completes its headers.
pub fn request_body(
    content: Option<Vec<u8>>,
    data: Option<RequestBody>,
    headers: Option<Vec<(String, String)>>,
) -> (r: Result<(Vec<u8>, Vec<(String, String)>), ImpitError>)
    ensures
        body_result_view(r) == body_and_headers(
            bytes_view(content),
            data_view(data),
            headers_view(headers),
        ),
{
    let list = match headers {
        Some(h) => h,
        None => {
            let none: Vec<(String, String)> = Vec::new();
            assert(none.deep_view() =~= Seq::empty());
            none
        },
    };
    match content {
        Some(bytes) => Ok((bytes, list)),
        None => match data {
            Some(RequestBody::Bytes(bytes)) => Ok((bytes, list)),
            Some(RequestBody::Form(fields)) => {
                let marked = set_header(list, "Content-Type", "application/x-www-form-urlencoded");
                Ok((form_to_bytes(fields), marked))
            },
            Some(RequestBody::CatchAll(description)) => Err(
                ImpitError::UnsupportedBody(description),
            ),
            None => Ok((Vec::new(), list)),
        },
    }
}

} // verus!
