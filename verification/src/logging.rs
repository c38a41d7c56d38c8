//! Log lines with a prefix that says what they are about.
use crate::text::{concat, concat3, opt_text};
use vstd::prelude::*;
use vstd::utf8::{decode_utf8, encode_utf8, is_char_boundary};

verus! {

/// What a log line is about. Lines begin with a prefix that is easy to search for:
/// `[op=... session=... url=...]`.
#[derive(Debug, Clone)]
pub struct LogContext {
    pub session_id: Option<String>,
    pub url: Option<String>,
    pub operation: Option<String>,
}

/// The number of bytes up to which a URL is shown whole.
pub const URL_LIMIT: usize = 60;

/// The number of bytes that are shown of a longer URL, at most.
pub const URL_SHOWN: usize = 57;

/// The last place at or before `at` where a text of these bytes can be cut: not inside a
/// character.
pub open spec fn last_boundary(bytes: Seq<u8>, at: nat) -> nat
    decreases at,
{
    if at == 0 || is_char_boundary(bytes, at as int) {
        at
    } else {
        last_boundary(bytes, (at - 1) as nat)
    }
}

/// What is shown of a URL: all of it up to `URL_LIMIT` bytes, else as many whole characters of
/// its beginning as `URL_SHOWN` bytes hold.
pub open spec fn shown_url(url: Seq<char>) -> Seq<char> {
    let bytes = encode_utf8(url);
    if bytes.len() > URL_LIMIT {
        decode_utf8(bytes.subrange(0, last_boundary(bytes, URL_SHOWN as nat) as int))
    } else {
        url
    }
}

/// A list with one more labelled part, if there is anything to label.
pub open spec fn with_part(
    parts: Seq<Seq<char>>,
    label: Seq<char>,
    value: Option<Seq<char>>,
) -> Seq<Seq<char>> {
    match value {
        Some(v) => parts.push(label + v),
        None => parts,
    }
}

/// Texts with a space between each two of them.
pub open spec fn spaced(parts: Seq<Seq<char>>) -> Seq<char>
    decreases parts.len(),
{
    if parts.len() == 0 {
        Seq::empty()
    } else if parts.len() == 1 {
        parts[0]
    } else {
        spaced(parts.drop_last()) + " "@ + parts.last()
    }
}

impl LogContext {
    /// The labelled parts of the prefix.
    pub open spec fn parts(self) -> Seq<Seq<char>> {
        let url = match self.url {
            Some(u) => Some(shown_url(u@)),
            None => None,
        };
        with_part(
            with_part(
                with_part(Seq::empty(), "op="@, opt_text(self.operation)),
                "session="@,
                opt_text(self.session_id),
            ),
            "url="@,
            url,
        )
    }

    /// The prefix of the lines: the parts in brackets, or nothing where there are none.
    pub open spec fn prefix_text(self) -> Seq<char> {
        if self.parts().len() == 0 {
            Seq::empty()
        } else {
            "["@ + spaced(self.parts()) + "] "@
        }
    }

    /// A context that says nothing.
    pub fn new() -> (r: LogContext)
        ensures
            r.session_id is None,
            r.url is None,
            r.operation is None,
    {
        LogContext { session_id: None, url: None, operation: None }
    }

    /// The context with a session.
    pub fn with_session(self, session_id: &str) -> (r: LogContext)
        ensures
            opt_text(r.session_id) == Some(session_id@),
            r == (LogContext { session_id: r.session_id, ..self }),
    {
        LogContext { session_id: Some(session_id.to_owned()), ..self }
    }

    /// The context with a URL.
    pub fn with_url(self, url: &str) -> (r: LogContext)
        ensures
            opt_text(r.url) == Some(url@),
            r == (LogContext { url: r.url, ..self }),
    {
        LogContext { url: Some(url.to_owned()), ..self }
    }

    /// The context with an operation.
    pub fn with_operation(self, operation: &str) -> (r: LogContext)
        ensures
            opt_text(r.operation) == Some(operation@),
            r == (LogContext { operation: r.operation, ..self }),
    {
        LogContext { operation: Some(operation.to_owned()), ..self }
    }

    /// The prefix of the lines.
    pub fn prefix(&self) -> (r: String)
        ensures
            r@ == self.prefix_text(),
    {
        let mut body = String::new();
        let mut any = false;
        let ghost mut parts: Seq<Seq<char>> = Seq::empty();
        assert(body@ =~= spaced(parts));
        if let Some(op) = &self.operation {
            body = add_part(body, any, "op=", op.as_str(), Ghost(parts));
            any = true;
            proof {
                parts = with_part(parts, "op="@, Some(op@));
            }
        }
        if let Some(id) = &self.session_id {
            body = add_part(body, any, "session=", id.as_str(), Ghost(parts));
            any = true;
            proof {
                parts = with_part(parts, "session="@, Some(id@));
            }
        }
        if let Some(url) = &self.url {
            body = add_part(body, any, "url=", cut_url(url.as_str()), Ghost(parts));
            any = true;
            proof {
                parts = with_part(parts, "url="@, Some(shown_url(url@)));
            }
        }
        assert(parts == self.parts());
        if any {
            concat3("[", body.as_str(), "] ")
        } else {
            body
        }
    }

    /// The line for a message.
    pub open spec fn line(self, msg: Seq<char>) -> Seq<char> {
        self.prefix_text() + msg
    }

    /// The line that tells of something.
    pub fn info(&self, msg: &str) -> (r: String)
        ensures
            r@ == self.line(msg@),
    {
        concat(self.prefix().as_str(), msg)
    }

    /// The line that tells of an error.
    pub fn error(&self, msg: &str) -> (r: String)
        ensures
            r@ == self.line(msg@),
    {
        concat(self.prefix().as_str(), msg)
    }
}

impl Default for LogContext {
    /// A context that says nothing.
    fn default() -> (r: LogContext)
        ensures
            r.session_id is None,
            r.url is None,
            r.operation is None,
    {
        LogContext::new()
    }
}

fn add_part(
    body: String,
    any: bool,
    label: &str,
    value: &str,
    Ghost(parts): Ghost<Seq<Seq<char>>>,
) -> (r: String)
    requires
        body@ == spaced(parts),
        any == (parts.len() > 0),
    ensures
        r@ == spaced(with_part(parts, label@, Some(value@))),
{
    let part = concat(label, value);
    let ghost after = with_part(parts, label@, Some(value@));
    assert(after.drop_last() =~= parts);
    if any {
        concat3(body.as_str(), " ", part.as_str())
    } else {
        part
    }
}

fn cut_url(url: &str) -> (r: &str)
    ensures
        r@ == shown_url(url@),
{
    if url.as_bytes().len() > URL_LIMIT {
        let mut at: usize = URL_SHOWN;
        proof {
            vstd::utf8::encode_utf8_valid_utf8(url@);
        }
        while at > 0 && !url.is_char_boundary(at)
            invariant
                at <= URL_SHOWN,
                last_boundary(encode_utf8(url@), at as nat) == last_boundary(
                    encode_utf8(url@),
                    URL_SHOWN as nat,
                ),
            decreases at,
        {
            at -= 1;
        }
        let (shown, _rest) = url.split_at(at);
        proof {
            vstd::utf8::encode_utf8_decode_utf8(shown@);
        }
        shown
    } else {
        url
    }
}

proof fn lemma_last_boundary(bytes: Seq<u8>, at: nat)
    requires
        vstd::utf8::valid_utf8(bytes),
    ensures
        is_char_boundary(bytes, last_boundary(bytes, at) as int),
        last_boundary(bytes, at) <= at,
        forall|k: int| last_boundary(bytes, at) < k <= at ==> !is_char_boundary(bytes, k),
    decreases at,
{
    if at > 0 && !is_char_boundary(bytes, at as int) {
        lemma_last_boundary(bytes, (at - 1) as nat);
    }
}

/// What is shown of a URL is how it begins. It takes no more than `URL_LIMIT` bytes; of a longer
/// URL it is cut at the last end of a character within `URL_SHOWN` bytes.
pub proof fn law_shown_url_is_a_beginning(url: Seq<char>)
    ensures
        shown_url(url).is_prefix_of(url),
        encode_utf8(shown_url(url)).len() <= URL_LIMIT,
        encode_utf8(url).len() > URL_LIMIT ==> {
            let shown = encode_utf8(shown_url(url)).len();
            &&& shown <= URL_SHOWN
            &&& forall|k: int|
                shown < k <= URL_SHOWN ==> !is_char_boundary(encode_utf8(url), k)
        },
{
    let bytes = encode_utf8(url);
    vstd::utf8::encode_utf8_valid_utf8(url);
    vstd::utf8::encode_utf8_decode_utf8(url);
    if bytes.len() > URL_LIMIT {
        let cut = last_boundary(bytes, URL_SHOWN as nat) as int;
        lemma_last_boundary(bytes, URL_SHOWN as nat);
        vstd::utf8::valid_utf8_split(bytes, cut);
        vstd::utf8::decode_utf8_split(bytes, cut);
        vstd::utf8::decode_utf8_encode_utf8(bytes.subrange(0, cut));
    } else {
        assert(url.subrange(0, url.len() as int) =~= url);
    }
}

/// A URL of up to sixty bytes is shown whole; of a longer one no more than fifty-seven are shown.
pub proof fn law_short_urls_are_shown_whole(url: Seq<char>)
    ensures
        encode_utf8(url).len() <= 60 ==> shown_url(url) == url,
        encode_utf8(url).len() > 60 ==> {
            let shown = encode_utf8(shown_url(url)).len();
            &&& shown <= 57
            &&& forall|k: int| shown < k <= 57 ==> !is_char_boundary(encode_utf8(url), k)
        },
        shown_url(url).is_prefix_of(url),
{
    law_shown_url_is_a_beginning(url);
}

/// The prefix holds exactly what the context says, in brackets: the operation, the session and
/// the URL, each behind its label, in this order, with a blank between each two. A context that
/// says nothing has no prefix.
pub proof fn law_prefix_says_what_it_is_about(c: LogContext)
    ensures
        ({
            let op = "op="@ + c.operation->0@;
            let session = "session="@ + c.session_id->0@;
            let url = "url="@ + shown_url(c.url->0@);
            let body = match (c.operation is Some, c.session_id is Some, c.url is Some) {
                (false, false, false) => Seq::empty(),
                (true, false, false) => op,
                (false, true, false) => session,
                (false, false, true) => url,
                (true, true, false) => op + " "@ + session,
                (true, false, true) => op + " "@ + url,
                (false, true, true) => session + " "@ + url,
                (true, true, true) => op + " "@ + session + " "@ + url,
            };
            let none = c.operation is None && c.session_id is None && c.url is None;
            &&& none ==> c.prefix_text().len() == 0
            &&& !none ==> c.prefix_text() == "["@ + body + "] "@
        }),
{
    reveal_with_fuel(spaced, 4);
    let op = "op="@ + c.operation->0@;
    let session = "session="@ + c.session_id->0@;
    let url = "url="@ + shown_url(c.url->0@);
    assert(seq![op, session].drop_last() =~= seq![op]);
    assert(seq![op, url].drop_last() =~= seq![op]);
    assert(seq![session, url].drop_last() =~= seq![session]);
    assert(seq![op, session, url].drop_last() =~= seq![op, session]);
    let parts = c.parts();
    if c.operation is Some {
        if c.session_id is Some {
            if c.url is Some {
                assert(parts =~= seq![op, session, url]);
            } else {
                assert(parts =~= seq![op, session]);
            }
        } else if c.url is Some {
            assert(parts =~= seq![op, url]);
        } else {
            assert(parts =~= seq![op]);
        }
    } else if c.session_id is Some {
        if c.url is Some {
            assert(parts =~= seq![session, url]);
        } else {
            assert(parts =~= seq![session]);
        }
    } else if c.url is Some {
        assert(parts =~= seq![url]);
    }
}

/// A line is its message behind the prefix.
pub proof fn law_line_ends_with_the_message(c: LogContext, msg: Seq<char>)
    ensures
        c.line(msg) == c.prefix_text() + msg,
        c.operation is None && c.session_id is None && c.url is None ==> c.line(msg) == msg,
{
    if c.operation is None && c.session_id is None && c.url is None {
        assert(c.line(msg) =~= msg);
    }
}

} // verus!
