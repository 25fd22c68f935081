//! Validated header data: unstructured text, mailboxes, and the ordered
//! header set of one message.

use vstd::prelude::*;
use crate::error::ComposeError;

verus! {

/// Characters acceptable inside an unstructured header value such as
/// `Subject`: horizontal tab, space, and anything that is not a control
/// character.  Carriage return, line feed, and the other C0 controls as well
/// as DEL are rejected.
pub open spec fn unstructured_char_ok(c: char) -> bool {
    c == '\t' || (32 <= c as u32 && c as u32 != 127)
}

/// A character sequence is valid unstructured text when every character is.
pub open spec fn unstructured_ok(s: Seq<char>) -> bool {
    forall|i: int| 0 <= i < s.len() ==> unstructured_char_ok(#[trigger] s[i])
}

/// Characters acceptable around the `@` of a mailbox address: ASCII letters
/// and digits plus a small set of common local-part punctuation.
pub open spec fn addr_char_ok(c: char) -> bool {
    (48 <= c as u32 && c as u32 <= 57) || (65 <= c as u32 && c as u32 <= 90) || (97 <= c as u32
        && c as u32 <= 122) || c == '.' || c == '-' || c == '_' || c == '+' || c == '%'
}

/// The address splits at position `k`: a single `@` with a non-empty local
/// part before it, a non-empty domain after it, and acceptable characters
/// everywhere else.
pub open spec fn mailbox_split_ok(s: Seq<char>, k: int) -> bool {
    &&& 1 <= k
    &&& k + 1 < s.len()
    &&& s[k] == '@'
    &&& forall|i: int| 0 <= i < s.len() && i != k ==> addr_char_ok(#[trigger] s[i])
}

/// A syntactically acceptable mailbox address.
pub open spec fn mailbox_ok(s: Seq<char>) -> bool {
    exists|k: int| mailbox_split_ok(s, k)
}

fn is_addr_char(c: char) -> (b: bool)
    ensures
        b == addr_char_ok(c),
{
    let u = c as u32;
    (48 <= u && u <= 57) || (65 <= u && u <= 90) || (97 <= u && u <= 122) || c == '.' || c == '-'
        || c == '_' || c == '+' || c == '%'
}

fn check_unstructured(s: &str) -> (b: bool)
    ensures
        b == unstructured_ok(s@),
{
    let n = s.unicode_len();
    let mut i: usize = 0;
    while i < n
        invariant
            n == s@.len(),
            i <= n,
            forall|j: int| 0 <= j < i ==> unstructured_char_ok(#[trigger] s@[j]),
        decreases n - i,
    {
        let c = s.get_char(i);
        if !(c == '\t' || (c as u32 >= 32 && c as u32 != 127)) {
            assert(!unstructured_char_ok(s@[i as int]));
            return false;
        }
        i += 1;
    }
    true
}

fn check_mailbox(s: &str) -> (b: bool)
    ensures
        b == mailbox_ok(s@),
{
    let n = s.unicode_len();
    let mut i: usize = 0;
    let mut at: Option<usize> = None;
    while i < n
        invariant
            n == s@.len(),
            i <= n,
            match at {
                Some(k) => k < i && s@[k as int] == '@' && forall|j: int|
                    0 <= j < i && j != k ==> addr_char_ok(#[trigger] s@[j]),
                None => forall|j: int| 0 <= j < i ==> addr_char_ok(#[trigger] s@[j]),
            },
        decreases n - i,
    {
        let c = s.get_char(i);
        if c == '@' {
            if at.is_some() {
                proof {
                    let k0 = at->0 as int;
                    assert forall|k: int| !mailbox_split_ok(s@, k) by {
                        if mailbox_split_ok(s@, k) {
                            if k != k0 {
                                assert(addr_char_ok(s@[k0]));
                            } else {
                                assert(addr_char_ok(s@[i as int]));
                            }
                        }
                    }
                }
                return false;
            }
            at = Some(i);
        } else if !is_addr_char(c) {
            proof {
                assert forall|k: int| !mailbox_split_ok(s@, k) by {
                    if mailbox_split_ok(s@, k) {
                        if k == i as int {
                            assert(s@[k] == '@');
                        } else {
                            assert(addr_char_ok(s@[i as int]));
                        }
                    }
                }
            }
            return false;
        }
        i += 1;
    }
    match at {
        Some(k) => {
            if 1 <= k && k + 1 < n {
                proof {
                    assert(mailbox_split_ok(s@, k as int));
                }
                true
            } else {
                proof {
                    let k0 = k as int;
                    assert forall|j: int| !mailbox_split_ok(s@, j) by {
                        if mailbox_split_ok(s@, j) {
                            if j != k0 {
                                assert(addr_char_ok(s@[k0]));
                            }
                        }
                    }
                }
                false
            }
        },
        None => {
            proof {
                assert forall|j: int| !mailbox_split_ok(s@, j) by {
                    if mailbox_split_ok(s@, j) {
                        assert(addr_char_ok(s@[j]));
                    }
                }
            }
            false
        },
    }
}

/// An unstructured header value, e.g. a subject line.  Holds only text whose
/// characters pass [`unstructured_ok`].
pub struct Unstructured {
    text: String,
}

impl View for Unstructured {
    type V = Seq<char>;

    closed spec fn view(&self) -> Seq<char> {
        self.text@
    }
}

impl Unstructured {
    /// The held text is valid unstructured text.
    pub open spec fn wf(&self) -> bool {
        unstructured_ok(self@)
    }

    /// Validates `text` as unstructured header text.  Fails with
    /// [`ComposeError::HeaderValidation`] exactly when a forbidden control
    /// character occurs.
    pub fn try_new(text: String) -> (r: Result<Unstructured, ComposeError>)
        ensures
            r is Ok <==> unstructured_ok(text@),
            r matches Ok(u) ==> u@ == text@ && u.wf(),
            r matches Err(e) ==> e is HeaderValidation,
    {
        if check_unstructured(text.as_str()) {
            Ok(Unstructured { text })
        } else {
            Err(ComposeError::HeaderValidation)
        }
    }

    /// The validated text.
    pub fn as_str(&self) -> (r: &str)
        ensures
            r@ == self@,
    {
        self.text.as_str()
    }
}

impl Clone for Unstructured {
    fn clone(&self) -> (r: Self)
        ensures
            r@ == self@,
    {
        Unstructured { text: self.text.clone() }
    }
}

/// A mailbox address.  Holds only addresses that pass [`mailbox_ok`].
pub struct Mailbox {
    addr: String,
}

impl View for Mailbox {
    type V = Seq<char>;

    closed spec fn view(&self) -> Seq<char> {
        self.addr@
    }
}

impl DeepView for Mailbox {
    type V = Seq<char>;

    open spec fn deep_view(&self) -> Seq<char> {
        self.view()
    }
}

impl Mailbox {
    /// The held address is syntactically acceptable.
    pub open spec fn wf(&self) -> bool {
        mailbox_ok(self@)
    }

    /// Validates `addr` as a mailbox address.  Fails with
    /// [`ComposeError::HeaderValidation`] exactly when the syntax is
    /// rejected.
    pub fn try_new(addr: String) -> (r: Result<Mailbox, ComposeError>)
        ensures
            r is Ok <==> mailbox_ok(addr@),
            r matches Ok(m) ==> m@ == addr@ && m.wf(),
            r matches Err(e) ==> e is HeaderValidation,
    {
        if check_mailbox(addr.as_str()) {
            Ok(Mailbox { addr })
        } else {
            Err(ComposeError::HeaderValidation)
        }
    }

    /// The validated address.
    pub fn address(&self) -> (r: &str)
        ensures
            r@ == self@,
    {
        self.addr.as_str()
    }
}

impl Clone for Mailbox {
    fn clone(&self) -> (r: Self)
        ensures
            r@ == self@,
    {
        Mailbox { addr: self.addr.clone() }
    }
}

/// One header field of the composed message.
pub enum Header {
    /// The author list (`From`).
    FromList(Vec<Mailbox>),
    /// The primary recipient list (`To`).
    ToList(Vec<Mailbox>),
    /// The subject line.
    Subject(Unstructured),
    /// The explicit transmitter (`Sender`).
    Sender(Mailbox),
}

/// Mathematical image of one header field.
pub enum HeaderView {
    FromList(Seq<Seq<char>>),
    ToList(Seq<Seq<char>>),
    Subject(Seq<char>),
    Sender(Seq<char>),
}

impl View for Header {
    type V = HeaderView;

    open spec fn view(&self) -> HeaderView {
        match self {
            Header::FromList(v) => HeaderView::FromList(v.deep_view()),
            Header::ToList(v) => HeaderView::ToList(v.deep_view()),
            Header::Subject(u) => HeaderView::Subject(u@),
            Header::Sender(m) => HeaderView::Sender(m@),
        }
    }
}

impl DeepView for Header {
    type V = HeaderView;

    open spec fn deep_view(&self) -> HeaderView {
        self.view()
    }
}

/// The ordered header set of one message.  Fields keep insertion order; the
/// composition pipeline never repeats a field name.
pub struct HeaderMap {
    entries: Vec<Header>,
}

impl View for HeaderMap {
    type V = Seq<HeaderView>;

    closed spec fn view(&self) -> Seq<HeaderView> {
        self.entries.deep_view()
    }
}

impl HeaderMap {
    /// An empty header set.
    pub fn new() -> (r: HeaderMap)
        ensures
            r@ == Seq::<HeaderView>::empty(),
    {
        let r = HeaderMap { entries: Vec::new() };
        proof {
            assert(r@ =~= Seq::<HeaderView>::empty());
        }
        r
    }

    /// Appends one header field, keeping the order of earlier fields.
    pub fn insert(&mut self, h: Header)
        ensures
            final(self)@ == old(self)@.push(h@),
    {
        let ghost prev = self@;
        let ghost hv = h@;
        self.entries.push(h);
        proof {
            assert(self@ =~= prev.push(hv));
        }
    }

    /// The number of header fields.
    pub fn len(&self) -> (n: usize)
        ensures
            n == self@.len(),
    {
        self.entries.len()
    }

    /// The field at position `i`.
    pub fn get(&self, i: usize) -> (h: &Header)
        requires
            i < self@.len(),
        ensures
            h@ == self@[i as int],
    {
        &self.entries[i]
    }
}

/// The header set that header assembly owes a request: `From`, `To` and
/// `Subject` in that order, then `Sender` exactly when an explicit sender
/// mailbox was supplied.
pub open spec fn expected_header_views(
    sender: Option<Seq<char>>,
    from: Seq<Seq<char>>,
    to: Seq<Seq<char>>,
    subject: Seq<char>,
) -> Seq<HeaderView> {
    let base = seq![
        HeaderView::FromList(from),
        HeaderView::ToList(to),
        HeaderView::Subject(subject),
    ];
    match sender {
        Some(s) => base.push(HeaderView::Sender(s)),
        None => base,
    }
}

} // verus!

