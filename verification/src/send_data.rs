//! The composition request and the transport envelope derived from it.

use vstd::prelude::*;
use crate::headers::Mailbox;

verus! {

/// The immutable input of one composition: addressing fields, subject,
/// template identifier, and the typed payload.
///
/// The `from` and `to` lists are non-empty by construction.  When more than
/// one `from` mailbox is present the caller is expected to supply an
/// explicit sender; that policy stays caller-enforced, and no sender is ever
/// inferred into the headers.
pub struct MailSendData<D> {
    sender: Option<Mailbox>,
    from: Vec<Mailbox>,
    to: Vec<Mailbox>,
    subject: String,
    template_id: String,
    data: D,
}

impl<D> MailSendData<D> {
    /// The explicit sender mailbox, if one was supplied.
    pub closed spec fn sender_view(&self) -> Option<Seq<char>> {
        self.sender.deep_view()
    }

    /// The ordered `from` mailboxes.
    pub closed spec fn from_views(&self) -> Seq<Seq<char>> {
        self.from.deep_view()
    }

    /// The ordered `to` mailboxes.
    pub closed spec fn to_views(&self) -> Seq<Seq<char>> {
        self.to.deep_view()
    }

    /// The subject text.
    pub closed spec fn subject_view(&self) -> Seq<char> {
        self.subject@
    }

    /// The template identifier.
    pub closed spec fn template_id_view(&self) -> Seq<char> {
        self.template_id@
    }

    /// The typed payload.
    pub closed spec fn payload(&self) -> D {
        self.data
    }

    /// The request invariant: both mailbox lists are non-empty.
    pub open spec fn wf(&self) -> bool {
        self.from_views().len() > 0 && self.to_views().len() > 0
    }

    /// Bundles a request.  The `from` and `to` lists must be non-empty.
    pub fn new(
        sender: Option<Mailbox>,
        from: Vec<Mailbox>,
        to: Vec<Mailbox>,
        subject: String,
        template_id: String,
        data: D,
    ) -> (r: Self)
        requires
            from@.len() > 0,
            to@.len() > 0,
        ensures
            r.wf(),
            r.sender_view() == sender.deep_view(),
            r.from_views() == from.deep_view(),
            r.to_views() == to.deep_view(),
            r.subject_view() == subject@,
            r.template_id_view() == template_id@,
            r.payload() == data,
    {
        MailSendData { sender, from, to, subject, template_id, data }
    }

    /// Takes the request apart, handing every field back unchanged.
    pub fn destruct(self) -> (r: (Option<Mailbox>, Vec<Mailbox>, Vec<Mailbox>, String, String, D))
        ensures
            r.0.deep_view() == self.sender_view(),
            r.1.deep_view() == self.from_views(),
            r.2.deep_view() == self.to_views(),
            r.3@ == self.subject_view(),
            r.4@ == self.template_id_view(),
            r.5 == self.payload(),
    {
        (self.sender, self.from, self.to, self.subject, self.template_id, self.data)
    }
}

/// The transport-level sender and recipients, distinct from the
/// human-readable header fields.  Derived once per request, before any
/// template work, and immutable thereafter.
pub struct EnvelopData {
    sender: Mailbox,
    to: Vec<Mailbox>,
}

impl EnvelopData {
    /// The transport sender address.
    pub closed spec fn sender_view(&self) -> Seq<char> {
        self.sender@
    }

    /// The transport recipient addresses.
    pub closed spec fn to_views(&self) -> Seq<Seq<char>> {
        self.to.deep_view()
    }

    /// Derives the envelope from a request: the transport sender is the
    /// explicit sender mailbox if supplied, otherwise the first `from`
    /// mailbox; the recipients are the `to` list unchanged.
    pub fn from_send_data<D>(sd: &MailSendData<D>) -> (r: EnvelopData)
        requires
            sd.wf(),
        ensures
            r.sender_view() == (match sd.sender_view() {
                Some(s) => s,
                None => sd.from_views()[0],
            }),
            r.to_views() == sd.to_views(),
    {
        let sender = match &sd.sender {
            Some(m) => m.clone(),
            None => sd.from[0].clone(),
        };
        EnvelopData { sender, to: clone_mailboxes(&sd.to) }
    }

    /// The transport sender address.
    pub fn sender(&self) -> (r: &Mailbox)
        ensures
            r@ == self.sender_view(),
    {
        &self.sender
    }

    /// The transport recipient addresses.
    pub fn to(&self) -> (r: &Vec<Mailbox>)
        ensures
            r.deep_view() == self.to_views(),
    {
        &self.to
    }
}

fn clone_mailboxes(v: &Vec<Mailbox>) -> (r: Vec<Mailbox>)
    ensures
        r.deep_view() == v.deep_view(),
{
    let mut r: Vec<Mailbox> = Vec::new();
    let n = v.len();
    let mut i: usize = 0;
    while i < n
        invariant
            n == v@.len(),
            i <= n,
            r@.len() == i,
            forall|j: int| 0 <= j < i ==> #[trigger] r@[j]@ == v@[j]@,
        decreases n - i,
    {
        r.push(v[i].clone());
        i += 1;
    }
    proof {
        assert(r.deep_view() =~= v.deep_view());
    }
    r
}

} // verus!
