//! Resources, content identifiers, and the write-only side-channel through
//! which a template engine emits embeddings and attachments.

use vstd::prelude::*;
use crate::error::{ComposeError, MimeError};

verus! {

/// Characters acceptable in the type and subtype tokens of a media type:
/// ASCII letters and digits plus a little common token punctuation.
pub open spec fn media_type_char_ok(c: char) -> bool {
    (48 <= c as u32 && c as u32 <= 57) || (65 <= c as u32 && c as u32 <= 90) || (97 <= c as u32
        && c as u32 <= 122) || c == '-' || c == '+' || c == '.'
}

/// The media type splits at position `k`: a single `/` with a non-empty
/// type token before it, a non-empty subtype token after it, and token
/// characters everywhere else.
pub open spec fn media_type_split_ok(s: Seq<char>, k: int) -> bool {
    &&& 1 <= k
    &&& k + 1 < s.len()
    &&& s[k] == '/'
    &&& forall|i: int| 0 <= i < s.len() && i != k ==> media_type_char_ok(#[trigger] s[i])
}

/// A well-shaped `type/subtype` media type.
pub open spec fn media_type_ok(s: Seq<char>) -> bool {
    exists|k: int| media_type_split_ok(s, k)
}

fn is_media_type_char(c: char) -> (b: bool)
    ensures
        b == media_type_char_ok(c),
{
    let u = c as u32;
    (48 <= u && u <= 57) || (65 <= u && u <= 90) || (97 <= u && u <= 122) || c == '-' || c == '+'
        || c == '.'
}

fn check_media_type(s: &str) -> (b: bool)
    ensures
        b == media_type_ok(s@),
{
    let n = s.unicode_len();
    let mut i: usize = 0;
    let mut slash: Option<usize> = None;
    while i < n
        invariant
            n == s@.len(),
            i <= n,
            match slash {
                Some(k) => k < i && s@[k as int] == '/' && forall|j: int|
                    0 <= j < i && j != k ==> media_type_char_ok(#[trigger] s@[j]),
                None => forall|j: int| 0 <= j < i ==> media_type_char_ok(#[trigger] s@[j]),
            },
        decreases n - i,
    {
        let c = s.get_char(i);
        if c == '/' {
            if slash.is_some() {
                proof {
                    let k0 = slash->0 as int;
                    assert forall|k: int| !media_type_split_ok(s@, k) by {
                        if media_type_split_ok(s@, k) {
                            if k != k0 {
                                assert(media_type_char_ok(s@[k0]));
                            } else {
                                assert(media_type_char_ok(s@[i as int]));
                            }
                        }
                    }
                }
                return false;
            }
            slash = Some(i);
        } else if !is_media_type_char(c) {
            proof {
                assert forall|k: int| !media_type_split_ok(s@, k) by {
                    if media_type_split_ok(s@, k) {
                        if k == i as int {
                            assert(s@[k] == '/');
                        } else {
                            assert(media_type_char_ok(s@[i as int]));
                        }
                    }
                }
            }
            return false;
        }
        i += 1;
    }
    match slash {
        Some(k) => {
            if 1 <= k && k + 1 < n {
                proof {
                    assert(media_type_split_ok(s@, k as int));
                }
                true
            } else {
                proof {
                    let k0 = k as int;
                    assert forall|j: int| !media_type_split_ok(s@, j) by {
                        if media_type_split_ok(s@, j) {
                            if j != k0 {
                                assert(media_type_char_ok(s@[k0]));
                            }
                        }
                    }
                }
                false
            }
        },
        None => {
            proof {
                assert forall|j: int| !media_type_split_ok(s@, j) by {
                    if media_type_split_ok(s@, j) {
                        assert(media_type_char_ok(s@[j]));
                    }
                }
            }
            false
        },
    }
}

/// A declared content type, e.g. `text/html`.  Holds only text that passes
/// [`media_type_ok`].
pub struct MediaType {
    raw: String,
}

impl View for MediaType {
    type V = Seq<char>;

    closed spec fn view(&self) -> Seq<char> {
        self.raw@
    }
}

impl MediaType {
    /// The held text is a well-shaped media type.
    pub open spec fn wf(&self) -> bool {
        media_type_ok(self@)
    }

    /// Validates `raw` as a `type/subtype` media type.  Fails with
    /// [`MimeError::MalformedMediaType`] exactly when the shape is
    /// rejected.
    pub fn try_new(raw: String) -> (r: Result<MediaType, ComposeError>)
        ensures
            r is Ok <==> media_type_ok(raw@),
            r matches Ok(m) ==> m@ == raw@ && m.wf(),
            r matches Err(e) ==> e == ComposeError::MimeStructure(MimeError::MalformedMediaType),
    {
        if check_media_type(raw.as_str()) {
            Ok(MediaType { raw })
        } else {
            Err(ComposeError::MimeStructure(MimeError::MalformedMediaType))
        }
    }

    /// The validated media type text.
    pub fn as_str(&self) -> (r: &str)
        ensures
            r@ == self@,
    {
        self.raw.as_str()
    }
}

impl Clone for MediaType {
    fn clone(&self) -> (r: Self)
        ensures
            r@ == self@,
    {
        MediaType { raw: self.raw.clone() }
    }
}

/// Raw content: a declared media type and the bytes themselves.
pub struct Resource {
    /// The declared media type, e.g. `text/html`.
    pub media_type: MediaType,
    /// The content bytes.
    pub data: Vec<u8>,
}

/// Mathematical image of a [`Resource`].
pub struct ResourceView {
    pub media_type: Seq<char>,
    pub data: Seq<u8>,
}

impl DeepView for Resource {
    type V = ResourceView;

    open spec fn deep_view(&self) -> ResourceView {
        ResourceView { media_type: self.media_type@, data: self.data@ }
    }
}

impl Resource {
    /// Bundles content bytes with their declared media type.
    pub fn new(media_type: MediaType, data: Vec<u8>) -> (r: Resource)
        ensures
            r.deep_view() == (ResourceView { media_type: media_type@, data: data@ }),
    {
        Resource { media_type, data }
    }
}

/// A generated content identifier, used from body content through a
/// `cid:`-style locator to reach an embedded resource.
pub struct ContentId {
    id: String,
}

impl View for ContentId {
    type V = Seq<char>;

    closed spec fn view(&self) -> Seq<char> {
        self.id@
    }
}

impl DeepView for ContentId {
    type V = Seq<char>;

    open spec fn deep_view(&self) -> Seq<char> {
        self.view()
    }
}

impl ContentId {
    /// Wraps a generated identifier.
    pub fn new(id: String) -> (r: ContentId)
        ensures
            r@ == id@,
    {
        ContentId { id }
    }

    /// The identifier text.
    pub fn as_str(&self) -> (r: &str)
        ensures
            r@ == self@,
    {
        self.id.as_str()
    }
}

impl Clone for ContentId {
    fn clone(&self) -> (r: Self)
        ensures
            r@ == self@,
    {
        ContentId { id: self.id.clone() }
    }
}

/// An embedded resource paired with its generated content identifier.  A
/// shared embedding is referenced from body parts and appears exactly once
/// in the composed tree.
pub struct EmbeddingWithCid {
    /// The identifier under which body content references the resource.
    pub cid: ContentId,
    /// The embedded resource.
    pub resource: Resource,
}

/// Mathematical image of an [`EmbeddingWithCid`].
pub struct EmbeddingView {
    pub cid: Seq<char>,
    pub resource: ResourceView,
}

impl DeepView for EmbeddingWithCid {
    type V = EmbeddingView;

    open spec fn deep_view(&self) -> EmbeddingView {
        EmbeddingView { cid: self.cid@, resource: self.resource.deep_view() }
    }
}

/// A resource carried as a sibling MIME part, never inline.
pub struct Attachment {
    /// The attached resource.
    pub resource: Resource,
    /// An optional file name shown to the recipient.
    pub file_name: Option<String>,
}

/// Mathematical image of an [`Attachment`].
pub struct AttachmentView {
    pub resource: ResourceView,
    pub file_name: Option<Seq<char>>,
}

impl DeepView for Attachment {
    type V = AttachmentView;

    open spec fn deep_view(&self) -> AttachmentView {
        AttachmentView { resource: self.resource.deep_view(), file_name: self.file_name.deep_view() }
    }
}

/// A source of fresh content identifiers, supplied by the caller's context.
/// Implementations decide the shape of the identifiers; the composition
/// layer only threads them through.
pub trait ContentIdGen {
    /// Produces the next identifier.
    fn new_content_id(&mut self) -> (r: ContentId);
}

/// The per-invocation resource side-channel.
///
/// One value of this type is created for exactly one rendering call, from
/// the caller's own identifier generator, and torn down when the call
/// returns; invocations never share one.  The engine can only add to it —
/// there is no way to read an entry back through the registration interface
/// — so reuse and ordering of the emitted resources stay decisions of the
/// composition layer.
pub struct SideChannel<G> {
    idgen: G,
    embeddings: Vec<EmbeddingWithCid>,
    attachments: Vec<Attachment>,
}

impl<G: ContentIdGen> SideChannel<G> {
    /// The embeddings registered so far, in call order.
    pub closed spec fn embeddings_view(&self) -> Seq<EmbeddingView> {
        self.embeddings.deep_view()
    }

    /// The attachments registered so far, in call order.
    pub closed spec fn attachments_view(&self) -> Seq<AttachmentView> {
        self.attachments.deep_view()
    }

    /// The identifier generator installed for this invocation.
    pub closed spec fn generator(&self) -> G {
        self.idgen
    }

    /// A fresh scope around the given generator: nothing registered yet.
    pub fn new(idgen: G) -> (r: Self)
        ensures
            r.embeddings_view() == Seq::<EmbeddingView>::empty(),
            r.attachments_view() == Seq::<AttachmentView>::empty(),
            r.generator() == idgen,
    {
        let r = SideChannel { idgen, embeddings: Vec::new(), attachments: Vec::new() };
        proof {
            assert(r.embeddings_view() =~= Seq::<EmbeddingView>::empty());
            assert(r.attachments_view() =~= Seq::<AttachmentView>::empty());
        }
        r
    }

    /// Registers one embedding: draws a fresh identifier from the installed
    /// generator, appends the pair behind the identifier, and hands the
    /// identifier back so the caller can reference the resource from body
    /// content.
    pub fn register_embedding(&mut self, resource: Resource) -> (cid: ContentId)
        ensures
            final(self).embeddings_view() == old(self).embeddings_view().push(
                EmbeddingView { cid: cid@, resource: resource.deep_view() },
            ),
            final(self).attachments_view() == old(self).attachments_view(),
    {
        let ghost prev = self.embeddings_view();
        let ghost prev_atts = self.attachments_view();
        let cid = self.idgen.new_content_id();
        let entry_cid = cid.clone();
        let ghost rv = resource.deep_view();
        self.embeddings.push(EmbeddingWithCid { cid: entry_cid, resource });
        proof {
            assert(self.embeddings_view() =~= prev.push(
                EmbeddingView { cid: cid@, resource: rv },
            ));
            assert(self.attachments_view() =~= prev_atts);
        }
        cid
    }

    /// Registers one attachment, appending it in call order.
    pub fn register_attachment(&mut self, attachment: Attachment)
        ensures
            final(self).attachments_view() == old(self).attachments_view().push(
                attachment.deep_view(),
            ),
            final(self).embeddings_view() == old(self).embeddings_view(),
    {
        let ghost prev = self.attachments_view();
        let ghost prev_embs = self.embeddings_view();
        let ghost av = attachment.deep_view();
        self.attachments.push(attachment);
        proof {
            assert(self.attachments_view() =~= prev.push(av));
            assert(self.embeddings_view() =~= prev_embs);
        }
    }

    /// Tears the scope down and hands everything that was registered, in
    /// call order, to the composition layer.
    pub fn into_collected(self) -> (r: (Vec<EmbeddingWithCid>, Vec<Attachment>))
        ensures
            r.0.deep_view() == self.embeddings_view(),
            r.1.deep_view() == self.attachments_view(),
    {
        (self.embeddings, self.attachments)
    }
}

} // verus!
