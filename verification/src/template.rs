//! The template-engine boundary: rendered bodies, the serialize-only payload
//! adapter, the engine interface, and the merge of engine-declared and
//! side-channel-collected resources.

use vstd::prelude::*;
use crate::resource::{
    Attachment,
    AttachmentView,
    ContentIdGen,
    EmbeddingView,
    EmbeddingWithCid,
    Resource,
    ResourceView,
    SideChannel,
};

verus! {

/// One alternative representation of the message body, e.g. plain text or
/// HTML.  Order among body parts defines preference order and is preserved
/// exactly as produced.
pub struct BodyPart {
    /// The rendered content of this alternative.
    pub resource: Resource,
}

/// Mathematical image of a [`BodyPart`].
pub struct BodyPartView {
    pub resource: ResourceView,
}

impl DeepView for BodyPart {
    type V = BodyPartView;

    open spec fn deep_view(&self) -> BodyPartView {
        BodyPartView { resource: self.resource.deep_view() }
    }
}

/// Everything one template rendering produces: the alternative bodies, the
/// shared embeddings the engine itself declares, and its attachments.
pub struct MailParts {
    /// The alternative bodies, in the engine's preference order.
    pub alternative_bodies: Vec<BodyPart>,
    /// Embeddings the engine knows about directly, e.g. static layout
    /// images.
    pub shared_embeddings: Vec<EmbeddingWithCid>,
    /// Attachments the engine produces directly.
    pub attachments: Vec<Attachment>,
}

impl MailParts {
    /// The bodies, as a sequence of images.
    pub open spec fn bodies_view(&self) -> Seq<BodyPartView> {
        self.alternative_bodies.deep_view()
    }

    /// The declared embeddings, as a sequence of images.
    pub open spec fn embeddings_view(&self) -> Seq<EmbeddingView> {
        self.shared_embeddings.deep_view()
    }

    /// The declared attachments, as a sequence of images.
    pub open spec fn attachments_view(&self) -> Seq<AttachmentView> {
        self.attachments.deep_view()
    }
}

/// The one capability a payload must offer: serializing itself into bytes of
/// the target format.  The composition layer never looks at the result.
pub trait SerializePayload {
    /// Serializes the payload, or reports the serializer's error text.
    fn serialize_payload(&self) -> (r: Result<Vec<u8>, String>);
}

/// A serialize-only adapter around the typed payload.
///
/// A template engine receives the payload only behind this wrapper, whose
/// whole interface is [`SerializeOnly::serialize`]: the concrete payload
/// type stays hidden, so the engine cannot reach embeddable resources inside
/// the payload and bypass the side-channel, which remains its only way to
/// emit resources.
pub struct SerializeOnly<D> {
    data: D,
}

impl<D: SerializePayload> SerializeOnly<D> {
    /// The wrapped payload (visible to specifications only).
    pub closed spec fn wrapped(&self) -> D {
        self.data
    }

    /// Wraps a payload.
    pub fn new(data: D) -> (r: Self)
        ensures
            r.wrapped() == data,
    {
        SerializeOnly { data }
    }

    /// Serializes the wrapped payload; the only operation the wrapper
    /// exposes.
    pub fn serialize(&self) -> (r: Result<Vec<u8>, String>) {
        self.data.serialize_payload()
    }
}

/// A pluggable template engine.
///
/// `render` turns a template identifier and a serialize-only payload into a
/// [`MailParts`] bundle.  While it runs it may register further embeddings
/// and attachments on the write-only `scope`; the composition layer merges
/// those into the bundle afterwards.  On failure the engine reports its own
/// error text, which the composition layer wraps.
pub trait TemplateEngine<D, G: ContentIdGen> {
    /// Renders one template against the serialized payload.
    fn render(
        &self,
        scope: &mut SideChannel<G>,
        template_id: &str,
        data: &SerializeOnly<D>,
    ) -> (r: Result<MailParts, String>);
}

/// Merges side-channel-collected resources into the engine's own bundle:
/// the collected embeddings are appended after the declared ones, the
/// collected attachments after the declared ones, and the bodies stay
/// untouched.  Nothing is re-ordered, dropped, or de-duplicated.
pub fn merge_mail_parts(
    parts: MailParts,
    embeddings: Vec<EmbeddingWithCid>,
    attachments: Vec<Attachment>,
) -> (r: MailParts)
    ensures
        r.bodies_view() == parts.bodies_view(),
        r.embeddings_view() == parts.embeddings_view() + embeddings.deep_view(),
        r.attachments_view() == parts.attachments_view() + attachments.deep_view(),
{
    let mut parts = parts;
    let mut embeddings = embeddings;
    let mut attachments = attachments;
    let ghost base = parts.embeddings_view();
    let ghost base_atts = parts.attachments_view();
    let ghost extra = embeddings.deep_view();
    let ghost extra_atts = attachments.deep_view();
    parts.shared_embeddings.append(&mut embeddings);
    parts.attachments.append(&mut attachments);
    proof {
        assert(parts.embeddings_view() =~= base + extra);
        assert(parts.attachments_view() =~= base_atts + extra_atts);
    }
    parts
}

} // verus!
