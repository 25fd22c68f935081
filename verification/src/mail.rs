//! The composed message: a deterministic tree of MIME parts plus the header
//! set, and the two builder operations that assemble it.
//!
//! The tree shapes the pipeline can build are made explicit by construction:
//! an alternative-bodies-with-embeddings structure, optionally wrapped
//! together with attachments in a mixed structure.  Headers sit only on the
//! outermost level, so they appear exactly once whatever the wrapping.

use vstd::prelude::*;
use crate::error::{ComposeError, MimeError};
use crate::headers::{HeaderMap, HeaderView};
use crate::resource::{Attachment, AttachmentView, EmbeddingView, EmbeddingWithCid};
use crate::template::{BodyPart, BodyPartView};

verus! {

/// The alternative-bodies-with-embeddings structure: one sub-part per body,
/// in preference order, with the shared embeddings attached once as related
/// resources reachable by content identifier from any body part.
pub struct BodyStructure {
    /// The alternative bodies, order preserved exactly as produced.
    pub bodies: Vec<BodyPart>,
    /// The shared embeddings, each appearing exactly once.
    pub embeddings: Vec<EmbeddingWithCid>,
}

/// Mathematical image of a [`BodyStructure`].
pub struct BodyStructureView {
    pub bodies: Seq<BodyPartView>,
    pub embeddings: Seq<EmbeddingView>,
}

impl DeepView for BodyStructure {
    type V = BodyStructureView;

    open spec fn deep_view(&self) -> BodyStructureView {
        BodyStructureView { bodies: self.bodies.deep_view(), embeddings: self.embeddings.deep_view() }
    }
}

/// The body of a composed message: either the bare body structure, or the
/// same structure wrapped together with attachment parts in a mixed
/// structure.  Attachments change only the outer wrapping, never the inner
/// shape.
pub enum MailBody {
    /// No attachments: the body structure stands directly under the
    /// top-level headers.
    Plain(BodyStructure),
    /// At least one attachment: the (header-less) body structure plus one
    /// sibling part per attachment, in supplied order.
    Mixed { body: BodyStructure, attachments: Vec<Attachment> },
}

/// Mathematical image of a [`MailBody`].
pub enum MailBodyView {
    Plain(BodyStructureView),
    Mixed { body: BodyStructureView, attachments: Seq<AttachmentView> },
}

impl DeepView for MailBody {
    type V = MailBodyView;

    open spec fn deep_view(&self) -> MailBodyView {
        match self {
            MailBody::Plain(bs) => MailBodyView::Plain(bs.deep_view()),
            MailBody::Mixed { body, attachments } => MailBodyView::Mixed {
                body: body.deep_view(),
                attachments: attachments.deep_view(),
            },
        }
    }
}

/// The outermost multipart flavour of a composed message.
#[derive(Debug, PartialEq, Eq, Structural, Clone, Copy)]
pub enum MultipartKind {
    /// Alternative bodies only.
    Alternative,
    /// Alternative bodies related to shared embeddings.
    Related,
    /// A body structure plus attachments.
    Mixed,
}

/// A composed message: the part tree plus the header set, owned solely by
/// the caller after composition returns.
pub struct Mail {
    /// The top-level headers; the only headers in the tree.
    pub headers: HeaderMap,
    /// The part tree.
    pub body: MailBody,
}

/// Mathematical image of a [`Mail`].
pub struct MailView {
    pub headers: Seq<HeaderView>,
    pub body: MailBodyView,
}

impl DeepView for Mail {
    type V = MailView;

    open spec fn deep_view(&self) -> MailView {
        MailView { headers: self.headers@, body: self.body.deep_view() }
    }
}

impl Mail {
    /// The outermost multipart flavour the message would serialize to.
    pub open spec fn spec_kind(&self) -> MultipartKind {
        match self.body {
            MailBody::Plain(bs) => if bs.embeddings@.len() > 0 {
                MultipartKind::Related
            } else {
                MultipartKind::Alternative
            },
            MailBody::Mixed { .. } => MultipartKind::Mixed,
        }
    }

    /// The outermost multipart flavour.
    pub fn kind(&self) -> (k: MultipartKind)
        ensures
            k == self.spec_kind(),
    {
        match &self.body {
            MailBody::Plain(bs) => if bs.embeddings.len() > 0 {
                MultipartKind::Related
            } else {
                MultipartKind::Alternative
            },
            MailBody::Mixed { .. } => MultipartKind::Mixed,
        }
    }
}

/// A message can be wrapped together with attachments only while it is a
/// bare body structure: no attachments of its own and no headers yet.
pub open spec fn wrappable(m: Mail) -> bool {
    m.body is Plain && m.headers@.len() == 0
}

/// The two MIME-building operations of the pipeline.
pub struct Builder;

impl Builder {
    /// Builds the alternative-bodies-with-embeddings structure, bearing the
    /// given top-level headers (or none).  Body order and embedding order
    /// are preserved exactly.  Fails with
    /// [`MimeError::NoBodyParts`] exactly when no body was supplied.
    pub fn create_alternate_bodies_with_embeddings(
        bodies: Vec<BodyPart>,
        embeddings: Vec<EmbeddingWithCid>,
        headers: Option<HeaderMap>,
    ) -> (r: Result<Mail, ComposeError>)
        ensures
            r is Ok <==> bodies@.len() > 0,
            r matches Err(e) ==> e == ComposeError::MimeStructure(MimeError::NoBodyParts),
            r matches Ok(m) ==> {
                &&& m.headers@ == (match headers {
                    Some(h) => h@,
                    None => Seq::<HeaderView>::empty(),
                })
                &&& m.body matches MailBody::Plain(bs)
                    && bs.bodies.deep_view() == bodies.deep_view()
                    && bs.embeddings.deep_view() == embeddings.deep_view()
            },
    {
        if bodies.len() == 0 {
            return Err(ComposeError::MimeStructure(MimeError::NoBodyParts));
        }
        let hdrs = match headers {
            Some(h) => h,
            None => HeaderMap::new(),
        };
        Ok(Mail { headers: hdrs, body: MailBody::Plain(BodyStructure { bodies, embeddings }) })
    }

    /// Wraps a bare body structure together with the attachment parts into
    /// an enclosing mixed structure bearing the given top-level headers (or
    /// none).  Attachment order is preserved exactly.  Fails with
    /// [`MimeError::UnwrappablePart`] exactly when `body` is not
    /// [`wrappable`].
    pub fn create_with_attachments(
        body: Mail,
        attachments: Vec<Attachment>,
        headers: Option<HeaderMap>,
    ) -> (r: Result<Mail, ComposeError>)
        ensures
            r is Ok <==> wrappable(body),
            r matches Err(e) ==> e == ComposeError::MimeStructure(MimeError::UnwrappablePart),
            r matches Ok(m) ==> {
                &&& m.headers@ == (match headers {
                    Some(h) => h@,
                    None => Seq::<HeaderView>::empty(),
                })
                &&& m.body matches MailBody::Mixed { body: bs, attachments: atts }
                    && body.body matches MailBody::Plain(inner)
                    && bs.deep_view() == inner.deep_view()
                    && atts.deep_view() == attachments.deep_view()
            },
    {
        if body.headers.len() != 0 {
            return Err(ComposeError::MimeStructure(MimeError::UnwrappablePart));
        }
        match body.body {
            MailBody::Plain(bs) => {
                let hdrs = match headers {
                    Some(h) => h,
                    None => HeaderMap::new(),
                };
                Ok(Mail { headers: hdrs, body: MailBody::Mixed { body: bs, attachments } })
            },
            MailBody::Mixed { .. } => Err(ComposeError::MimeStructure(MimeError::UnwrappablePart)),
        }
    }
}

} // verus!
