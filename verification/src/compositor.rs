//! The composition pipeline: header/envelope assembly, the engine
//! invocation under the resource side-channel, and MIME assembly.

use vstd::prelude::*;
use crate::error::{ComposeError, MimeError};
use crate::headers::{expected_header_views, unstructured_ok, Header, HeaderMap, Unstructured};
use crate::mail::{Builder, Mail, MailBody};
use crate::resource::{Attachment, ContentIdGen, EmbeddingWithCid, SideChannel};
use crate::send_data::{EnvelopData, MailSendData};
use crate::template::{merge_mail_parts, BodyPart, MailParts, SerializeOnly, SerializePayload, TemplateEngine};

verus! {

/// The stage label attached to a wrapped template-engine error.
pub open spec fn engine_stage_label() -> Seq<char> {
    "failure in template engine"@
}

/// An error is a wrapped engine failure carrying the engine-invocation
/// stage label.
pub open spec fn is_engine_failure(e: ComposeError) -> bool {
    e matches ComposeError::EngineFailure { stage, cause } && stage@ == engine_stage_label()
}

/// The composition engine: a template engine paired with the caller's
/// execution context, which doubles as the content-identifier source for
/// one rendering scope.
pub struct Compositor<E, C> {
    engine: E,
    context: C,
}

impl<E, C> Compositor<E, C> {
    /// The held template engine (visible to specifications only).
    pub closed spec fn spec_engine(&self) -> E {
        self.engine
    }

    /// The held context (visible to specifications only).
    pub closed spec fn spec_context(&self) -> C {
        self.context
    }

    /// Pairs a template engine with an execution context.
    pub fn new(engine: E, context: C) -> (r: Self)
        ensures
            r.spec_engine() == engine,
            r.spec_context() == context,
    {
        Compositor { engine, context }
    }

    /// The held context.
    pub fn context(&self) -> (r: &C)
        ensures
            *r == self.spec_context(),
    {
        &self.context
    }

    /// The held template engine.
    pub fn template_engine(&self) -> (r: &E)
        ensures
            *r == self.spec_engine(),
    {
        &self.engine
    }
}

impl<E, C: ContentIdGen + Clone> Compositor<E, C> {
    /// Header assembly: turns the request into the ordered header set and
    /// hands the payload and template identifier through untouched.
    ///
    /// Succeeds exactly when the subject is valid unstructured text, and
    /// then produces `From`, `To` and `Subject` in that order, plus `Sender`
    /// iff an explicit sender mailbox was supplied.  An invalid subject
    /// fails with [`ComposeError::HeaderValidation`].  Pure: no side
    /// effects beyond constructing the return values.
    pub fn process_mail_send_data<D>(&self, send_data: MailSendData<D>) -> (r: Result<
        (HeaderMap, D, String),
        ComposeError,
    >)
        ensures
            r is Ok <==> unstructured_ok(send_data.subject_view()),
            r matches Ok(t) ==> {
                &&& t.0@ == expected_header_views(
                    send_data.sender_view(),
                    send_data.from_views(),
                    send_data.to_views(),
                    send_data.subject_view(),
                )
                &&& t.1 == send_data.payload()
                &&& t.2@ == send_data.template_id_view()
            },
            r matches Err(e) ==> e is HeaderValidation,
    {
        let (sender, from_mailboxes, to_mailboxes, subject, template_id, data) =
            send_data.destruct();

        // The subject header field.
        let subject = match Unstructured::try_new(subject) {
            Ok(u) => u,
            Err(e) => {
                return Err(e);
            },
        };

        // The header map, in fixed field order.
        let mut core_headers = HeaderMap::new();
        core_headers.insert(Header::FromList(from_mailboxes));
        core_headers.insert(Header::ToList(to_mailboxes));
        core_headers.insert(Header::Subject(subject));

        // The sender header only when an explicit sender was supplied: with
        // several `from` mailboxes the choice of sender stays with the
        // caller, never inferred here.
        match sender {
            Some(sender) => {
                core_headers.insert(Header::Sender(sender));
            },
            None => {},
        }

        proof {
            assert(core_headers@ =~= expected_header_views(
                send_data.sender_view(),
                send_data.from_views(),
                send_data.to_views(),
                send_data.subject_view(),
            ));
        }
        Ok((core_headers, data, template_id))
    }

    /// Invokes the template engine under a fresh side-channel scope.
    ///
    /// The scope is built around a clone of the context's identifier
    /// generator, lives for exactly this invocation, and is torn down on
    /// every exit path; the engine sees the payload only behind the
    /// serialize-only adapter.  Whatever the engine registered is merged
    /// into its bundle afterwards — collected embeddings appended after the
    /// declared ones, collected attachments likewise (see
    /// [`merge_mail_parts`]).  An engine error is wrapped with the
    /// engine-invocation stage label; no partial bundle escapes.
    pub fn use_template_engine<D>(&self, template_id: &str, data: D) -> (r: Result<
        MailParts,
        ComposeError,
    >) where E: TemplateEngine<D, C>, D: SerializePayload
        ensures
            r matches Err(e) ==> is_engine_failure(e),
    {
        let id_gen = self.context.clone();
        let mut scope = SideChannel::new(id_gen);
        let sdata = SerializeOnly::new(data);
        let rendered = self.engine.render(&mut scope, template_id, &sdata);
        let (embeddings, attachments) = scope.into_collected();
        match rendered {
            Ok(parts) => Ok(merge_mail_parts(parts, embeddings, attachments)),
            Err(cause) => Err(
                ComposeError::EngineFailure { stage: "failure in template engine".to_owned(), cause },
            ),
        }
    }

    /// MIME assembly: nests the rendered bodies, the shared embeddings and
    /// the attachments into one part tree under the given headers.
    ///
    /// With zero attachments the alternative-bodies-with-embeddings
    /// structure directly bears the headers; with one or more, that same
    /// structure is built header-less and wrapped together with the
    /// attachment parts into an enclosing mixed structure which alone bears
    /// the headers.  Order of bodies, embeddings and attachments is
    /// preserved exactly; failure to produce at least one body is
    /// [`MimeError::NoBodyParts`].
    pub fn build_mail(
        &self,
        bodies: Vec<BodyPart>,
        embeddings: Vec<EmbeddingWithCid>,
        attachments: Vec<Attachment>,
        core_headers: HeaderMap,
    ) -> (r: Result<Mail, ComposeError>)
        ensures
            r is Ok <==> bodies@.len() > 0,
            r matches Err(e) ==> e == ComposeError::MimeStructure(MimeError::NoBodyParts),
            r matches Ok(m) ==> {
                &&& m.headers@ == core_headers@
                &&& attachments@.len() == 0 ==> (m.body matches MailBody::Plain(bs)
                    && bs.bodies.deep_view() == bodies.deep_view()
                    && bs.embeddings.deep_view() == embeddings.deep_view())
                &&& attachments@.len() > 0 ==> (m.body matches MailBody::Mixed {
                    body: bs,
                    attachments: atts,
                } && bs.bodies.deep_view() == bodies.deep_view()
                    && bs.embeddings.deep_view() == embeddings.deep_view()
                    && atts.deep_view() == attachments.deep_view())
            },
    {
        if attachments.len() == 0 {
            Builder::create_alternate_bodies_with_embeddings(bodies, embeddings, Some(core_headers))
        } else {
            let inner = match Builder::create_alternate_bodies_with_embeddings(
                bodies,
                embeddings,
                None,
            ) {
                Ok(m) => m,
                Err(e) => {
                    return Err(e);
                },
            };
            Builder::create_with_attachments(inner, attachments, Some(core_headers))
        }
    }

    /// The top-level composition: derives the envelope, assembles the
    /// headers, renders the template under the side-channel, and assembles
    /// the MIME tree, in strict sequence.
    ///
    /// The envelope is derived from the request alone, before any template
    /// work.  An invalid subject fails with
    /// [`ComposeError::HeaderValidation`] before the engine is ever
    /// invoked; header validation is the only source of that error, so a
    /// composed message always bears exactly the expected headers, once, at
    /// the outermost part.
    pub fn compose_mail<D>(&self, send_data: MailSendData<D>) -> (r: Result<
        (Mail, EnvelopData),
        ComposeError,
    >) where E: TemplateEngine<D, C>, D: SerializePayload
        requires
            send_data.wf(),
        ensures
            !unstructured_ok(send_data.subject_view()) ==> (r matches Err(e) && e
                is HeaderValidation),
            (r matches Err(e) && e is HeaderValidation) ==> !unstructured_ok(
                send_data.subject_view(),
            ),
            r matches Err(e) ==> (e is HeaderValidation || is_engine_failure(e) || e
                == ComposeError::MimeStructure(MimeError::NoBodyParts)),
            r matches Ok(t) ==> {
                &&& t.0.headers@ == expected_header_views(
                    send_data.sender_view(),
                    send_data.from_views(),
                    send_data.to_views(),
                    send_data.subject_view(),
                )
                &&& t.1.sender_view() == (match send_data.sender_view() {
                    Some(s) => s,
                    None => send_data.from_views()[0],
                })
                &&& t.1.to_views() == send_data.to_views()
                &&& (t.0.body matches MailBody::Plain(bs) ==> bs.bodies@.len() > 0)
                &&& (t.0.body matches MailBody::Mixed { body: bs, attachments: atts }
                    ==> bs.bodies@.len() > 0 && atts@.len() > 0)
            },
    {
        let envelop = EnvelopData::from_send_data(&send_data);

        let (core_headers, data, template_id) = match self.process_mail_send_data(send_data) {
            Ok(t) => t,
            Err(e) => {
                return Err(e);
            },
        };

        let parts = match self.use_template_engine(template_id.as_str(), data) {
            Ok(p) => p,
            Err(e) => {
                return Err(e);
            },
        };
        let MailParts { alternative_bodies, shared_embeddings, attachments } = parts;

        let mail = match self.build_mail(
            alternative_bodies,
            shared_embeddings,
            attachments,
            core_headers,
        ) {
            Ok(m) => m,
            Err(e) => {
                return Err(e);
            },
        };

        proof {
            assert(mail.body matches MailBody::Plain(bs) ==> bs.bodies.deep_view().len()
                == bs.bodies@.len());
            assert(mail.body matches MailBody::Mixed { body: bs, attachments: atts }
                ==> bs.bodies.deep_view().len() == bs.bodies@.len() && atts.deep_view().len()
                == atts@.len());
        }
        Ok((mail, envelop))
    }
}

} // verus!
