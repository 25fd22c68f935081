use std::cell::Cell;
use std::rc::Rc;

use mail_composition::compositor::Compositor;
use mail_composition::error::ComposeError;
use mail_composition::headers::{Header, Mailbox};
use mail_composition::mail::{Mail, MailBody, MultipartKind};
use mail_composition::resource::{Attachment, ContentId, ContentIdGen, MediaType, Resource, SideChannel};
use mail_composition::send_data::MailSendData;
use mail_composition::template::{
    BodyPart, MailParts, SerializeOnly, SerializePayload, TemplateEngine,
};

fn media_type(s: &str) -> MediaType {
    MediaType::try_new(s.to_string()).unwrap()
}

/// A generator whose clones start from the clone's current count; the
/// compositor clones the context per composition, so every call starts
/// fresh.
#[derive(Clone)]
struct FreshGen {
    next: u64,
}

impl ContentIdGen for FreshGen {
    fn new_content_id(&mut self) -> ContentId {
        self.next += 1;
        ContentId::new(format!("cid-{}", self.next))
    }
}

/// A generator whose clones share one counter, deliberately reusing the
/// same identifier stream across compositions.
#[derive(Clone)]
struct SharedGen {
    next: Rc<Cell<u64>>,
}

impl ContentIdGen for SharedGen {
    fn new_content_id(&mut self) -> ContentId {
        self.next.set(self.next.get() + 1);
        ContentId::new(format!("cid-{}", self.next.get()))
    }
}

struct NotePayload {
    note: String,
}

impl SerializePayload for NotePayload {
    fn serialize_payload(&self) -> Result<Vec<u8>, String> {
        Ok(self.note.clone().into_bytes())
    }
}

/// Renders a text and an html body, registers one image embedding through
/// the side-channel, and optionally one attachment; counts its invocations.
struct PictureEngine {
    attach: bool,
    fail: bool,
    called: Rc<Cell<u32>>,
}

impl<G: ContentIdGen> TemplateEngine<NotePayload, G> for PictureEngine {
    fn render(
        &self,
        scope: &mut SideChannel<G>,
        _template_id: &str,
        data: &SerializeOnly<NotePayload>,
    ) -> Result<MailParts, String> {
        self.called.set(self.called.get() + 1);
        if self.fail {
            return Err("missing template".to_string());
        }
        let serialized = data.serialize()?;
        let cid = scope.register_embedding(Resource::new(media_type("image/png"), vec![137, 80, 78, 71]));
        let text = BodyPart {
            resource: Resource::new(media_type("text/plain"), serialized.clone()),
        };
        let html = BodyPart {
            resource: Resource::new(
                media_type("text/html"),
                format!("<img src=\"cid:{}\">", cid.as_str()).into_bytes(),
            ),
        };
        if self.attach {
            scope.register_attachment(Attachment {
                resource: Resource::new(media_type("application/pdf"), vec![37, 80, 68, 70]),
                file_name: Some("invoice.pdf".to_string()),
            });
        }
        Ok(MailParts {
            alternative_bodies: vec![text, html],
            shared_embeddings: Vec::new(),
            attachments: Vec::new(),
        })
    }
}

fn request(subject: &str, sender: Option<&str>) -> MailSendData<NotePayload> {
    let sender = sender.map(|s| Mailbox::try_new(s.to_string()).unwrap());
    let from = vec![Mailbox::try_new("a@example.com".to_string()).unwrap()];
    let to = vec![Mailbox::try_new("b@example.com".to_string()).unwrap()];
    MailSendData::new(
        sender,
        from,
        to,
        subject.to_string(),
        "greeting".to_string(),
        NotePayload { note: "hello".to_string() },
    )
}

fn engine_compositor(attach: bool, fail: bool) -> (Compositor<PictureEngine, FreshGen>, Rc<Cell<u32>>) {
    let called = Rc::new(Cell::new(0));
    let engine = PictureEngine { attach, fail, called: called.clone() };
    (Compositor::new(engine, FreshGen { next: 0 }), called)
}

fn embedding_cids(mail: &Mail) -> Vec<String> {
    let structure = match &mail.body {
        MailBody::Plain(bs) => bs,
        MailBody::Mixed { body, .. } => body,
    };
    structure.embeddings.iter().map(|e| e.cid.as_str().to_string()).collect()
}

#[test]
fn composes_alternative_message_without_attachments() {
    let (compositor, _) = engine_compositor(false, false);
    let (mail, envelop) = compositor.compose_mail(request("Hi", None)).unwrap();

    assert_eq!(mail.kind(), MultipartKind::Related);
    assert_eq!(mail.headers.len(), 3);
    match &mail.body {
        MailBody::Plain(bs) => {
            assert_eq!(bs.bodies.len(), 2);
            assert_eq!(bs.bodies[0].resource.media_type.as_str(), "text/plain");
            assert_eq!(bs.bodies[1].resource.media_type.as_str(), "text/html");
            assert_eq!(bs.embeddings.len(), 1);
            assert_eq!(bs.embeddings[0].cid.as_str(), "cid-1");
            let html = String::from_utf8(bs.bodies[1].resource.data.clone()).unwrap();
            assert!(html.contains("cid:cid-1"));
        }
        MailBody::Mixed { .. } => panic!("no attachments were produced, so no mixed wrapping"),
    }
    assert_eq!(envelop.sender().address(), "a@example.com");
    assert_eq!(envelop.to().len(), 1);
    assert_eq!(envelop.to()[0].address(), "b@example.com");
}

#[test]
fn composes_mixed_message_with_attachment() {
    let (compositor, _) = engine_compositor(true, false);
    let (mail, _) = compositor.compose_mail(request("Hi", None)).unwrap();

    assert_eq!(mail.kind(), MultipartKind::Mixed);
    // Headers appear only on the outer structure.
    assert_eq!(mail.headers.len(), 3);
    match &mail.body {
        MailBody::Mixed { body, attachments } => {
            // The inner alternative structure is identical to the
            // attachment-free shape.
            assert_eq!(body.bodies.len(), 2);
            assert_eq!(body.bodies[0].resource.media_type.as_str(), "text/plain");
            assert_eq!(body.bodies[1].resource.media_type.as_str(), "text/html");
            assert_eq!(body.embeddings.len(), 1);
            assert_eq!(attachments.len(), 1);
            assert_eq!(attachments[0].resource.media_type.as_str(), "application/pdf");
            assert_eq!(attachments[0].file_name.as_deref(), Some("invoice.pdf"));
        }
        MailBody::Plain(_) => panic!("one attachment was produced, so the outer part is mixed"),
    }
}

#[test]
fn sender_header_present_iff_supplied() {
    let (compositor, _) = engine_compositor(false, false);
    let (mail, envelop) = compositor
        .compose_mail(request("Hi", Some("boss@example.com")))
        .unwrap();
    assert_eq!(mail.headers.len(), 4);
    match mail.headers.get(3) {
        Header::Sender(m) => assert_eq!(m.address(), "boss@example.com"),
        _ => panic!("the fourth header should be the sender"),
    }
    assert_eq!(envelop.sender().address(), "boss@example.com");

    let (compositor, _) = engine_compositor(false, false);
    let (mail, _) = compositor.compose_mail(request("Hi", None)).unwrap();
    assert_eq!(mail.headers.len(), 3);
}

#[test]
fn invalid_subject_fails_before_engine_runs() {
    let (compositor, called) = engine_compositor(false, false);
    let r = compositor.compose_mail(request("Hi\u{7}", None));
    assert!(matches!(r, Err(ComposeError::HeaderValidation)));
    assert_eq!(called.get(), 0);
}

#[test]
fn engine_error_is_wrapped_with_stage_label() {
    let (compositor, called) = engine_compositor(false, true);
    let r = compositor.compose_mail(request("Hi", None));
    match r {
        Err(ComposeError::EngineFailure { stage, cause }) => {
            assert_eq!(stage, "failure in template engine");
            assert_eq!(cause, "missing template");
        }
        _ => panic!("a failing engine must surface as a wrapped engine failure"),
    }
    assert_eq!(called.get(), 1);
}

#[test]
fn sequential_compositions_start_identifier_streams_fresh() {
    let (compositor, _) = engine_compositor(false, false);
    let (first, _) = compositor.compose_mail(request("Hi", None)).unwrap();
    let (second, _) = compositor.compose_mail(request("Hi again", None)).unwrap();
    // Each call clones the generator anew: no leak, no continued counting.
    assert_eq!(embedding_cids(&first), vec!["cid-1".to_string()]);
    assert_eq!(embedding_cids(&second), vec!["cid-1".to_string()]);
}

#[test]
fn deliberately_shared_generator_keeps_counting() {
    let called = Rc::new(Cell::new(0));
    let engine = PictureEngine { attach: false, fail: false, called };
    let gen = SharedGen { next: Rc::new(Cell::new(0)) };
    let compositor = Compositor::new(engine, gen);
    let (first, _) = compositor.compose_mail(request("Hi", None)).unwrap();
    let (second, _) = compositor.compose_mail(request("Hi again", None)).unwrap();
    assert_eq!(embedding_cids(&first), vec!["cid-1".to_string()]);
    assert_eq!(embedding_cids(&second), vec!["cid-2".to_string()]);
}
