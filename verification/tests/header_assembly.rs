use mail_composition::compositor::Compositor;
use mail_composition::error::ComposeError;
use mail_composition::headers::{Header, Mailbox};
use mail_composition::resource::{ContentId, ContentIdGen};
use mail_composition::send_data::{EnvelopData, MailSendData};

#[derive(Clone)]
struct FreshGen {
    next: u64,
}

impl ContentIdGen for FreshGen {
    fn new_content_id(&mut self) -> ContentId {
        self.next += 1;
        ContentId::new(format!("cid-{}", self.next))
    }
}

fn compositor() -> Compositor<(), FreshGen> {
    Compositor::new((), FreshGen { next: 0 })
}

fn mailbox(addr: &str) -> Mailbox {
    Mailbox::try_new(addr.to_string()).unwrap()
}

fn request(sender: Option<&str>, from: Vec<&str>, subject: &str) -> MailSendData<u8> {
    MailSendData::new(
        sender.map(mailbox),
        from.into_iter().map(mailbox).collect(),
        vec![mailbox("to1@example.com"), mailbox("to2@example.com")],
        subject.to_string(),
        "welcome".to_string(),
        7u8,
    )
}

#[test]
fn headers_come_in_fixed_order_without_sender() {
    let (headers, payload, template_id) = compositor()
        .process_mail_send_data(request(None, vec!["a@example.com"], "Greetings"))
        .unwrap();
    assert_eq!(payload, 7u8);
    assert_eq!(template_id, "welcome");
    assert_eq!(headers.len(), 3);
    match headers.get(0) {
        Header::FromList(v) => {
            assert_eq!(v.len(), 1);
            assert_eq!(v[0].address(), "a@example.com");
        }
        _ => panic!("the first header should be the author list"),
    }
    match headers.get(1) {
        Header::ToList(v) => {
            assert_eq!(v.len(), 2);
            assert_eq!(v[0].address(), "to1@example.com");
            assert_eq!(v[1].address(), "to2@example.com");
        }
        _ => panic!("the second header should be the recipient list"),
    }
    match headers.get(2) {
        Header::Subject(u) => assert_eq!(u.as_str(), "Greetings"),
        _ => panic!("the third header should be the subject"),
    }
}

#[test]
fn sender_header_appears_exactly_when_supplied() {
    let (headers, _, _) = compositor()
        .process_mail_send_data(request(
            Some("boss@example.com"),
            vec!["a@example.com", "b@example.com"],
            "Greetings",
        ))
        .unwrap();
    assert_eq!(headers.len(), 4);
    match headers.get(3) {
        Header::Sender(m) => assert_eq!(m.address(), "boss@example.com"),
        _ => panic!("the fourth header should be the sender"),
    }
}

#[test]
fn multiple_from_mailboxes_keep_their_order() {
    let (headers, _, _) = compositor()
        .process_mail_send_data(request(
            None,
            vec!["one@example.com", "two@example.com", "three@example.com"],
            "Greetings",
        ))
        .unwrap();
    match headers.get(0) {
        Header::FromList(v) => {
            let addrs: Vec<&str> = v.iter().map(|m| m.address()).collect();
            assert_eq!(addrs, vec!["one@example.com", "two@example.com", "three@example.com"]);
        }
        _ => panic!("the first header should be the author list"),
    }
}

#[test]
fn control_character_in_subject_fails_validation() {
    let r = compositor().process_mail_send_data(request(None, vec!["a@example.com"], "Hi\u{1b}"));
    assert!(matches!(r, Err(ComposeError::HeaderValidation)));
}

#[test]
fn envelope_defaults_to_first_from_mailbox() {
    let send_data = request(None, vec!["first@example.com", "second@example.com"], "Hi");
    let envelop = EnvelopData::from_send_data(&send_data);
    assert_eq!(envelop.sender().address(), "first@example.com");
    let to: Vec<&str> = envelop.to().iter().map(|m| m.address()).collect();
    assert_eq!(to, vec!["to1@example.com", "to2@example.com"]);
}

#[test]
fn envelope_prefers_explicit_sender() {
    let send_data = request(Some("boss@example.com"), vec!["first@example.com"], "Hi");
    let envelop = EnvelopData::from_send_data(&send_data);
    assert_eq!(envelop.sender().address(), "boss@example.com");
}
