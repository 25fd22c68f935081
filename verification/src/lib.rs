//! Composition of a single outbound mail message.
//!
//! The crate turns a template identifier, a serializable payload and a set of
//! addressing fields into a fully structured multipart message plus a
//! transport envelope.  Three mechanisms carry the weight:
//!
//! * a *resource side-channel*: an explicit, write-only collector that lets a
//!   template engine emit inline embeddings and attachments while it renders,
//!   without ever seeing the mail data model or the typed payload
//!   (see [`resource::SideChannel`]);
//! * a *MIME assembly* step that nests the rendered alternative bodies, the
//!   shared embeddings and the attachments into one deterministic part tree
//!   (see [`mail::Builder`] and [`compositor::Compositor::build_mail`]);
//! * an *execution context* abstraction separating file loading and
//!   off-the-critical-path execution from the composition logic
//!   (see [`context`]).

pub mod compositor;
pub mod context;
pub mod error;
pub mod headers;
pub mod mail;
pub mod resource;
pub mod send_data;
pub mod template;
