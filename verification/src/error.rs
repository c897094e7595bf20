//! The error data model: an immutable, type-erased, ownership-chained node.
//!
//! An [`ErrorValue`] is built once and never changed afterwards: new
//! information is added by wrapping it in a fresh node, never by mutating an
//! old one. The chain of causes is therefore finite and acyclic by
//! construction. In specifications an `ErrorValue` is seen as the sequence of
//! its [`ErrorNode`] descriptions, outermost first.

use vstd::prelude::*;

verus! {

/// The closed set of error categories.
#[derive(Clone, Copy, PartialEq, Eq, Structural, Debug)]
pub enum Kind {
    Io,
    Parse,
    Validation,
    Custom,
}

/// Positional attributes for diagnostics; carried only by `Parse` errors.
#[derive(Clone, Copy, PartialEq, Eq, Structural, Debug)]
pub struct SourceContext {
    pub line: u64,
    pub column: u64,
}

/// Payload identity of a terminal `Io` error built by [`ErrorValue::new`].
pub const ID_IO: u64 = 1;

/// Payload identity of a terminal `Parse` error built by [`ErrorValue::new`].
pub const ID_PARSE: u64 = 2;

/// Payload identity of a terminal `Validation` error built by [`ErrorValue::new`].
pub const ID_VALIDATION: u64 = 3;

/// Payload identity of a generic `Custom` error built by [`ErrorValue::new`].
pub const ID_CUSTOM: u64 = 4;

/// Identities at or above this value are reserved for external error types,
/// stamped through [`ErrorValue::from_external`]; each concrete external type
/// must use its own, stable value.
pub const EXTERNAL_ID_MIN: u64 = 5;

/// The concrete payload of an I/O failure.
#[derive(Debug)]
pub struct IoPayload {
    pub message: String,
}

/// The concrete payload of a parse failure.
#[derive(Debug)]
pub struct ParsePayload {
    pub message: String,
}

/// The concrete payload of a caller-detected invariant breach.
#[derive(Debug)]
pub struct ValidationPayload {
    pub message: String,
}

/// An opaque payload: a stable type identity plus a message. Both errors of
/// kind `Custom` and errors absorbed from external collaborators carry one.
#[derive(Debug)]
pub struct CustomPayload {
    pub type_id: u64,
    pub message: String,
}

/// The type-erased payload stored in a node. Which variant is present is
/// recovered through [`ErrorValue::downcast`], guarded by identity
/// comparison, never by unchecked casting.
#[derive(Debug)]
pub enum Payload {
    Io(IoPayload),
    Parse(ParsePayload),
    Validation(ValidationPayload),
    Custom(CustomPayload),
}

impl Payload {
    /// The identity that uniquely names the concrete shape of this payload.
    pub open spec fn type_id_spec(self) -> u64 {
        match self {
            Payload::Io(_) => ID_IO,
            Payload::Parse(_) => ID_PARSE,
            Payload::Validation(_) => ID_VALIDATION,
            Payload::Custom(p) => p.type_id,
        }
    }

    /// The message carried inside the payload.
    pub open spec fn message_spec(self) -> Seq<char> {
        match self {
            Payload::Io(p) => p.message@,
            Payload::Parse(p) => p.message@,
            Payload::Validation(p) => p.message@,
            Payload::Custom(p) => p.message@,
        }
    }

    /// Identities below `ID_CUSTOM` are reserved for the built-in payload
    /// shapes, so an opaque payload never impersonates one of them.
    pub open spec fn wf(self) -> bool {
        match self {
            Payload::Custom(p) => p.type_id >= ID_CUSTOM,
            _ => true,
        }
    }
}

/// The mathematical description of one link of a cause chain.
pub struct ErrorNode {
    pub kind: Kind,
    pub type_id: u64,
    pub message: Seq<char>,
    pub context: Option<SourceContext>,
    pub backtrace: Option<Seq<char>>,
}

/// An immutable, type-erased error node owning at most one prior error as
/// its cause.
#[derive(Debug)]
pub struct ErrorValue {
    pub(crate) kind: Kind,
    pub(crate) message: String,
    pub(crate) payload: Payload,
    pub(crate) context: Option<SourceContext>,
    pub(crate) backtrace: Option<String>,
    pub(crate) cause: Option<Box<ErrorValue>>,
}

/// The payload identity stamped on a node that [`ErrorValue::new`] or
/// [`ErrorValue::wrap`] builds for the given kind.
pub open spec fn builtin_id(kind: Kind) -> u64 {
    match kind {
        Kind::Io => ID_IO,
        Kind::Parse => ID_PARSE,
        Kind::Validation => ID_VALIDATION,
        Kind::Custom => ID_CUSTOM,
    }
}

impl ErrorValue {
    /// The description of this node alone, without its causes.
    pub closed spec fn node_view(self) -> ErrorNode {
        ErrorNode {
            kind: self.kind,
            type_id: self.payload.type_id_spec(),
            message: self.message@,
            context: self.context,
            backtrace: match self.backtrace {
                Some(s) => Some(s@),
                None => None,
            },
        }
    }

    /// The whole cause chain, outermost first; always at least one node.
    pub closed spec fn chain_view(self) -> Seq<ErrorNode>
        decreases self,
    {
        match self.cause {
            Some(c) => seq![self.node_view()] + c.chain_view(),
            None => seq![self.node_view()],
        }
    }

    /// Well-formedness: every node of the chain has a non-empty message that
    /// agrees with its payload, reserves built-in identities for built-in
    /// payloads, lets a built-in payload shape sit only under its own kind
    /// (an opaque payload may sit under any kind, as absorbed external
    /// errors do), and carries positional context only on `Parse` nodes.
    /// Only a terminal node can
    /// hold a call stack snapshot: snapshots are taken at construction of
    /// terminals and wrapping takes none, so the innermost captured
    /// snapshot, the one a rendering shows, is the root cause's.
    pub closed spec fn wf(self) -> bool
        decreases self,
    {
        &&& self.message@.len() > 0
        &&& self.payload.message_spec() == self.message@
        &&& self.payload.wf()
        &&& (self.context is Some ==> self.kind == Kind::Parse)
        &&& (self.cause is Some ==> self.backtrace is None)
        &&& (match self.payload {
            Payload::Io(_) => self.kind == Kind::Io,
            Payload::Parse(_) => self.kind == Kind::Parse,
            Payload::Validation(_) => self.kind == Kind::Validation,
            Payload::Custom(_) => true,
        })
        &&& (match self.cause {
            Some(c) => c.wf(),
            None => true,
        })
    }
}

impl View for ErrorValue {
    type V = Seq<ErrorNode>;

    open spec fn view(&self) -> Seq<ErrorNode> {
        self.chain_view()
    }
}

/// Every chain holds at least its own node.
pub proof fn lemma_chain_nonempty(e: ErrorValue)
    ensures
        e@.len() >= 1,
    decreases e,
{
    match e.cause {
        Some(c) => lemma_chain_nonempty(*c),
        None => {},
    }
}

/// In a well-formed chain every link carries a non-empty message, and no
/// link but the last — the root cause — holds a call stack snapshot: the
/// snapshot a rendering shows is the only one there can be.
pub proof fn lemma_wf_chain_view(e: ErrorValue)
    requires
        e.wf(),
    ensures
        forall|i: int| 0 <= i < e@.len() ==> (#[trigger] e@[i]).message.len() > 0,
        forall|i: int| 0 <= i < e@.len() - 1 ==> (#[trigger] e@[i]).backtrace is None,
    decreases e,
{
    match e.cause {
        Some(c) => {
            lemma_wf_chain_view(*c);
            assert(forall|i: int| 1 <= i < e@.len() ==> e@[i] == c@[i - 1]);
        },
        None => {},
    }
}

/// A terminal error produced by an external collaborator, carrying the least
/// the framework asks of one: a category, a stable type identity and a
/// textual message, plus positional context where the collaborator knows it.
pub struct ExternalError {
    pub kind: Kind,
    pub type_id: u64,
    pub message: String,
    pub context: Option<SourceContext>,
}

/// Relies on `std::backtrace::Backtrace::force_capture`: returns a textual
/// snapshot of the current call stack. Nothing further is assumed of the
/// text, which depends on the machine and the moment of the call.
#[verifier::external_body]
fn capture_backtrace_text() -> String {
    std::backtrace::Backtrace::force_capture().to_string()
}

impl ErrorValue {
    /// Builds a terminal node with no cause. The message must be non-empty;
    /// positional context is only meaningful on `Parse` errors. A call stack
    /// snapshot is taken exactly when `capture` is set.
    pub fn new(kind: Kind, message: String, context: Option<SourceContext>, capture: bool) -> (r:
        ErrorValue)
        requires
            message@.len() > 0,
            context is Some ==> kind == Kind::Parse,
        ensures
            r.wf(),
            r@.len() == 1,
            r@[0].kind == kind,
            r@[0].type_id == builtin_id(kind),
            r@[0].message == message@,
            r@[0].context == context,
            r@[0].backtrace is Some <==> capture,
    {
        let payload = match kind {
            Kind::Io => Payload::Io(IoPayload { message: message.clone() }),
            Kind::Parse => Payload::Parse(ParsePayload { message: message.clone() }),
            Kind::Validation => Payload::Validation(ValidationPayload { message: message.clone() }),
            Kind::Custom => Payload::Custom(
                CustomPayload { type_id: ID_CUSTOM, message: message.clone() },
            ),
        };
        let backtrace = if capture {
            Some(capture_backtrace_text())
        } else {
            None
        };
        ErrorValue { kind, message, payload, context, backtrace, cause: None }
    }

    /// Converts a terminal error of an external collaborator into an
    /// `ErrorValue` of the appropriate kind, stamping the external type's
    /// own identity so that the concrete origin can later be told apart.
    /// A call stack snapshot is taken exactly when `capture` is set.
    pub fn from_external(ext: ExternalError, capture: bool) -> (r: ErrorValue)
        requires
            ext.message@.len() > 0,
            ext.type_id >= EXTERNAL_ID_MIN,
            ext.context is Some ==> ext.kind == Kind::Parse,
        ensures
            r.wf(),
            r@.len() == 1,
            r@[0].kind == ext.kind,
            r@[0].type_id == ext.type_id,
            r@[0].message == ext.message@,
            r@[0].context == ext.context,
            r@[0].backtrace is Some <==> capture,
    {
        let payload = Payload::Custom(
            CustomPayload { type_id: ext.type_id, message: ext.message.clone() },
        );
        let backtrace = if capture {
            Some(capture_backtrace_text())
        } else {
            None
        };
        ErrorValue {
            kind: ext.kind,
            message: ext.message,
            payload,
            context: ext.context,
            backtrace,
            cause: None,
        }
    }

    /// Builds a node whose cause is `cause`; the new node becomes the
    /// outermost link and takes ownership of the whole prior chain, which it
    /// stores unchanged: the trailing links of the result are exactly the
    /// chain that was passed in. Wrapping captures no call stack of its own;
    /// a rendering shows the root cause's snapshot, the diagnostically
    /// relevant one.
    pub fn wrap(cause: ErrorValue, kind: Kind, message: String, context: Option<
        SourceContext,
    >) -> (r: ErrorValue)
        requires
            cause.wf(),
            message@.len() > 0,
            context is Some ==> kind == Kind::Parse,
        ensures
            r.wf(),
            r@.len() == cause@.len() + 1,
            r@[0].kind == kind,
            r@[0].type_id == builtin_id(kind),
            r@[0].message == message@,
            r@[0].context == context,
            r@[0].backtrace is None,
            r@.skip(1) == cause@,
    {
        let payload = match kind {
            Kind::Io => Payload::Io(IoPayload { message: message.clone() }),
            Kind::Parse => Payload::Parse(ParsePayload { message: message.clone() }),
            Kind::Validation => Payload::Validation(ValidationPayload { message: message.clone() }),
            Kind::Custom => Payload::Custom(
                CustomPayload { type_id: ID_CUSTOM, message: message.clone() },
            ),
        };
        let r = ErrorValue {
            kind,
            message,
            payload,
            context,
            backtrace: None,
            cause: Some(Box::new(cause)),
        };
        proof {
            assert(r@.skip(1) =~= cause@);
        }
        r
    }

    /// The outermost node's kind.
    pub fn kind(&self) -> (r: Kind)
        ensures
            r == self@[0].kind,
    {
        proof {
            lemma_chain_nonempty(*self);
        }
        self.kind
    }

    /// The outermost node's message.
    pub fn message(&self) -> (r: &str)
        ensures
            r@ == self@[0].message,
    {
        proof {
            lemma_chain_nonempty(*self);
        }
        self.message.as_str()
    }

    /// The identity of the concrete payload boxed into the outermost node.
    pub fn payload_type_id(&self) -> (r: u64)
        ensures
            r == self@[0].type_id,
    {
        proof {
            lemma_chain_nonempty(*self);
        }
        match &self.payload {
            Payload::Io(_) => ID_IO,
            Payload::Parse(_) => ID_PARSE,
            Payload::Validation(_) => ID_VALIDATION,
            Payload::Custom(p) => p.type_id,
        }
    }

    /// The outermost node's positional context, if any.
    pub fn context(&self) -> (r: Option<SourceContext>)
        ensures
            r == self@[0].context,
    {
        proof {
            lemma_chain_nonempty(*self);
        }
        self.context
    }

    /// The outermost node's captured call stack text, if one was taken.
    pub fn backtrace(&self) -> (r: Option<&str>)
        ensures
            r is Some <==> self@[0].backtrace is Some,
            r matches Some(s) ==> self@[0].backtrace == Some(s@),
    {
        proof {
            lemma_chain_nonempty(*self);
        }
        match &self.backtrace {
            Some(s) => Some(s.as_str()),
            None => None,
        }
    }

    /// A borrowed view of the immediate cause, or `None` on a terminal node.
    /// Walking the chain this way transfers no ownership.
    pub fn source(&self) -> (r: Option<&ErrorValue>)
        requires
            self.wf(),
        ensures
            r is Some <==> self@.len() > 1,
            r matches Some(c) ==> c.wf() && c@ == self@.skip(1),
    {
        match &self.cause {
            Some(c) => {
                proof {
                    lemma_chain_nonempty(**c);
                    assert(self@.skip(1) =~= c@);
                }
                Some(&**c)
            },
            None => None,
        }
    }

    /// Attempts to recover the original concrete payload of shape `T` from
    /// the outermost node only. The query succeeds exactly when the node's
    /// payload identity equals `T`'s own; on a mismatch it returns `None`,
    /// never a failure.
    pub fn downcast<T: Recover>(&self) -> (r: Option<&T>)
        requires
            self.wf(),
        ensures
            r is Some <==> self@[0].type_id == T::id_spec(),
            r matches Some(p) ==> p.message_of() == self@[0].message,
    {
        proof {
            lemma_chain_nonempty(*self);
            assert(self@[0] == self.node_view());
        }
        T::extract(&self.payload)
    }

    /// Attempts to recover the opaque payload stamped with the given
    /// identity from the outermost node only; identities below `ID_CUSTOM`
    /// belong to the built-in payload shapes and never match an opaque one.
    pub fn downcast_custom(&self, type_id: u64) -> (r: Option<&CustomPayload>)
        requires
            self.wf(),
        ensures
            r is Some <==> (type_id >= ID_CUSTOM && self@[0].type_id == type_id),
            r matches Some(p) ==> p.type_id == type_id && p.message@ == self@[0].message,
    {
        proof {
            lemma_chain_nonempty(*self);
            assert(self@[0] == self.node_view());
        }
        match &self.payload {
            Payload::Custom(p) => if p.type_id == type_id {
                Some(p)
            } else {
                None
            },
            _ => None,
        }
    }

    /// Walks the chain to the innermost node, the one with no cause.
    pub fn root_cause(&self) -> (r: &ErrorValue)
        requires
            self.wf(),
        ensures
            r.wf(),
            r@.len() == 1,
            r@[0] == self@.last(),
        decreases *self,
    {
        match &self.cause {
            Some(c) => {
                proof {
                    lemma_chain_nonempty(**c);
                }
                c.root_cause()
            },
            None => self,
        }
    }
}

/// A concrete payload shape that [`ErrorValue::downcast`] can recover from a
/// type-erased node, guarded by its stable identity.
pub trait Recover: Sized {
    /// The stable identity of this payload shape.
    spec fn id_spec() -> u64;

    /// The message the payload carries.
    spec fn message_of(self) -> Seq<char>;

    /// Extracts a borrowed payload of this shape, exactly when the stored
    /// payload's identity is this shape's own.
    fn extract(p: &Payload) -> (r: Option<&Self>)
        requires
            p.wf(),
        ensures
            r is Some <==> p.type_id_spec() == Self::id_spec(),
            r matches Some(q) ==> q.message_of() == p.message_spec(),
    ;
}

impl Recover for IoPayload {
    open spec fn id_spec() -> u64 {
        ID_IO
    }

    open spec fn message_of(self) -> Seq<char> {
        self.message@
    }

    fn extract(p: &Payload) -> (r: Option<&Self>) {
        match p {
            Payload::Io(q) => Some(q),
            _ => None,
        }
    }
}

impl Recover for ParsePayload {
    open spec fn id_spec() -> u64 {
        ID_PARSE
    }

    open spec fn message_of(self) -> Seq<char> {
        self.message@
    }

    fn extract(p: &Payload) -> (r: Option<&Self>) {
        match p {
            Payload::Parse(q) => Some(q),
            _ => None,
        }
    }
}

impl Recover for ValidationPayload {
    open spec fn id_spec() -> u64 {
        ID_VALIDATION
    }

    open spec fn message_of(self) -> Seq<char> {
        self.message@
    }

    fn extract(p: &Payload) -> (r: Option<&Self>) {
        match p {
            Payload::Validation(q) => Some(q),
            _ => None,
        }
    }
}

impl Clone for IoPayload {
    fn clone(&self) -> (r: Self)
        ensures
            r == *self,
    {
        IoPayload { message: self.message.clone() }
    }
}

impl Clone for ParsePayload {
    fn clone(&self) -> (r: Self)
        ensures
            r == *self,
    {
        ParsePayload { message: self.message.clone() }
    }
}

impl Clone for ValidationPayload {
    fn clone(&self) -> (r: Self)
        ensures
            r == *self,
    {
        ValidationPayload { message: self.message.clone() }
    }
}

impl Clone for CustomPayload {
    fn clone(&self) -> (r: Self)
        ensures
            r == *self,
    {
        CustomPayload { type_id: self.type_id, message: self.message.clone() }
    }
}

impl Clone for Payload {
    fn clone(&self) -> (r: Self)
        ensures
            r == *self,
    {
        match self {
            Payload::Io(p) => Payload::Io(p.clone()),
            Payload::Parse(p) => Payload::Parse(p.clone()),
            Payload::Validation(p) => Payload::Validation(p.clone()),
            Payload::Custom(p) => Payload::Custom(p.clone()),
        }
    }
}

impl Clone for ErrorValue {
    /// A clone is indistinguishable from the value it was taken of; in
    /// particular both render identically and downcast identically.
    fn clone(&self) -> (r: Self)
        ensures
            r == *self,
        decreases *self,
    {
        ErrorValue {
            kind: self.kind,
            message: self.message.clone(),
            payload: self.payload.clone(),
            context: self.context,
            backtrace: match &self.backtrace {
                Some(s) => Some(s.clone()),
                None => None,
            },
            cause: match &self.cause {
                Some(c) => Some(Box::new((**c).clone())),
                None => None,
            },
        }
    }
}

} // verus!
