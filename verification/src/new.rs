//! Error values and the three ways to build one.

use crate::fmt::Flags;
use crate::model::{first_of_type, ErrorModel, MessageModel, TypeTag};
use vstd::prelude::*;
use vstd::string::StringExecFns;

verus! {

/// What std prints for a string under `{:?}`: the string in double quotes,
/// with the characters escaped that need it.
pub uninterp spec fn debug_of_str(s: Seq<char>) -> Seq<char>;

/// The model of a message that is plain text: it reads the same however it
/// is asked.
pub open spec fn text_message(s: Seq<char>) -> MessageModel {
    MessageModel { top: s, full: s, debug: debug_of_str(s) }
}

/// The model of a bare string turned into a failure.
pub open spec fn string_payload(s: Seq<char>) -> ErrorModel {
    ErrorModel::Wrapper { type_tag: TypeTag::StringPayload, message: text_message(s), cause: None }
}

/// The model of an error value used as a message: it reads as the value
/// does when it is printed by itself.
pub open spec fn value_message(e: ErrorModel) -> MessageModel {
    MessageModel { top: e.plain(), full: e.plain(), debug: e.debug() }
}

/// Calls `<str as Debug>::fmt` through `format!`. Nothing is proved of it:
/// the contract only gives the text that std produces a name.
#[verifier::external_body]
fn debug_str(s: &str) -> (r: String)
    ensures
        r@ == debug_of_str(s@),
{
    format!("{:?}", s)
}

/// The text of a message: what it prints when it is asked for its own
/// immediate text, what it prints by default, and what it prints for
/// debugging.
///
/// A message that is plain text prints the same in the first two cases. One
/// made from a type that by default prints more than its own text (a part
/// of its own chain of causes, say) holds that longer text in `full`.
#[derive(Debug, PartialEq, Eq)]
pub struct Message {
    pub top: String,
    pub full: String,
    pub debug: String,
}

impl View for Message {
    type V = MessageModel;

    open spec fn view(&self) -> MessageModel {
        MessageModel { top: self.top@, full: self.full@, debug: self.debug@ }
    }
}

/// An error value: a message with the failure that caused it, or a node
/// that hides the value it wraps from inspection.
///
/// A failure of a type defined elsewhere is written as a `Wrapper` with a
/// `TypeTag::Foreign` tag, the texts it prints and its cause.
#[derive(Debug, PartialEq, Eq)]
pub enum ErrorValue {
    Wrapper { type_tag: TypeTag, message: Message, cause: Option<Box<ErrorValue>> },
    Opaque { hidden: Box<ErrorValue> },
}

impl ErrorValue {
    /// The mathematical value that this error value stands for.
    pub open spec fn model(self) -> ErrorModel
        decreases self,
    {
        match self {
            ErrorValue::Wrapper { type_tag, message, cause } => ErrorModel::Wrapper {
                type_tag,
                message: message@,
                cause: match cause {
                    Some(c) => Some(Box::new(c.model())),
                    None => None,
                },
            },
            ErrorValue::Opaque { hidden } => ErrorModel::Opaque {
                hidden: Box::new(hidden.model()),
            },
        }
    }

    /// The cause that this value reports: the one it was built with for a
    /// `Wrapper`, none for an `Opaque`, whatever it hides.
    pub fn source(&self) -> (r: Option<&ErrorValue>)
        ensures
            view_of(r) == self@.source(),
    {
        match self {
            ErrorValue::Wrapper { cause: Some(c), .. } => Some(&**c),
            _ => None,
        }
    }

    /// Whether this value is of the kind `tag`. An `Opaque` is of none.
    pub fn has_type(&self, tag: TypeTag) -> (r: bool)
        ensures
            r == self@.has_type(tag),
    {
        match self {
            ErrorValue::Wrapper { type_tag, .. } => *type_tag == tag,
            ErrorValue::Opaque { .. } => false,
        }
    }
}

impl View for ErrorValue {
    type V = ErrorModel;

    open spec fn view(&self) -> ErrorModel {
        self.model()
    }
}

/// The model of the value behind an optional reference.
pub open spec fn view_of(r: Option<&ErrorValue>) -> Option<ErrorModel> {
    match r {
        Some(e) => Some(e@),
        None => None,
    }
}

/// Builds an error value that has a message and no cause.
pub fn new(message: Message) -> (r: ErrorValue)
    ensures
        r@ == (ErrorModel::Wrapper {
            type_tag: TypeTag::Wrapper,
            message: message@,
            cause: None,
        }),
        r@.source() is None,
        r@.chain() == seq![r@],
        r@.plain() == message@.full,
        forall|flags: Flags| !flags.expand ==> #[trigger] r@.rendering(flags) == message@.full,
{
    ErrorValue::Wrapper { type_tag: TypeTag::Wrapper, message, cause: None }
}

/// Builds an error value that has a message and `cause` as its cause.
pub fn wrap(message: Message, cause: ErrorValue) -> (r: ErrorValue)
    ensures
        r@ == (ErrorModel::Wrapper {
            type_tag: TypeTag::Wrapper,
            message: message@,
            cause: Some(Box::new(cause@)),
        }),
        r@.source() == Some(cause@),
        r@.chain() == seq![r@] + cause@.chain(),
        r@.plain() == message@.full,
        forall|flags: Flags| !flags.expand ==> #[trigger] r@.rendering(flags) == message@.full,
{
    ErrorValue::Wrapper { type_tag: TypeTag::Wrapper, message, cause: Some(Box::new(cause)) }
}

/// Wraps `err` so that it reports no cause and is of no kind, and is still
/// printed as `err` is.
pub fn opaque(err: ErrorValue) -> (r: ErrorValue)
    ensures
        r@ == (ErrorModel::Opaque { hidden: Box::new(err@) }),
        r@.source() is None,
        r@.chain() == seq![r@],
        forall|tag: TypeTag| !#[trigger] r@.contains(tag),
        forall|flags: Flags| #[trigger] r@.rendering(flags) == err@.rendering(flags),
{
    let r = ErrorValue::Opaque { hidden: Box::new(err) };
    proof {
        assert forall|tag: TypeTag| !#[trigger] r@.contains(tag) by {
            reveal_with_fuel(first_of_type, 2);
        }
    }
    r
}

impl vstd::std_specs::convert::FromSpecImpl<&str> for Message {
    /// Two strings with the same text are not known to be one value, so
    /// what `from` returns is stated there, over the view, and not here.
    open spec fn obeys_from_spec() -> bool {
        false
    }

    open spec fn from_spec(s: &str) -> Message {
        arbitrary()
    }
}

impl From<&str> for Message {
    /// A message that is the plain text `s`.
    fn from(s: &str) -> (m: Message)
        ensures
            m@ == text_message(s@),
    {
        Message { top: s.to_owned(), full: s.to_owned(), debug: debug_str(s) }
    }
}

impl vstd::std_specs::convert::FromSpecImpl<String> for Message {
    /// Two strings with the same text are not known to be one value, so
    /// what `from` returns is stated there, over the view, and not here.
    open spec fn obeys_from_spec() -> bool {
        false
    }

    open spec fn from_spec(s: String) -> Message {
        arbitrary()
    }
}

impl From<String> for Message {
    /// A message that is the plain text `s`.
    fn from(s: String) -> (m: Message)
        ensures
            m@ == text_message(s@),
    {
        let debug = debug_str(s.as_str());
        Message { top: s.clone(), full: s, debug }
    }
}

impl vstd::std_specs::convert::FromSpecImpl<ErrorValue> for Message {
    /// Two strings with the same text are not known to be one value, so
    /// what `from` returns is stated there, over the view, and not here.
    open spec fn obeys_from_spec() -> bool {
        false
    }

    open spec fn from_spec(e: ErrorValue) -> Message {
        arbitrary()
    }
}

impl From<ErrorValue> for Message {
    /// An error value used as a message. It reads as the value does when it
    /// is printed by itself: its top message, without its causes.
    fn from(e: ErrorValue) -> (m: Message)
        ensures
            m@ == value_message(e@),
    {
        let text = e.render(&Flags::default());
        Message { top: text.clone(), full: text, debug: e.debug() }
    }
}

impl vstd::std_specs::convert::FromSpecImpl<&str> for ErrorValue {
    /// Two strings with the same text are not known to be one value, so
    /// what `from` returns is stated there, over the view, and not here.
    open spec fn obeys_from_spec() -> bool {
        false
    }

    open spec fn from_spec(s: &str) -> ErrorValue {
        arbitrary()
    }
}

impl From<&str> for ErrorValue {
    /// A bare string as a failure: its text is `s`, it has no cause, and it
    /// is of the kind `TypeTag::StringPayload`.
    fn from(s: &str) -> (r: ErrorValue)
        ensures
            r@ == string_payload(s@),
    {
        ErrorValue::Wrapper {
            type_tag: TypeTag::StringPayload,
            message: Message::from(s),
            cause: None,
        }
    }
}

impl vstd::std_specs::convert::FromSpecImpl<String> for ErrorValue {
    /// Two strings with the same text are not known to be one value, so
    /// what `from` returns is stated there, over the view, and not here.
    open spec fn obeys_from_spec() -> bool {
        false
    }

    open spec fn from_spec(s: String) -> ErrorValue {
        arbitrary()
    }
}

impl From<String> for ErrorValue {
    /// A bare string as a failure: its text is `s`, it has no cause, and it
    /// is of the kind `TypeTag::StringPayload`.
    fn from(s: String) -> (r: ErrorValue)
        ensures
            r@ == string_payload(s@),
    {
        ErrorValue::Wrapper {
            type_tag: TypeTag::StringPayload,
            message: Message::from(s),
            cause: None,
        }
    }
}

} // verus!
