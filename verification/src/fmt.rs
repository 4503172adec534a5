//! Printing an error value and its chain of causes.
//!
//! How much is printed is the caller's choice, made with [`Flags`]: the top
//! message alone, or the whole chain, the messages joined in one line or
//! set one under the other, and with or without a limit on how many causes
//! are shown.

use crate::iter::Iter;
use crate::model::{depth_from, ErrorModel, MessageModel, TypeTag};
use crate::new::{string_payload, view_of, ErrorValue, Message};
use vstd::prelude::*;
use vstd::string::StringExecFns;

verus! {

/// How the messages of a chain are joined.
#[derive(Clone, Copy, Debug, PartialEq, Eq, Structural)]
pub enum JoinerStyle {
    /// On one line: `": "` stands between two messages.
    Inline,
    /// One under the other: `"\nCaused by: "` stands between two messages.
    Block,
}

/// What one call of the renderer is asked for.
#[derive(Clone, Copy, Debug)]
pub struct Flags {
    /// Print the chain of causes, not the top message alone.
    pub expand: bool,
    /// What stands between two messages of the chain.
    pub joiner: JoinerStyle,
    /// How many causes are printed at most after the top message; `None`
    /// for all of them.
    pub depth_limit: Option<usize>,
    /// Asks a message for its own immediate text only. The renderer sets it
    /// for every message of a chain that it expands.
    pub suppress_self_chain: bool,
}

impl Default for Flags {
    /// No flag set: the top message alone, as it prints by default.
    fn default() -> (flags: Flags)
        ensures
            flags == plain_flags(),
    {
        Flags {
            expand: false,
            joiner: JoinerStyle::Inline,
            depth_limit: None,
            suppress_self_chain: false,
        }
    }
}

/// The flags with none set.
pub open spec fn plain_flags() -> Flags {
    Flags {
        expand: false,
        joiner: JoinerStyle::Inline,
        depth_limit: None,
        suppress_self_chain: false,
    }
}

/// The text that stands between two messages.
pub open spec fn joiner_text(style: JoinerStyle) -> Seq<char> {
    match style {
        JoinerStyle::Inline => ": "@,
        JoinerStyle::Block => "\nCaused by: "@,
    }
}

/// A depth limit as a number of causes that may still be printed.
pub open spec fn budget(depth_limit: Option<usize>) -> Option<nat> {
    match depth_limit {
        Some(n) => Some(n as nat),
        None => None,
    }
}

/// The budget that is left once one more cause has been printed.
pub open spec fn lower(limit: Option<nat>) -> Option<nat> {
    match limit {
        Some(n) => Some((n - 1) as nat),
        None => None,
    }
}

/// What an expanded rendering prints after a message whose cause is `next`:
/// nothing where there is no cause or the budget is used up; else the
/// joiner and the expanded rendering of the cause under the lowered budget.
pub open spec fn continued(next: Option<ErrorModel>, joiner: Seq<char>, limit: Option<nat>) -> Seq<
    char,
> {
    match next {
        Some(c) => if limit == Some(0nat) {
            Seq::empty()
        } else {
            joiner + c.expanded(joiner, lower(limit))
        },
        None => Seq::empty(),
    }
}

impl ErrorModel {
    /// The rendering that prints the top message alone, as it prints by
    /// default. An opaque node prints what it hides.
    pub open spec fn plain(self) -> Seq<char> {
        self.head().full
    }

    /// The rendering that prints the chain: the own text of the top message,
    /// and for each cause, while the budget lasts, the joiner and the own
    /// text of its message. An opaque node prints what it hides, under the
    /// budget that is left when it is reached.
    pub open spec fn expanded(self, joiner: Seq<char>, limit: Option<nat>) -> Seq<char>
        decreases self,
    {
        match self {
            ErrorModel::Opaque { hidden } => hidden.expanded(joiner, limit),
            ErrorModel::Wrapper { message, cause: Some(c), .. } => if limit == Some(0nat) {
                message.top
            } else {
                message.top + (joiner + c.expanded(joiner, lower(limit)))
            },
            ErrorModel::Wrapper { message, cause: None, .. } => message.top,
        }
    }

    /// What the renderer prints for this node under `flags`. Without
    /// `expand` no other flag matters.
    pub open spec fn rendering(self, flags: Flags) -> Seq<char> {
        if flags.expand {
            self.expanded(joiner_text(flags.joiner), budget(flags.depth_limit))
        } else {
            self.plain()
        }
    }

    /// What is printed for debugging, in one line: the debug text of the
    /// message, and for a node built by `wrap` that text and the debug
    /// rendering of the cause as a pair in round brackets. An opaque node
    /// prints what it hides.
    pub open spec fn debug(self) -> Seq<char>
        decreases self,
    {
        match self {
            ErrorModel::Opaque { hidden } => hidden.debug(),
            ErrorModel::Wrapper { type_tag, message, cause: Some(c) } => if type_tag
                == TypeTag::Wrapper {
                "("@ + message.debug + ", "@ + c.debug() + ")"@
            } else {
                message.debug
            },
            ErrorModel::Wrapper { message, cause: None, .. } => message.debug,
        }
    }
}

/// An expanded rendering is the own text of the message that heads it and
/// what continues it; an opaque node is rendered as the transparent node
/// under it.
pub proof fn lemma_expanded_unfold(e: ErrorModel, joiner: Seq<char>, limit: Option<nat>)
    ensures
        e.expanded(joiner, limit) == e.head().top + continued(
            e.unveiled().source(),
            joiner,
            limit,
        ),
        e.expanded(joiner, limit) == e.unveiled().expanded(joiner, limit),
        e.head() == e.unveiled().head(),
    decreases e,
{
    match e {
        ErrorModel::Opaque { hidden } => {
            lemma_expanded_unfold(*hidden, joiner, limit);
        },
        ErrorModel::Wrapper { .. } => {},
    }
}

impl Message {
    /// Appends the message to `out`: its own immediate text where `flags`
    /// asks for that, else what it prints by default.
    pub fn fmt(&self, flags: &Flags, out: &mut String)
        ensures
            final(out)@ == old(out)@ + self@.render(flags.suppress_self_chain),
    {
        if flags.suppress_self_chain {
            out.append(self.top.as_str());
        } else {
            out.append(self.full.as_str());
        }
    }
}

/// An error value seen as the renderer sees it: the message that heads the
/// rendering and the cause with which the rendering goes on.
pub struct WrapperRef<'a> {
    message: &'a Message,
    cause: Option<&'a ErrorValue>,
}

impl<'a> WrapperRef<'a> {
    /// The message that heads the rendering.
    pub closed spec fn message(&self) -> MessageModel {
        self.message@
    }

    /// The first cause of the rendering.
    pub closed spec fn cause(&self) -> Option<ErrorModel> {
        view_of(self.cause)
    }

    /// What the renderer prints under `flags`.
    pub open spec fn rendering(&self, flags: Flags) -> Seq<char> {
        if flags.expand {
            self.message().top + continued(
                self.cause(),
                joiner_text(flags.joiner),
                budget(flags.depth_limit),
            )
        } else {
            self.message().full
        }
    }

    /// The cause with which the rendering goes on.
    pub fn source(&self) -> (r: Option<&'a ErrorValue>)
        ensures
            view_of(r) == self.cause(),
    {
        self.cause
    }

    /// The text that stands between two messages under `flags`.
    pub fn joiner(&self, flags: &Flags) -> (r: &'static str)
        ensures
            r@ == joiner_text(flags.joiner),
    {
        match flags.joiner {
            JoinerStyle::Block => "\nCaused by: ",
            JoinerStyle::Inline => ": ",
        }
    }

    /// Appends to `out` every cause, each behind the joiner. At an opaque
    /// node it hands over to the rendering of what that node hides, which
    /// is expanded in the same style and without a limit.
    pub fn fmt_all_sources(&self, flags: &Flags, out: &mut String)
        ensures
            final(out)@ == old(out)@ + continued(self.cause(), joiner_text(flags.joiner), None),
        decreases depth_from(self.cause()), 0nat,
    {
        let joiner = self.joiner(flags);
        let mut sources = Iter::new(self.cause);
        let own_text = Flags {
            expand: false,
            joiner: JoinerStyle::Inline,
            depth_limit: None,
            suppress_self_chain: true,
        };
        loop
            invariant
                joiner@ == joiner_text(flags.joiner),
                own_text.suppress_self_chain,
                depth_from(sources.head()) <= depth_from(self.cause()),
                out@ + continued(sources.head(), joiner@, None) == old(out)@ + continued(
                    self.cause(),
                    joiner@,
                    None,
                ),
            decreases depth_from(sources.head()),
        {
            let err = match sources.next() {
                Some(err) => err,
                None => {
                    return ;
                },
            };
            proof {
                lemma_expanded_unfold(err@, joiner@, None);
            }
            out.append(joiner);
            match err {
                ErrorValue::Opaque { .. } => {
                    // The chain ends in an opaque node: what it hides goes on from here.
                    let forwarded = Flags {
                        expand: true,
                        joiner: flags.joiner,
                        depth_limit: None,
                        suppress_self_chain: false,
                    };
                    let hidden = wrap_ref(err);
                    hidden.fmt(&forwarded, out);
                    return ;
                },
                ErrorValue::Wrapper { message, .. } => {
                    message.fmt(&own_text, out);
                },
            }
        }
    }

    /// Appends to `out` the first `max` causes, each behind the joiner. At
    /// an opaque node it hands over to the rendering of what that node
    /// hides, which is expanded in the same style and may print as many
    /// causes as are then left of `max`.
    pub fn fmt_max_sources(&self, flags: &Flags, max: usize, out: &mut String)
        ensures
            final(out)@ == old(out)@ + continued(
                self.cause(),
                joiner_text(flags.joiner),
                Some(max as nat),
            ),
        decreases depth_from(self.cause()), 0nat,
    {
        let joiner = self.joiner(flags);
        let mut sources = Iter::new(self.cause);
        let mut left = max;
        let own_text = Flags {
            expand: false,
            joiner: JoinerStyle::Inline,
            depth_limit: None,
            suppress_self_chain: true,
        };
        loop
            invariant
                joiner@ == joiner_text(flags.joiner),
                own_text.suppress_self_chain,
                depth_from(sources.head()) <= depth_from(self.cause()),
                out@ + continued(sources.head(), joiner@, Some(left as nat)) == old(out)@
                    + continued(self.cause(), joiner@, Some(max as nat)),
            decreases depth_from(sources.head()),
        {
            if left == 0 {
                return ;
            }
            left -= 1;

            let err = match sources.next() {
                Some(err) => err,
                None => {
                    return ;
                },
            };
            proof {
                lemma_expanded_unfold(err@, joiner@, Some(left as nat));
            }
            out.append(joiner);
            match err {
                ErrorValue::Opaque { .. } => {
                    // The chain ends in an opaque node: what it hides goes on from here.
                    let forwarded = Flags {
                        expand: true,
                        joiner: flags.joiner,
                        depth_limit: Some(left),
                        suppress_self_chain: false,
                    };
                    let hidden = wrap_ref(err);
                    hidden.fmt(&forwarded, out);
                    return ;
                },
                ErrorValue::Wrapper { message, .. } => {
                    message.fmt(&own_text, out);
                },
            }
        }
    }

    /// Appends the rendering under `flags` to `out`. With `expand` that is
    /// the own text of the message and then the causes, as many as the
    /// depth limit allows; without it, the message as it prints by default,
    /// whatever the other flags say.
    pub fn fmt(&self, flags: &Flags, out: &mut String)
        ensures
            final(out)@ == old(out)@ + self.rendering(*flags),
        decreases depth_from(self.cause()), 1nat,
    {
        if flags.expand {
            // The message first, asked for its own text only.
            let own_text = Flags {
                expand: false,
                joiner: JoinerStyle::Inline,
                depth_limit: None,
                suppress_self_chain: true,
            };
            self.message.fmt(&own_text, out);
            // A depth limit says how many causes may follow.
            match flags.depth_limit {
                Some(max) => self.fmt_max_sources(flags, max, out),
                None => self.fmt_all_sources(flags, out),
            }
        } else {
            // Every flag is reset for the message.
            self.message.fmt(&Flags::default(), out);
        }
    }

    /// The rendering under `flags` as a string of its own.
    pub fn render(&self, flags: &Flags) -> (s: String)
        ensures
            s@ == self.rendering(*flags),
    {
        let mut out = String::new();
        self.fmt(flags, &mut out);
        out
    }
}

/// Sees `err` as the renderer does. An opaque node is seen as what it
/// hides.
pub fn wrap_ref<'a>(err: &'a ErrorValue) -> (r: WrapperRef<'a>)
    ensures
        r.message() == err@.head(),
        r.cause() == err@.unveiled().source(),
        depth_from(r.cause()) < err@.depth(),
        forall|flags: Flags| #[trigger] r.rendering(flags) == err@.rendering(flags),
    decreases err,
{
    let r = match err {
        ErrorValue::Opaque { hidden } => wrap_ref(hidden),
        ErrorValue::Wrapper { message, .. } => WrapperRef { message, cause: err.source() },
    };
    proof {
        assert forall|flags: Flags| #[trigger] r.rendering(flags) == err@.rendering(flags) by {
            lemma_expanded_unfold(err@, joiner_text(flags.joiner), budget(flags.depth_limit));
        }
    }
    r
}

/// Makes `err` printable under any flags: the top message alone by
/// default, the chain with `expand`, joined as `joiner` says, and no more
/// causes than `depth_limit` allows.
pub fn fmt<'a>(err: &'a ErrorValue) -> (r: WrapperRef<'a>)
    ensures
        r.message() == err@.head(),
        r.cause() == err@.unveiled().source(),
        forall|flags: Flags| #[trigger] r.rendering(flags) == err@.rendering(flags),
{
    wrap_ref(err)
}

impl ErrorValue {
    /// Prints the value under `flags`.
    pub fn render(&self, flags: &Flags) -> (s: String)
        ensures
            s@ == self@.rendering(*flags),
    {
        wrap_ref(self).render(flags)
    }

    /// Appends to `out` what is printed for debugging.
    pub fn debug_into(&self, out: &mut String)
        ensures
            final(out)@ == old(out)@ + self@.debug(),
        decreases self,
    {
        match self {
            ErrorValue::Opaque { hidden } => hidden.debug_into(out),
            ErrorValue::Wrapper { type_tag: TypeTag::Wrapper, message, cause: Some(c) } => {
                out.append("(");
                out.append(message.debug.as_str());
                out.append(", ");
                c.debug_into(out);
                out.append(")");
            },
            ErrorValue::Wrapper { message, .. } => {
                out.append(message.debug.as_str());
            },
        }
    }

    /// What is printed for debugging, in one line.
    pub fn debug(&self) -> (s: String)
        ensures
            s@ == self@.debug(),
    {
        let mut out = String::new();
        self.debug_into(&mut out);
        out
    }
}

/// The outermost failure of a program. Whatever it is asked, it prints the
/// whole chain of causes, one message under the other.
#[derive(PartialEq, Eq)]
pub struct Main(pub ErrorValue);

impl View for Main {
    type V = ErrorModel;

    open spec fn view(&self) -> ErrorModel {
        self.0@
    }
}

/// The flags under which `Main` prints.
pub open spec fn main_flags() -> Flags {
    Flags {
        expand: true,
        joiner: JoinerStyle::Block,
        depth_limit: None,
        suppress_self_chain: false,
    }
}

impl Main {
    /// What is printed for debugging: the whole chain, expanded, with each
    /// cause behind `"\nCaused by: "`.
    pub fn debug(&self) -> (s: String)
        ensures
            s@ == self@.rendering(main_flags()),
            s@ == self@.expanded("\nCaused by: "@, None),
    {
        let flags = Flags {
            expand: true,
            joiner: JoinerStyle::Block,
            depth_limit: None,
            suppress_self_chain: false,
        };
        wrap_ref(&self.0).render(&flags)
    }
}

impl vstd::std_specs::convert::FromSpecImpl<ErrorValue> for Main {
    open spec fn obeys_from_spec() -> bool {
        true
    }

    open spec fn from_spec(err: ErrorValue) -> Main {
        Main(err)
    }
}

impl From<ErrorValue> for Main {
    /// Any error value can be the outermost failure.
    fn from(err: ErrorValue) -> (r: Main)
        ensures
            r@ == err@,
    {
        Main(err)
    }
}

impl vstd::std_specs::convert::FromSpecImpl<&str> for Main {
    /// Two strings with the same text are not known to be one value, so
    /// what `from` returns is stated there, over the view, and not here.
    open spec fn obeys_from_spec() -> bool {
        false
    }

    open spec fn from_spec(s: &str) -> Main {
        arbitrary()
    }
}

impl From<&str> for Main {
    /// A bare string can be the outermost failure.
    fn from(s: &str) -> (r: Main)
        ensures
            r@ == string_payload(s@),
    {
        Main(ErrorValue::from(s))
    }
}

impl vstd::std_specs::convert::FromSpecImpl<String> for Main {
    /// Two strings with the same text are not known to be one value, so
    /// what `from` returns is stated there, over the view, and not here.
    open spec fn obeys_from_spec() -> bool {
        false
    }

    open spec fn from_spec(s: String) -> Main {
        arbitrary()
    }
}

impl From<String> for Main {
    /// A bare string can be the outermost failure.
    fn from(s: String) -> (r: Main)
        ensures
            r@ == string_payload(s@),
    {
        Main(ErrorValue::from(s))
    }
}

} // verus!
