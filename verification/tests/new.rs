use errors::{new, opaque, wrap, ErrorValue, Flags, JoinerStyle, Message};

/// The flags that a format string of std asks for: `"{:+#.1}"` sets
/// `expand`, the block joiner and a depth limit of 1.
fn flags_of(spec: &str) -> Flags {
    let inner = spec.trim_start_matches("{:").trim_start_matches('{').trim_end_matches('}');
    let (signs, precision) = match inner.split_once('.') {
        Some((signs, precision)) => (signs, Some(precision.parse::<usize>().unwrap())),
        None => (inner, None),
    };
    Flags {
        expand: signs.contains('+'),
        joiner: if signs.contains('#') { JoinerStyle::Block } else { JoinerStyle::Inline },
        depth_limit: precision,
        suppress_self_chain: signs.contains('-'),
    }
}

fn show(spec: &str, err: &ErrorValue) -> String {
    err.render(&flags_of(spec))
}

#[test]
fn display_default() {
    let cause = "cat hair in generator";
    let top = "ship exploded";

    let op = new(cause.into());
    assert_eq!(show("{}", &op), cause);

    let wp = wrap(top.into(), cause.into());
    assert_eq!(show("{}", &wp), top);

    let wp_op = wrap(top.into(), op);
    assert_eq!(show("{}", &wp_op), top);
}

#[test]
fn display_chain() {
    let cause = "cat hair in generator";
    let top = "ship exploded";

    let op = new(cause.into());
    assert_eq!(show("{:+}", &op), cause);

    let wp = wrap(top.into(), cause.into());
    assert_eq!(show("{:+}", &wp), format!("{}: {}", top, cause));

    let wp_op = wrap(top.into(), op);
    assert_eq!(show("{:+}", &wp_op), format!("{}: {}", top, cause));
}

#[test]
fn display_chain_when_message_is_wrapped() {
    let msg = wrap("b".into(), "a".into());
    let err = wrap(Message::from(msg), "z".into());

    assert_eq!(show("{:+}", &err), "b: z");
}

#[test]
fn display_alternative() {
    let cause = "cat hair in generator";
    let top = "ship exploded";

    let op = new(cause.into());
    assert_eq!(show("{:#}", &op), cause);
    assert_eq!(show("{:+#}", &op), cause);

    let alt = format!("{}\nCaused by: {}", top, cause);

    let wp = wrap(top.into(), cause.into());
    assert_eq!(show("{:+#}", &wp), alt);

    let wp_op = wrap(top.into(), op);
    assert_eq!(show("{:+#}", &wp_op), alt);
}

#[test]
fn display_chain_max() {
    let a = "a";
    let op = new(a.into());
    assert_eq!(show("{:.0}", &op), a);
    assert_eq!(show("{:.1}", &op), a);
    assert_eq!(show("{:+.0}", &op), a);
    assert_eq!(show("{:+.1}", &op), a);

    let wp = wrap("b".into(), "a".into());
    assert_eq!(show("{:.0}", &wp), "b");
    assert_eq!(show("{:.1}", &wp), "b");
    assert_eq!(show("{:+.0}", &wp), "b");
    assert_eq!(show("{:+.1}", &wp), "b: a");

    let wp2 = wrap("c".into(), wp);
    assert_eq!(show("{:.0}", &wp2), "c");
    assert_eq!(show("{:.1}", &wp2), "c");
    assert_eq!(show("{:+.0}", &wp2), "c");
    assert_eq!(show("{:+.1}", &wp2), "c: b");
    assert_eq!(show("{:+.2}", &wp2), "c: b: a");
}

// opaque()

#[test]
fn opaque_has_no_sources() {
    let w = wrap("b".into(), "a".into());
    assert!(w.source().is_some());

    let op = opaque(w);
    assert!(op.source().is_none());
}

#[test]
fn opaque_displays_chain() {
    let w = wrap("b".into(), "a".into());
    let op = opaque(w);

    assert_eq!(show("{:+}", &op), "b: a");
}

#[test]
fn opaque_wrapped_forwards_display_chain_flags() {
    let w = wrap("b".into(), "a".into());
    let w = wrap("c".into(), w);
    let op = opaque(w);
    let e = wrap("d".into(), op);

    assert_eq!(show("{:+}", &e), "d: c: b: a");
    assert_eq!(show("{:+.1}", &e), "d: c");
}
