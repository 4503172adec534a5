use errors::iter::{chain, find, is, root, sources};
use errors::{new, opaque, wrap, ErrorValue, Flags, Message, TypeTag};

fn text(err: &ErrorValue) -> String {
    err.render(&Flags::default())
}

fn foreign(id: u64, text: &str, cause: Option<ErrorValue>) -> ErrorValue {
    ErrorValue::Wrapper {
        type_tag: TypeTag::Foreign(id),
        message: Message::from(text),
        cause: cause.map(Box::new),
    }
}

#[test]
fn chain_yields_the_value_first_and_then_its_causes() {
    let err = wrap("c".into(), wrap("b".into(), "a".into()));

    let mut seen = Vec::new();
    let mut it = chain(&err);
    while let Some(e) = it.next() {
        seen.push(text(e));
    }
    assert_eq!(seen, vec!["c", "b", "a"]);
    assert!(it.next().is_none());
}

#[test]
fn chain_of_a_leaf_is_the_leaf_alone() {
    let err = new("ninja cat".into());

    let mut it = chain(&err);
    assert_eq!(it.next(), Some(&err));
    assert_eq!(it.next(), None);
    assert_eq!(it.next(), None);
}

#[test]
fn chain_can_be_walked_again() {
    let err = wrap("b".into(), "a".into());

    for _ in 0..2 {
        let mut it = chain(&err);
        assert_eq!(it.next(), Some(&err));
        assert_eq!(it.next().map(text), Some("a".to_string()));
        assert_eq!(it.next(), None);
    }
}

#[test]
fn sources_skip_the_value_itself() {
    let err = wrap("c".into(), wrap("b".into(), "a".into()));

    let mut seen = Vec::new();
    let mut it = sources(&err);
    while let Some(e) = it.next() {
        seen.push(text(e));
    }
    assert_eq!(seen, vec!["b", "a"]);

    let leaf = new("a".into());
    assert_eq!(sources(&leaf).next(), None);
}

#[test]
fn sources_follow_each_reported_cause() {
    let err = wrap("c".into(), wrap("b".into(), "a".into()));

    let mut it = sources(&err);
    let b = it.next().unwrap();
    assert_eq!(Some(b), err.source());
    let a = it.next().unwrap();
    assert_eq!(Some(a), b.source());
    assert_eq!(a.source(), None);
}

#[test]
fn chain_stops_at_an_opaque_node() {
    let err = wrap("d".into(), opaque(wrap("c".into(), wrap("b".into(), "a".into()))));

    let mut it = chain(&err);
    assert_eq!(it.next(), Some(&err));
    let second = it.next().unwrap();
    assert!(matches!(second, ErrorValue::Opaque { .. }));
    assert_eq!(it.next(), None);
}

#[test]
fn root_is_the_last_of_the_chain() {
    let err = wrap("c".into(), wrap("b".into(), "a".into()));
    assert_eq!(text(root(&err)), "a");

    let mut last = None;
    let mut it = chain(&err);
    while let Some(e) = it.next() {
        last = Some(e);
    }
    assert_eq!(Some(root(&err)), last);
}

#[test]
fn root_of_a_leaf_is_the_leaf() {
    let leaf = new("ninja cat".into());
    assert_eq!(root(&leaf), &leaf);
    assert_eq!(text(root(&leaf)), "ninja cat");

    let hidden = opaque(wrap("b".into(), "a".into()));
    assert_eq!(root(&hidden), &hidden);
}

#[test]
fn root_does_not_look_behind_an_opaque_node() {
    let err = wrap("d".into(), opaque(wrap("c".into(), "a".into())));
    assert!(matches!(root(&err), ErrorValue::Opaque { .. }));
}

#[test]
fn find_gives_the_first_node_of_the_kind() {
    let inner = foreign(7, "boom", None);
    let outer = foreign(7, "bang", Some(wrap("mid".into(), inner)));
    let err = wrap("ruh roh".into(), outer);

    let found = find(&err, TypeTag::Foreign(7)).unwrap();
    assert_eq!(text(found), "bang");
    assert_eq!(Some(found), err.source());

    assert_eq!(find(&err, TypeTag::Wrapper), Some(&err));
    assert_eq!(find(&err, TypeTag::Foreign(8)), None);
    assert_eq!(find(&err, TypeTag::StringPayload), None);
}

#[test]
fn is_tells_whether_find_finds() {
    let err1 = foreign(1, "boom", None);
    assert!(is(&err1, TypeTag::Foreign(1)));
    assert!(!is(&err1, TypeTag::Foreign(2)));
    assert!(!is(&err1, TypeTag::Wrapper));

    let err2 = wrap("ruh roh".into(), err1);
    assert!(is(&err2, TypeTag::Foreign(1)));
    assert!(is(&err2, TypeTag::Wrapper));
    assert!(!is(&err2, TypeTag::StringPayload));

    for tag in [TypeTag::Wrapper, TypeTag::StringPayload, TypeTag::Foreign(1), TypeTag::Foreign(2)] {
        assert_eq!(is(&err2, tag), find(&err2, tag).is_some());
    }
}

#[test]
fn a_bare_string_is_a_string_payload() {
    let err = ErrorValue::from("a");
    assert!(err.has_type(TypeTag::StringPayload));
    assert!(!err.has_type(TypeTag::Wrapper));
    assert_eq!(err.source(), None);
    assert_eq!(text(&err), "a");
    assert_eq!(ErrorValue::from("a".to_string()), err);

    let wrapped = wrap("b".into(), "a".into());
    assert!(wrapped.has_type(TypeTag::Wrapper));
    assert!(is(&wrapped, TypeTag::StringPayload));
    assert_eq!(find(&wrapped, TypeTag::StringPayload), Some(&err));
}

#[test]
fn an_opaque_node_is_of_no_kind() {
    let hidden = opaque(foreign(1, "timeout", None));
    for tag in [TypeTag::Wrapper, TypeTag::StringPayload, TypeTag::Foreign(1)] {
        assert!(!hidden.has_type(tag));
        assert!(!is(&hidden, tag));
        assert_eq!(find(&hidden, tag), None);
    }

    let err = wrap("too many attempts".into(), hidden);
    assert!(!is(&err, TypeTag::Foreign(1)));
    assert!(is(&err, TypeTag::Wrapper));
}

#[test]
fn opaque_hides_string_payload_and_still_prints_it() {
    let plain = wrap("b".into(), "a".into());
    assert!(is(&plain, TypeTag::StringPayload));

    let hidden = opaque(plain);
    assert!(!is(&hidden, TypeTag::StringPayload));
    assert_eq!(find(&hidden, TypeTag::StringPayload), None);

    let mut it = chain(&hidden);
    assert_eq!(it.next(), Some(&hidden));
    assert_eq!(it.next(), None);

    let expanded = Flags { expand: true, ..Flags::default() };
    assert_eq!(hidden.render(&expanded), "b: a");
}

fn needs_send_and_sync<T: Send + Sync + 'static>(_: &T) {}

#[test]
fn error_values_can_be_handed_to_another_thread() {
    let err = wrap("d".into(), opaque(wrap("c".into(), "a".into())));
    needs_send_and_sync(&err);
    needs_send_and_sync(&errors::Main::from(err));
    needs_send_and_sync(&Message::from("m"));
}
