use rpc_dispatch::routing::{route, RpcTarget, SEPARATOR};

fn remote(method: &str) -> (String, String) {
    match route(method) {
        RpcTarget::Remote { service, method } => (service, method),
        RpcTarget::Local => panic!("{method} was routed local"),
    }
}

#[test]
fn separator_is_a_slash() {
    assert_eq!(SEPARATOR, '/');
}

#[test]
fn a_bare_name_is_local() {
    for method in ["get_model_list", "one_shot_msg", "", "a.b", "a\\b", "wörk"] {
        assert!(matches!(route(method), RpcTarget::Local), "{method}");
    }
}

#[test]
fn a_compound_name_is_split_at_the_separator() {
    assert_eq!(remote("chat/one_shot_msg"), ("chat".to_string(), "one_shot_msg".to_string()));
    assert_eq!(remote("a/b"), ("a".to_string(), "b".to_string()));
}

#[test]
fn only_the_first_separator_splits() {
    assert_eq!(remote("a/b/c"), ("a".to_string(), "b/c".to_string()));
    assert_eq!(remote("a//"), ("a".to_string(), "/".to_string()));
}

#[test]
fn an_empty_part_is_kept_empty() {
    assert_eq!(remote("/op"), (String::new(), "op".to_string()));
    assert_eq!(remote("svc/"), ("svc".to_string(), String::new()));
    assert_eq!(remote("/"), (String::new(), String::new()));
}

#[test]
fn characters_of_several_bytes_are_counted_once() {
    assert_eq!(remote("wörker/größe"), ("wörker".to_string(), "größe".to_string()));
    assert_eq!(remote("日本/語"), ("日本".to_string(), "語".to_string()));
}

#[test]
fn the_method_forwarded_is_never_the_compound_name() {
    for (service, op) in [("chat", "one_shot_msg"), ("a", "b/c"), ("", "x")] {
        let compound = format!("{service}/{op}");
        let (s, m) = remote(&compound);
        assert_eq!(s, service);
        assert_eq!(m, op);
        assert_ne!(m, compound);
    }
}
