use block_on_proc::{
    block_on, block_on_with, classify, wrap_method, wrappers, BackendProfile, BlockingBody,
    BlockingEntry, CallExpr, ConfigError, Member, Method, MethodBody, MethodCollection,
    MethodSignature, Parameter, Qualifier, SetupStatement,
};

fn binding(pattern: &str) -> Parameter {
    Parameter::Binding(pattern.to_string())
}

fn method(name: &str, is_async: bool, params: Vec<Parameter>, body: &str) -> Method {
    Method {
        sig: MethodSignature { name: name.to_string(), is_async, params },
        body: MethodBody::Verbatim(body.to_string()),
    }
}

fn other(text: &str) -> Member {
    Member::Other(text.to_string())
}

fn collection(owner: &str, members: Vec<Member>) -> MethodCollection {
    MethodCollection { owner: owner.to_string(), members }
}

fn mixed() -> MethodCollection {
    collection(
        "Client",
        vec![
            other("const LIMIT: usize = 8;"),
            Member::Method(method("new", false, vec![], "{ Client {} }")),
            Member::Method(method(
                "fetch",
                true,
                vec![Parameter::Receiver, binding("url"), binding("n")],
                "{ todo(url, n).await }",
            )),
            other("type Output = u8;"),
            Member::Method(method("connect", true, vec![binding("addr")], "{ dial(addr).await }")),
            Member::Method(method("len", false, vec![Parameter::Receiver], "{ 0 }")),
        ],
    )
}

fn blocking(body: &MethodBody) -> &BlockingBody {
    match body {
        MethodBody::Blocking(b) => b,
        MethodBody::Verbatim(text) => panic!("a verbatim body: {text}"),
    }
}

fn as_method(member: &Member) -> &Method {
    match member {
        Member::Method(m) => m,
        Member::Other(text) => panic!("no method: {text}"),
    }
}

#[test]
fn classify_marks_async_methods_only() {
    assert_eq!(classify(&mixed()), vec![false, false, true, false, true, false]);
    assert_eq!(classify(&collection("Empty", vec![])), Vec::<bool>::new());
}

#[test]
fn classify_leaves_collection_alone() {
    let input = mixed();
    let _ = classify(&input);
    assert_eq!(input, mixed());
}

#[test]
fn members_pass_through_unchanged() {
    let input = mixed();
    for selector in ["tokio", "async-std"] {
        let out = block_on(selector, input.clone()).unwrap();
        assert_eq!(out.owner, "Client");
        assert_eq!(out.members.len(), input.members.len() + 2);
        assert_eq!(&out.members[..input.members.len()], &input.members[..]);
    }
}

#[test]
fn one_wrapper_per_async_method() {
    let out = block_on("tokio", mixed()).unwrap();
    let added = &out.members[6..];
    assert_eq!(added.len(), 2);
    let names: Vec<&str> = added.iter().map(|m| as_method(m).sig.name.as_str()).collect();
    assert_eq!(names, vec!["fetch_blocking", "connect_blocking"]);
    for member in added {
        assert!(!as_method(member).sig.is_async);
        assert!(!member.is_async_method());
    }
    let all: Vec<&str> = out
        .members
        .iter()
        .filter_map(|m| match m {
            Member::Method(m) => Some(m.sig.name.as_str()),
            Member::Other(_) => None,
        })
        .collect();
    assert_eq!(all.iter().filter(|n| **n == "fetch_blocking").count(), 1);
    assert_eq!(all.iter().filter(|n| **n == "connect_blocking").count(), 1);
    assert_eq!(all.iter().filter(|n| **n == "new_blocking").count(), 0);
    assert_eq!(all.iter().filter(|n| **n == "len_blocking").count(), 0);
}

#[test]
fn receiver_is_preserved() {
    let out = block_on("async-std", mixed()).unwrap();
    let fetch = as_method(&out.members[6]);
    assert!(fetch.sig.has_receiver());
    assert_eq!(fetch.sig.params, vec![Parameter::Receiver, binding("url"), binding("n")]);
    let call = &blocking(&fetch.body).call;
    assert!(call.instance);
    assert_eq!(call.qualifier, Qualifier::Receiver);
    assert_eq!(call.render(), "self.fetch(url, n)");

    let connect = as_method(&out.members[7]);
    assert!(!connect.sig.has_receiver());
    assert_eq!(connect.sig.params, vec![binding("addr")]);
    let call = &blocking(&connect.body).call;
    assert!(!call.instance);
    assert_eq!(call.qualifier, Qualifier::Type("Client".to_string()));
    assert_eq!(call.render(), "Client::connect(addr)");
}

#[test]
fn arguments_are_forwarded_in_order() {
    let input = collection(
        "T",
        vec![Member::Method(method(
            "run",
            true,
            vec![Parameter::Receiver, binding("c"), binding("a"), binding("(x, y)"), binding("b")],
            "{}",
        ))],
    );
    let out = block_on("tokio", input).unwrap();
    let call = &blocking(&as_method(&out.members[1]).body).call;
    assert_eq!(call.args, vec!["c", "a", "(x, y)", "b"]);
    assert_eq!(call.method, "run");
    assert_eq!(call.render(), "self.run(c, a, (x, y), b)");
}

#[test]
fn unsupported_backend_produces_nothing() {
    for selector in ["smol", "", "Tokio", "async_std"] {
        assert_eq!(
            block_on(selector, mixed()),
            Err(ConfigError { selector: selector.to_string() })
        );
    }
}

#[test]
fn unsupported_backend_is_an_error_without_async_methods() {
    let input = collection("T", vec![Member::Method(method("f", false, vec![], "{}"))]);
    assert_eq!(block_on("smol", input), Err(ConfigError { selector: "smol".to_string() }));
    assert_eq!(
        block_on("smol", collection("T", vec![])),
        Err(ConfigError { selector: "smol".to_string() })
    );
}

#[test]
fn body_shape_goes_by_backend() {
    let tokio = block_on("tokio", mixed()).unwrap();
    let body = blocking(&as_method(&tokio.members[6]).body);
    assert_eq!(body.setup, vec![SetupStatement::UseRuntime, SetupStatement::NewRuntime]);
    assert_eq!(body.entry, BlockingEntry::OnRuntime);
    assert_eq!(
        body.render(),
        "{ use tokio::runtime::Runtime; let mut rt = Runtime::new().unwrap(); rt.block_on(self.fetch(url, n)) }"
    );

    let async_std = block_on("async-std", mixed()).unwrap();
    let body = blocking(&as_method(&async_std.members[6]).body);
    assert_eq!(body.setup, vec![SetupStatement::UseTask]);
    assert!(!body.setup.contains(&SetupStatement::NewRuntime));
    assert_eq!(body.entry, BlockingEntry::GlobalTask);
    assert_eq!(body.render(), "{ use async_std::task; task::block_on(self.fetch(url, n)) }");
}

#[test]
fn one_profile_for_all_wrappers() {
    let out = block_on("tokio", mixed()).unwrap();
    for member in &out.members[6..] {
        assert_eq!(blocking(&as_method(member).body).entry, BlockingEntry::OnRuntime);
    }
    let out = block_on("async-std", mixed()).unwrap();
    for member in &out.members[6..] {
        assert_eq!(blocking(&as_method(member).body).entry, BlockingEntry::GlobalTask);
    }
}

#[test]
fn empty_collection_stays_empty() {
    assert_eq!(block_on("tokio", collection("T", vec![])), Ok(collection("T", vec![])));
}

#[test]
fn collection_without_async_methods_is_unchanged() {
    let input = collection(
        "T",
        vec![other("const A: u8 = 1;"), Member::Method(method("f", false, vec![], "{}"))],
    );
    assert_eq!(block_on("async-std", input.clone()), Ok(input));
}

#[test]
fn existing_member_with_the_wrapper_name_is_kept() {
    let input = collection(
        "T",
        vec![
            Member::Method(method("f", true, vec![], "{}")),
            Member::Method(method("f_blocking", false, vec![], "{ 1 }")),
        ],
    );
    let out = block_on("tokio", input.clone()).unwrap();
    assert_eq!(out.members.len(), 3);
    assert_eq!(&out.members[..2], &input.members[..]);
    assert_eq!(as_method(&out.members[2]).sig.name, "f_blocking");
    assert!(matches!(as_method(&out.members[2]).body, MethodBody::Blocking(_)));
}

#[test]
fn async_wrapper_named_method_gets_its_own_wrapper() {
    let input = collection("T", vec![Member::Method(method("f_blocking", true, vec![], "{}"))]);
    let out = block_on("tokio", input).unwrap();
    assert_eq!(as_method(&out.members[1]).sig.name, "f_blocking_blocking");
}

#[test]
fn wrap_method_builds_the_wrapper() {
    let original = method("fetch", true, vec![Parameter::Receiver, binding("url")], "{ body }");
    let wrapper = wrap_method("Client", &original, BackendProfile::AsyncStd);
    assert_eq!(
        wrapper,
        Method {
            sig: MethodSignature {
                name: "fetch_blocking".to_string(),
                is_async: false,
                params: vec![Parameter::Receiver, binding("url")],
            },
            body: MethodBody::Blocking(BlockingBody {
                setup: vec![SetupStatement::UseTask],
                entry: BlockingEntry::GlobalTask,
                call: CallExpr {
                    qualifier: Qualifier::Receiver,
                    instance: true,
                    method: "fetch".to_string(),
                    args: vec!["url".to_string()],
                },
            }),
        }
    );
}

#[test]
fn wrappers_follow_the_order_of_their_methods() {
    let added = wrappers(&mixed(), BackendProfile::Tokio);
    let names: Vec<&str> = added.iter().map(|m| as_method(m).sig.name.as_str()).collect();
    assert_eq!(names, vec!["fetch_blocking", "connect_blocking"]);
}

#[test]
fn block_on_with_agrees_with_block_on() {
    assert_eq!(Ok(block_on_with(BackendProfile::Tokio, mixed())), block_on("tokio", mixed()));
    assert_eq!(
        Ok(block_on_with(BackendProfile::AsyncStd, mixed())),
        block_on("async-std", mixed())
    );
}

#[test]
fn clones_are_equal() {
    let input = mixed();
    assert_eq!(input.clone(), input);
    let out = block_on("tokio", input).unwrap();
    assert_eq!(out.clone(), out);
    for member in &out.members {
        assert_eq!(&member.clone(), member);
    }
}

#[test]
fn late_receiver_counts_as_none() {
    let input = collection(
        "T",
        vec![Member::Method(method("f", true, vec![binding("a"), Parameter::Receiver], "{}"))],
    );
    let out = block_on("async-std", input).unwrap();
    let wrapper = as_method(&out.members[1]);
    assert!(!wrapper.sig.has_receiver());
    assert_eq!(blocking(&wrapper.body).call.render(), "T::f(a)");
}
