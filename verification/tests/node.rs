//! The Grin node: depths, answers, failover, and the scripted chain.

use floonet_name_authority::node::{
    Call, ChainSource, KernelResult, NodeClient, Query, TestChainSource,
};

#[test]
fn test_source_reports_kernels_and_tip() {
    let mut node = TestChainSource::new(1000);
    node.set_kernel("ab", 900, 101);
    let k = node.kernel("AB").unwrap();
    assert!(k.found);
    assert_eq!(k.height, Some(900));
    assert_eq!(k.confirmations, 101);
    assert_eq!(node.tip_height().unwrap(), 1000);
    // Unknown excess reads as not found.
    assert!(!node.kernel("cd").unwrap().found);
    // Tip can be made to fail for fail-closed expiry tests.
    node.fail_tip(true);
    assert!(node.tip_height().is_err());
    // The last word on a kernel counts.
    node.set_kernel("AB", 901, 1);
    assert_eq!(node.kernel("ab").unwrap().height, Some(901));
    node.fail_tip(false);
    node.set_tip(7);
    assert_eq!(node.tip_height(), Ok(7));
}

fn ok(s: &str) -> Result<Vec<u8>, String> {
    Ok(s.as_bytes().to_vec())
}

fn client() -> NodeClient {
    NodeClient::new(vec!["http://a".into(), "http://b".into()])
}

fn done(q: Query<String, KernelResult>) -> Result<KernelResult, String> {
    match q {
        Query::Done(r) => r,
        Query::Make(_) => panic!("another call"),
    }
}

#[test]
fn kernel_depth_counts_from_the_tip() {
    let c = client();
    let found = ok("{\"result\":{\"Ok\":[{},900,5]}}");
    assert!(matches!(
        c.kernel("ee", &vec![]),
        Query::Make(Call::GetKernel { endpoint, excess }) if endpoint == "http://a" && excess == "ee"
    ));
    assert!(matches!(
        c.kernel("ee", &vec![found.clone()]),
        Query::Make(Call::GetTip { endpoint }) if endpoint == "http://a"
    ));
    let depth = |tip: &str| {
        done(c.kernel("ee", &vec![found.clone(), ok(tip)])).unwrap()
    };
    assert_eq!(
        depth("{\"result\":{\"Ok\":{\"height\":1000}}}"),
        KernelResult { found: true, confirmations: 101, height: Some(900) }
    );
    assert_eq!(depth("{\"result\":{\"height\":900}}").confirmations, 1);
    assert_eq!(depth("{\"result\":{\"height\":1}}").confirmations, 1);
    // A tip that cannot be read counts as one confirmation.
    assert_eq!(depth("{\"result\":{}}").confirmations, 1);
    assert_eq!(depth("{}").confirmations, 1);
    // A height by name, and none at all.
    let by_name = ok("{\"result\":{\"height\":10}}");
    let k = done(c.kernel("ee", &vec![by_name, ok("{\"result\":{\"height\":12}}")])).unwrap();
    assert_eq!((k.confirmations, k.height), (3, Some(10)));
    let k = done(c.kernel("ee", &vec![ok("{\"result\":{\"x\":1}}"), ok("{\"result\":{\"height\":12}}")]))
        .unwrap();
    assert_eq!((k.found, k.confirmations, k.height), (true, 1, None));
    assert_eq!(KernelResult::on_chain(Some(0), Some(u64::MAX)).confirmations, 1);
    assert_eq!(KernelResult::on_chain(Some(1), Some(u64::MAX)).confirmations, u64::MAX);
}

#[test]
fn missing_kernels_need_no_tip() {
    let c = client();
    for answer in ["{\"result\":{\"Ok\":null}}", "{\"result\":null}", "{}", "{\"error\":null}"] {
        let k = done(c.kernel("ee", &vec![ok(answer)])).unwrap();
        assert_eq!(k, KernelResult::not_found());
    }
}

#[test]
fn failures_move_on_to_the_next_node() {
    let c = client();
    let bad = [
        Err("get_kernel transport: refused".to_string()),
        ok("not json"),
        ok("{\"error\":{\"code\":1}}"),
        ok("{\"result\":{\"Err\":\"NotFound\"}}"),
    ];
    let complaints = [
        "get_kernel transport: refused",
        "get_kernel decode: error decoding response body",
        "get_kernel error: {\"code\":1}",
        "get_kernel Err: \"NotFound\"",
    ];
    for (answer, complaint) in bad.iter().zip(complaints) {
        assert!(matches!(
            c.kernel("ee", &vec![answer.clone()]),
            Query::Make(Call::GetKernel { endpoint, .. }) if endpoint == "http://b"
        ));
        let both = vec![answer.clone(), answer.clone()];
        assert_eq!(done(c.kernel("ee", &both)).unwrap_err(), complaint);
    }
    // A failing tip fails the node, and the next one is asked from the start.
    let found = ok("{\"result\":[{},900]}");
    assert!(matches!(
        c.kernel("ee", &vec![found.clone(), ok("{\"error\":1}")]),
        Query::Make(Call::GetKernel { endpoint, .. }) if endpoint == "http://b"
    ));
    let all = vec![
        found.clone(),
        ok("{\"error\":1}"),
        found,
        ok("{\"result\":{\"height\":909}}"),
    ];
    assert_eq!(done(c.kernel("ee", &all)).unwrap().confirmations, 10);
    let none = NodeClient::new(vec![]);
    assert_eq!(done(none.kernel("ee", &vec![])).unwrap_err(), "no node endpoints configured");
}

#[test]
fn tips_come_from_the_first_node_that_names_one() {
    let c = client();
    assert!(matches!(
        c.tip_height(&vec![]),
        Query::Make(Call::GetTip { endpoint }) if endpoint == "http://a"
    ));
    assert!(matches!(
        c.tip_height(&vec![ok("{\"result\":{\"Ok\":{\"height\":12}}}")]),
        Query::Done(Ok(12))
    ));
    assert!(matches!(
        c.tip_height(&vec![ok("{\"result\":{}}")]),
        Query::Make(Call::GetTip { endpoint }) if endpoint == "http://b"
    ));
    assert!(matches!(
        c.tip_height(&vec![Err("x".into()), ok("{\"result\":{}}")]),
        Query::Done(Err(e)) if e == "get_tip: height missing"
    ));
    assert!(matches!(
        c.tip_height(&vec![ok("{\"result\":{}}"), Err("x".into())]),
        Query::Done(Err(e)) if e == "x"
    ));
}
