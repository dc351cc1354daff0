use icebug::{
    lift, Betweenness, ConnectedComponents, DegreeCentrality, Edge, EngineException, Error, Graph,
    Leiden, Louvain, PageRank, PartitionResult,
};

fn exception(what: &str) -> EngineException {
    EngineException { what: what.to_string() }
}

fn engine_text<T>(res: icebug::Result<T>) -> String {
    match res {
        Err(Error::Cxx(e)) => e.what,
        Err(Error::InvalidInput(m)) => panic!("unexpected input error {}", m),
        Ok(_) => panic!("request succeeded"),
    }
}

#[test]
fn created_objects_hold_the_engine_handle() {
    assert_eq!(Graph::new(Ok(11_u32)).unwrap().raw, 11);
    assert_eq!(Betweenness::new(Ok(1_u32)).unwrap().raw, 1);
    assert_eq!(PageRank::new(Ok(2_u32)).unwrap().raw, 2);
    assert_eq!(DegreeCentrality::new(Ok(3_u32)).unwrap().raw, 3);
    assert_eq!(ConnectedComponents::new(Ok(4_u32)).unwrap().raw, 4);
    assert_eq!(Louvain::new(Ok(5_u32)).unwrap().raw, 5);
    assert_eq!(Leiden::new(Ok(6_u32)).unwrap().raw, 6);
}

#[test]
fn refused_creation_reports_the_engine_exception() {
    assert_eq!(engine_text(Graph::<u32>::new(Err(exception("no memory")))), "no memory");
    assert_eq!(engine_text(Betweenness::<u32>::new(Err(exception("bad graph")))), "bad graph");
    assert_eq!(engine_text(PageRank::<u32>::new(Err(exception("damp")))), "damp");
    assert_eq!(engine_text(DegreeCentrality::<u32>::new(Err(exception("deg")))), "deg");
    assert_eq!(engine_text(ConnectedComponents::<u32>::new(Err(exception("cc")))), "cc");
    assert_eq!(engine_text(Louvain::<u32>::new(Err(exception("gamma")))), "gamma");
    assert_eq!(engine_text(Leiden::<u32>::new(Err(exception("iterations")))), "iterations");
}

#[test]
fn page_rank_iterations_pass_through() {
    let pr = PageRank::new(Ok(0_u8)).unwrap();
    assert_eq!(pr.number_of_iterations(Ok(17)).unwrap(), 17);
    assert_eq!(engine_text(pr.number_of_iterations(Err(exception("run first")))), "run first");
}

#[test]
fn leiden_extension_outcomes() {
    let mut leiden = Leiden::new(Ok(9_u8)).unwrap();
    assert!(leiden.load_move_scoring_extension(Ok(())).is_ok());
    assert_eq!(
        engine_text(leiden.load_move_scoring_extension(Err(exception("cannot open")))),
        "cannot open"
    );
    assert!(leiden.unload_move_scoring_extension(Ok(())).is_ok());
    assert_eq!(
        engine_text(leiden.unload_move_scoring_extension(Err(exception("nothing loaded")))),
        "nothing loaded"
    );
    assert_eq!(leiden.raw, 9);
}

#[test]
fn errors_show_their_text() {
    assert_eq!(Error::Cxx(exception("boom")).message(), "boom");
    assert_eq!(icebug::invalid_input("bad".to_string()).message(), "bad");
    assert_eq!(Error::from(exception("x")).message(), "x");
    assert!(matches!(icebug::invalid_input("y".to_string()), Error::InvalidInput(m) if m == "y"));
}

#[test]
fn lift_maps_only_the_exception() {
    assert_eq!(lift::<u64>(Ok(5)).unwrap(), 5);
    assert_eq!(engine_text(lift::<u64>(Err(exception("e")))), "e");
}

#[test]
fn plain_result_types() {
    let e = Edge { u: 1, v: 2 };
    assert_eq!(e, Edge { u: 1, v: 2 });
    assert_ne!(e, Edge { u: 2, v: 1 });
    let p = PartitionResult { membership: vec![0, 0, 1], count: 2 };
    assert_eq!(p.membership.len(), 3);
    assert_eq!(p.count, 2);
}
