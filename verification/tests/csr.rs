use arrow_array::{Float64Array, UInt64Array};
use icebug::{Error, FloatColumn, GraphR, U64Column};

fn col(values: Vec<u64>) -> U64Column {
    U64Column(UInt64Array::from(values))
}

fn col_with_nulls(values: Vec<Option<u64>>) -> U64Column {
    U64Column(UInt64Array::from(values))
}

fn weights(values: Vec<f64>) -> FloatColumn {
    FloatColumn(Float64Array::from(values))
}

fn refusal(res: icebug::Result<GraphR>) -> String {
    match res {
        Err(Error::InvalidInput(m)) => m,
        Err(Error::Cxx(e)) => panic!("unexpected engine error {}", e.what),
        Ok(_) => panic!("input was accepted"),
    }
}

fn row(graph: &GraphR, u: usize) -> Vec<u64> {
    let indptr = graph.out_indptr().0.values();
    let indices = graph.out_indices().0.values();
    indices[indptr[u] as usize..indptr[u + 1] as usize].to_vec()
}

#[test]
fn arrow_csr_graph_queries() {
    let graph = GraphR::from_csr(3, false, col(vec![1_u64, 2, 0, 0]), col(vec![0_u64, 2, 3, 4]))
        .unwrap();

    assert_eq!(graph.n(), 3);
    assert_eq!(row(&graph, 0), vec![1, 2]);
    assert!(row(&graph, 0).contains(&1));
}

#[test]
fn accepted_graph_keeps_its_arrays() {
    let graph = GraphR::from_csr_with_inputs(
        3,
        false,
        col(vec![1, 2, 0, 0]),
        col(vec![0, 2, 3, 4]),
        None,
        None,
        Some(weights(vec![1.0, 2.0, 3.0, 4.0])),
        None,
    )
    .unwrap();
    assert_eq!(graph.n(), 3);
    assert!(!graph.is_directed());
    assert_eq!(graph.out_indices().0.values().to_vec(), vec![1, 2, 0, 0]);
    assert_eq!(graph.out_indptr().0.values().to_vec(), vec![0, 2, 3, 4]);
    assert!(graph.in_indices().is_none());
    assert!(graph.in_indptr().is_none());
    assert_eq!(graph.out_weights().unwrap().0.len(), 4);
    assert!(graph.in_weights().is_none());
}

#[test]
fn every_row_lies_inside_the_indices() {
    let graph = GraphR::from_csr(4, false, col(vec![1, 0, 3, 2]), col(vec![0, 1, 2, 2, 4])).unwrap();
    for u in 0..4 {
        let indptr = graph.out_indptr().0.values();
        assert!(indptr[u] <= indptr[u + 1]);
        assert!(indptr[u + 1] as usize <= graph.out_indices().0.len());
    }
    assert_eq!(row(&graph, 2), Vec::<u64>::new());
    assert_eq!(row(&graph, 3), vec![3, 2]);
}

#[test]
fn empty_graph_is_accepted() {
    let graph = GraphR::from_csr(0, false, col(vec![]), col(vec![0])).unwrap();
    assert_eq!(graph.n(), 0);
}

#[test]
fn directed_graph_from_both_directions() {
    let graph = GraphR::from_directed_csr(
        2,
        col(vec![1]),
        col(vec![0, 1, 1]),
        col(vec![0]),
        col(vec![0, 0, 1]),
    )
    .unwrap();
    assert!(graph.is_directed());
    assert_eq!(graph.in_indices().unwrap().0.values().to_vec(), vec![0]);
    assert_eq!(graph.in_indptr().unwrap().0.values().to_vec(), vec![0, 0, 1]);
}

#[test]
fn out_indices_with_nulls_are_refused() {
    let res = GraphR::from_csr(1, false, col_with_nulls(vec![Some(0), None]), col(vec![0, 2]));
    assert_eq!(refusal(res), "out_indices must not contain nulls");
}

#[test]
fn out_indptr_with_nulls_is_refused() {
    let res = GraphR::from_csr(1, false, col(vec![0]), col_with_nulls(vec![Some(0), None]));
    assert_eq!(refusal(res), "out_indptr must not contain nulls");
}

#[test]
fn indptr_of_wrong_length_is_refused() {
    let res = GraphR::from_csr(3, false, col(vec![1, 2, 0, 0]), col(vec![0, 2, 4]));
    assert_eq!(refusal(res), "out_indptr length must be n + 1");
}

#[test]
fn indptr_for_the_largest_node_count_is_refused() {
    let res = GraphR::from_csr(u64::MAX, false, col(vec![]), col(vec![0]));
    assert_eq!(refusal(res), "out_indptr length must be n + 1");
}

#[test]
fn indptr_that_does_not_start_at_zero_is_refused() {
    let res = GraphR::from_csr(2, false, col(vec![1, 0]), col(vec![1, 1, 2]));
    assert_eq!(refusal(res), "out_indptr must start at 0");
}

#[test]
fn indptr_that_does_not_end_at_the_indices_length_is_refused() {
    let res = GraphR::from_csr(2, false, col(vec![1, 0, 1]), col(vec![0, 1, 2]));
    assert_eq!(refusal(res), "out_indptr last offset must equal indices length");
}

#[test]
fn decreasing_indptr_is_refused() {
    let res = GraphR::from_csr(3, false, col(vec![1, 0, 1]), col(vec![0, 2, 1, 3]));
    assert_eq!(refusal(res), "out_indptr must be monotonically increasing");
}

#[test]
fn directed_graph_without_incoming_arrays_is_refused() {
    let res = GraphR::from_csr(2, true, col(vec![1]), col(vec![0, 1, 1]));
    assert_eq!(refusal(res), "directed GraphR requires incoming CSR arrays");
    let res = GraphR::from_csr_with_inputs(
        2,
        true,
        col(vec![1]),
        col(vec![0, 1, 1]),
        Some(col(vec![0])),
        None,
        None,
        None,
    );
    assert_eq!(refusal(res), "directed GraphR requires incoming CSR arrays");
}

#[test]
fn out_array_problems_come_before_the_direction_check() {
    let res = GraphR::from_csr(2, true, col(vec![1]), col(vec![0, 1]));
    assert_eq!(refusal(res), "out_indptr length must be n + 1");
}

#[test]
fn in_indices_with_nulls_are_refused() {
    let res = GraphR::from_directed_csr(
        2,
        col(vec![1]),
        col(vec![0, 1, 1]),
        col_with_nulls(vec![None]),
        col(vec![0, 0, 1]),
    );
    assert_eq!(refusal(res), "in_indices must not contain nulls");
}

#[test]
fn in_indptr_with_nulls_is_refused() {
    let res = GraphR::from_directed_csr(
        2,
        col(vec![1]),
        col(vec![0, 1, 1]),
        col(vec![0]),
        col_with_nulls(vec![Some(0), None, Some(1)]),
    );
    assert_eq!(refusal(res), "in_indptr must not contain nulls");
}

#[test]
fn bad_in_indptr_is_refused() {
    let res = GraphR::from_directed_csr(
        2,
        col(vec![1]),
        col(vec![0, 1, 1]),
        col(vec![0]),
        col(vec![0, 0, 2]),
    );
    assert_eq!(refusal(res), "in_indptr last offset must equal indices length");
}

#[test]
fn in_indptr_without_in_indices_must_be_all_zero() {
    let res = GraphR::from_csr_with_inputs(
        2,
        false,
        col(vec![1, 0]),
        col(vec![0, 1, 2]),
        None,
        Some(col(vec![0, 1, 1])),
        None,
        None,
    );
    assert_eq!(refusal(res), "in_indptr last offset must equal indices length");
    let graph = GraphR::from_csr_with_inputs(
        2,
        false,
        col(vec![1, 0]),
        col(vec![0, 1, 2]),
        None,
        Some(col(vec![0, 0, 0])),
        None,
        None,
    );
    assert!(graph.is_ok());
}

#[test]
fn out_weights_with_nulls_are_refused() {
    let res = GraphR::from_csr_with_inputs(
        2,
        false,
        col(vec![1, 0]),
        col(vec![0, 1, 2]),
        None,
        None,
        Some(FloatColumn(Float64Array::from(vec![Some(1.0), None]))),
        None,
    );
    assert_eq!(refusal(res), "out_weights must not contain nulls");
}

#[test]
fn out_weights_of_wrong_length_are_refused() {
    let res = GraphR::from_csr_with_inputs(
        2,
        false,
        col(vec![1, 0]),
        col(vec![0, 1, 2]),
        None,
        None,
        Some(weights(vec![1.0])),
        None,
    );
    assert_eq!(refusal(res), "out_weights length must match out_indices");
}

#[test]
fn in_weights_with_nulls_are_refused() {
    let res = GraphR::from_csr_with_inputs(
        2,
        true,
        col(vec![1]),
        col(vec![0, 1, 1]),
        Some(col(vec![0])),
        Some(col(vec![0, 0, 1])),
        Some(weights(vec![2.5])),
        Some(FloatColumn(Float64Array::from(vec![None::<f64>]))),
    );
    assert_eq!(refusal(res), "in_weights must not contain nulls");
}

#[test]
fn in_weights_of_wrong_length_are_refused() {
    let res = GraphR::from_csr_with_inputs(
        2,
        true,
        col(vec![1]),
        col(vec![0, 1, 1]),
        Some(col(vec![0])),
        Some(col(vec![0, 0, 1])),
        None,
        Some(weights(vec![1.0, 2.0])),
    );
    assert_eq!(refusal(res), "in_weights length must match in_indices");
}

#[test]
fn weighted_directed_graph_is_accepted() {
    let graph = GraphR::from_csr_with_inputs(
        2,
        true,
        col(vec![1]),
        col(vec![0, 1, 1]),
        Some(col(vec![0])),
        Some(col(vec![0, 0, 1])),
        Some(weights(vec![0.5])),
        Some(weights(vec![0.5])),
    )
    .unwrap();
    assert!(graph.is_directed());
    assert_eq!(graph.in_weights().unwrap().0.len(), 1);
}
