use ticker_hub::streams::{
    get_chunked_ws_streams, partition, render_group, MAX_STREAMS_PER_CONNECTION,
};

fn symbols(n: usize) -> Vec<String> {
    (0..n).map(|i| format!("SYM{}USDT", i)).collect()
}

fn sizes(groups: &Vec<Vec<String>>) -> Vec<usize> {
    groups.iter().map(|g| g.len()).collect()
}

#[test]
fn three_hundred_and_one_symbols_make_two_groups() {
    let all = symbols(301);
    let groups = partition(&all, 300);
    assert_eq!(sizes(&groups), vec![300, 1]);
    assert_eq!(groups[1][0], "SYM300USDT");
}

#[test]
fn partition_of_nothing_is_no_group() {
    let groups = partition(&Vec::new(), 300);
    assert!(groups.is_empty());
}

#[test]
fn partition_of_a_full_group_is_one_group() {
    let all = symbols(300);
    let groups = partition(&all, 300);
    assert_eq!(sizes(&groups), vec![300]);
    assert_eq!(groups[0], all);
}

#[test]
fn partition_rounds_the_number_of_groups_up() {
    assert_eq!(sizes(&partition(&symbols(7), 3)), vec![3, 3, 1]);
    assert_eq!(sizes(&partition(&symbols(6), 3)), vec![3, 3]);
    assert_eq!(sizes(&partition(&symbols(2), 3)), vec![2]);
    assert_eq!(sizes(&partition(&symbols(5), 1)), vec![1, 1, 1, 1, 1]);
    assert_eq!(sizes(&partition(&symbols(5), usize::MAX)), vec![5]);
}

#[test]
fn partition_keeps_every_symbol_in_its_place() {
    for n in 0..40 {
        for m in 1..9 {
            let all = symbols(n);
            let groups = partition(&all, m);
            assert_eq!(groups.len(), (n + m - 1) / m);
            assert!(groups.iter().all(|g| !g.is_empty() && g.len() <= m));
            assert_eq!(groups.concat(), all);
        }
    }
}

#[test]
fn partition_is_the_same_each_time() {
    let all = symbols(650);
    assert_eq!(partition(&all, 300), partition(&all, 300));
}

#[test]
fn group_is_written_as_a_path_of_lower_case_streams() {
    let group = vec!["BTCUSDT".to_string(), "ETHUSDT".to_string()];
    assert_eq!(render_group(&group), "btcusdt@ticker/ethusdt@ticker");
    assert_eq!(render_group(&vec!["BnbBtc".to_string()]), "bnbbtc@ticker");
    assert_eq!(render_group(&Vec::new()), "");
}

#[test]
fn streams_are_cut_at_the_connection_limit() {
    assert_eq!(MAX_STREAMS_PER_CONNECTION, 300);
    let all = symbols(601);
    let paths = get_chunked_ws_streams(&all);
    assert_eq!(paths.len(), 3);
    assert_eq!(paths[0].split('/').count(), 300);
    assert_eq!(paths[1].split('/').count(), 300);
    assert_eq!(paths[2], "sym600usdt@ticker");
    assert!(paths[0].starts_with("sym0usdt@ticker/sym1usdt@ticker/"));
    assert!(paths[1].starts_with("sym300usdt@ticker/"));
}

#[test]
fn no_symbols_give_no_streams() {
    assert!(get_chunked_ws_streams(&Vec::new()).is_empty());
}
