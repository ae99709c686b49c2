use apca::util::string_slice_to_str;

fn strings(parts: &[&str]) -> Vec<String> {
    parts.iter().map(|part| part.to_string()).collect()
}

#[test]
fn joins_nothing_to_nothing() {
    assert_eq!(string_slice_to_str(&strings(&[])), "");
}

#[test]
fn joins_one_part_to_itself() {
    assert_eq!(string_slice_to_str(&strings(&["AAPL"])), "AAPL");
}

#[test]
fn joins_parts_with_commas_in_order() {
    assert_eq!(
        string_slice_to_str(&strings(&["AAPL", "MSFT", "SPY"])),
        "AAPL,MSFT,SPY"
    );
    assert_eq!(
        string_slice_to_str(&strings(&["SPY", "AAPL"])),
        "SPY,AAPL"
    );
}

#[test]
fn joins_empty_parts() {
    assert_eq!(string_slice_to_str(&strings(&["", ""])), ",");
    assert_eq!(string_slice_to_str(&strings(&["a", "", "b"])), "a,,b");
}
