use ticket_store::squared;

#[test]
fn empty() {
    let mut s = vec![];
    squared(&mut s);
    assert_eq!(s, vec![]);
}

#[test]
fn one() {
    let mut s = [2];
    squared(&mut s);
    assert_eq!(s, [4]);
}

#[test]
fn multiple() {
    let mut s = vec![2, 4];
    squared(&mut s);
    assert_eq!(s, vec![4, 16]);
}

#[test]
fn negative_values() {
    let mut s = vec![-3, 0, 5];
    squared(&mut s);
    assert_eq!(s, vec![9, 0, 25]);
}

#[test]
fn largest_safe_value() {
    let mut s = vec![46340, -46340];
    squared(&mut s);
    assert_eq!(s, vec![2147395600, 2147395600]);
}
