use qarax::cpu_list::{expand_cpu_list, expand_cpu_list_to_string};

#[test]
fn expand_cpu_list_range() {
    assert_eq!(expand_cpu_list("0-3"), vec![0, 1, 2, 3]);
}

#[test]
fn expand_cpu_list_single() {
    assert_eq!(expand_cpu_list("8"), vec![8]);
}

#[test]
fn expand_cpu_list_mixed() {
    assert_eq!(expand_cpu_list("0-3,8"), vec![0, 1, 2, 3, 8]);
}

#[test]
fn expand_cpu_list_empty() {
    assert_eq!(expand_cpu_list(""), Vec::<i32>::new());
}

#[test]
fn expand_cpu_list_sorted() {
    assert_eq!(expand_cpu_list("8,0-3"), vec![0, 1, 2, 3, 8]);
}

#[test]
fn expand_cpu_list_to_string_range() {
    assert_eq!(expand_cpu_list_to_string(&[0, 1, 2, 3]), "0-3");
}

#[test]
fn expand_cpu_list_to_string_single() {
    assert_eq!(expand_cpu_list_to_string(&[8]), "8");
}

#[test]
fn expand_cpu_list_to_string_mixed() {
    assert_eq!(expand_cpu_list_to_string(&[0, 1, 2, 3, 8]), "0-3,8");
}

#[test]
fn expand_cpu_list_to_string_empty() {
    assert_eq!(expand_cpu_list_to_string(&[]), "");
}

#[test]
fn expand_cpu_list_to_string_dedup() {
    assert_eq!(expand_cpu_list_to_string(&[0, 0, 1, 2]), "0-2");
}

#[test]
fn roundtrip() {
    let cpus = vec![0, 1, 2, 3, 8, 10, 11];
    let s = expand_cpu_list_to_string(&cpus);
    assert_eq!(expand_cpu_list(&s), cpus);
}

#[test]
fn cpu_list_roundtrip_of_unsorted_input_gives_sorted_distinct() {
    let s = expand_cpu_list_to_string(&[5, 3, 4, 3, 9]);
    assert_eq!(s, "3-5,9");
    assert_eq!(expand_cpu_list(&s), vec![3, 4, 5, 9]);
}

#[test]
fn expand_cpu_list_skips_unparsable_parts() {
    assert_eq!(expand_cpu_list("x,2,4-a"), vec![2]);
}
