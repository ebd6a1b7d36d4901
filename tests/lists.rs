use capnp_conv::examples::{read_remote_list, write_remote_list, BasicStruct, ExampleEnum, RemoteExampleEnum};
use capnp_conv::lists::{
    read_data_list, read_list, read_text_list, try_read, try_write, widen, write_data_list, write_list,
    write_text_list,
};

#[test]
fn test_primitive() {
    let input = vec![0, 1, 2, 3, 4];
    let mut list = vec![0; input.len()];
    write_list(&mut list, &input);

    let output = read_list(&list);

    assert_eq!(input, output);
}

#[test]
fn test_primitive_conv() {
    let input: Vec<i64> = vec![0, 1, 2, 3, 4];
    let mut list = vec![0i16; input.len()];
    try_write(&mut list, &input).unwrap();

    let output: Vec<i16> = read_list(&list);

    let output: Vec<i64> = widen(&output);

    assert_eq!(input, output);
}

#[test]
fn test_data() {
    let input: Vec<Vec<u8>> = vec![vec![0, 1, 2], vec![3, 4, 5], vec![6, 7, 8]];
    let mut list = vec![Vec::new(); input.len()];
    write_data_list(&mut list, &input);

    let output = read_data_list(&list);

    assert_eq!(input, output);
}

#[test]
fn test_text() {
    let input = vec!["one", "two", "three"];
    let mut list = vec![String::new(); input.len()];
    write_text_list(&mut list, &input);

    let output = read_text_list(&list);

    assert_eq!(input, output);
}

#[test]
fn test_struct() {
    let input = vec![BasicStruct { val: 0 }, BasicStruct { val: 1 }, BasicStruct { val: 2 }];
    let mut list = vec![BasicStruct { val: -1 }; input.len()];
    write_list(&mut list, &input);

    let output = read_list(&list);

    assert_eq!(input, output);
}

#[test]
fn test_enum() {
    let input = vec![ExampleEnum::Val2, ExampleEnum::Val1];
    let mut list = vec![ExampleEnum::Val1; input.len()];
    write_list(&mut list, &input);

    let output = read_list(&list);

    assert_eq!(input, output);
}

#[test]
fn test_remote_enum() {
    let input = vec![RemoteExampleEnum::Val2, RemoteExampleEnum::Val1];
    let mut list = vec![ExampleEnum::Val1; input.len()];
    write_remote_list(&mut list, &input);
    assert_eq!(list, vec![ExampleEnum::Val2, ExampleEnum::Val1]);

    let output = read_remote_list(&list);

    assert_eq!(input, output);
}

#[test]
fn narrowing_keeps_extremes() {
    let extremes: Vec<i64> = vec![i16::MIN as i64, i16::MAX as i64];
    let mut list = vec![0i16; 2];
    assert_eq!(try_write(&mut list, &extremes), Ok(()));
    assert_eq!(list, vec![i16::MIN, i16::MAX]);
    assert_eq!(widen(&list), extremes);
}

#[test]
fn narrowing_stops_at_first_bad_item() {
    let input: Vec<i64> = vec![7, 40000, 9, -40000];
    let mut list = vec![-1i16; input.len()];
    assert_eq!(try_write(&mut list, &input), Err(1));
    assert_eq!(list, vec![7, -1, -1, -1]);
    assert_eq!(try_read(&input), Err(1));
    assert_eq!(try_read(&vec![1, -2, 3]), Ok(vec![1i16, -2, 3]));
    assert_eq!(try_read(&vec![]), Ok(vec![]));
    let mut empty: Vec<i16> = vec![];
    assert_eq!(try_write(&mut empty, &vec![]), Ok(()));
}
