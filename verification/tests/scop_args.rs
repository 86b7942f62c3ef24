use scop::scop::obj_file_arg;

#[test]
fn one_file_argument_is_taken() {
    let args = vec!["scop".to_string(), "teapot.obj".to_string()];
    assert_eq!(obj_file_arg(&args), Ok(&"teapot.obj".to_string()));
}

#[test]
fn other_argument_counts_are_refused() {
    let msg = "Error: Not enough parameters. Use: spot file.obj";
    assert_eq!(obj_file_arg(&vec!["scop".to_string()]), Err(msg));
    assert_eq!(obj_file_arg(&vec![]), Err(msg));
    let three = vec!["scop".to_string(), "a.obj".to_string(), "b.obj".to_string()];
    assert_eq!(obj_file_arg(&three), Err(msg));
}
