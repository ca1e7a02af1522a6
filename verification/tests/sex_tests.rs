use anonymizer::PatientSex;

#[test]
fn ok() {
    assert_eq!(PatientSex::M, PatientSex::from_str("M").unwrap());
    assert_eq!(PatientSex::F, PatientSex::from_str("F").unwrap());
    assert_eq!(PatientSex::O, PatientSex::from_str("O").unwrap());
    assert_eq!(PatientSex::M, PatientSex::from_str("m").unwrap());
    assert_eq!(PatientSex::F, PatientSex::from_str("f").unwrap());
    assert_eq!(PatientSex::O, PatientSex::from_str("o").unwrap());
}

#[test]
fn error() {
    let ps = PatientSex::from_str("MM");

    match ps {
        Ok(_) => assert!(false, "Should throw an error"),
        Err(_) => assert!(true),
    };
}

#[test]
fn enum_count() {
    assert_eq!(PatientSex::COUNT, 3);
}

#[test]
fn value_is_the_uppercase_code() {
    assert_eq!(PatientSex::M.value(), "M");
    assert_eq!(PatientSex::F.value(), "F");
    assert_eq!(PatientSex::O.value(), "O");
    assert_eq!(PatientSex::default(), PatientSex::M);
}

#[test]
fn sex_error_names_the_input() {
    let err = PatientSex::from_str("x").unwrap_err();
    assert_eq!(
        err.message(),
        "Only one of the values M,F,O are allowed (not case sensitive): x"
    );
}
