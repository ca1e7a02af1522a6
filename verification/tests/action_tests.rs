use anonymizer::TagAction;

#[test]
fn enums_has_option_map_like_function() {
    assert_eq!(
        TagAction::Change("MyString"),
        TagAction::Change(1).map(|_| "MyString")
    );
    assert_eq!(
        TagAction::Change("MyString"),
        TagAction::Change(Option::Some("MyString")).map(|value| value.unwrap())
    );
    assert_ne!(
        TagAction::Change("MyString"),
        TagAction::Keep.map(|_: String| "MyString")
    );
}

#[test]
fn enums_can_be_transformed_into_an_option_and_back() {
    assert_eq!(
        Option::Some("MyString"),
        Option::from(TagAction::Change("MyString")),
    );
    assert_eq!(
        Option::<usize>::None,
        Option::from(TagAction::<usize>::Keep),
    );
    assert_eq!(
        Option::<usize>::None,
        Option::from(TagAction::<usize>::Remove),
    );

    assert_eq!(
        TagAction::Change(1),
        TagAction::from(Option::Some(1)),
    );
    assert_eq!(
        TagAction::<usize>::Keep,
        TagAction::from(Option::<usize>::None),
    );
}

#[test]
fn tag_action_has_option_map_like_function() {
    assert_eq!(
        TagAction::Change("MyString"),
        TagAction::Change(1).map(|_| "MyString")
    );
    assert_eq!(
        TagAction::Change("MyString"),
        TagAction::Change(Option::Some("MyString")).map(|value| value.unwrap())
    );
    assert_ne!(
        TagAction::Change("MyString"),
        TagAction::Keep.map(|_: String| "MyString")
    );
}

#[test]
fn tag_action_can_be_transformed_into_an_option_and_back() {
    assert_eq!(
        Option::Some("MyString"),
        Option::from(TagAction::Change("MyString")),
    );
    assert_eq!(Option::<usize>::None, Option::from(TagAction::<usize>::Keep),);
    assert_eq!(Option::<usize>::None, Option::from(TagAction::<usize>::Remove),);

    assert_eq!(TagAction::Change(1), TagAction::from(Option::Some(1)),);
    assert_eq!(TagAction::<usize>::Keep, TagAction::from(Option::<usize>::None),);
}

#[test]
fn default_action_keeps() {
    assert_eq!(TagAction::<String>::default(), TagAction::Keep);
}
