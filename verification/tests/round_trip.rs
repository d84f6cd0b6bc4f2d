use datatypes::external::content::requests::{AddCategoryPayload, RawAddCategoryPayload};
use datatypes::valid::fields::{
    CommentContent, Description, Email, PlainPassword, QueryStr, Title, Username,
};

#[test]
fn a_plain_text_is_written_as_it_is() {
    assert_eq!(
        Title::try_from(String::from("A fine title")).unwrap().to_wire(),
        "A fine title"
    );
    assert_eq!(
        Username::try_from(String::from("john")).unwrap().to_wire(),
        "john"
    );
    assert_eq!(
        Email::try_from(String::from("john@example.com"))
            .unwrap()
            .to_wire(),
        "john@example.com"
    );
    assert_eq!(
        QueryStr::try_from(String::from("rust lang")).unwrap().to_wire(),
        "rust lang"
    );
    match PlainPassword::try_from(String::from("helloAndWelcome123")) {
        Ok(password) => assert_eq!(password.to_wire(), "helloAndWelcome123"),
        Err(reason) => panic!("refused: {:?}", reason),
    }
}

#[test]
fn writing_escapes_what_is_kept() {
    let title = Title::try_from(String::from("Tom & Jerry")).unwrap();
    assert_eq!(title.as_ref(), "Tom &amp; Jerry");
    assert_eq!(title.to_wire(), "Tom &amp;amp; Jerry");
    let comment = CommentContent::try_from(String::from("<b>bold</b>")).unwrap();
    assert_eq!(comment.to_wire(), "&amp;lt;b&amp;gt;bold&amp;lt;/b&amp;gt;");
}

#[test]
fn a_plain_value_survives_writing_and_reading() {
    for text in vec!["A fine title", "Hello", "blåbærsyltetøy er godt"] {
        let title = Title::try_from(String::from(text)).unwrap();
        assert_eq!(Title::try_from(title.to_wire()).unwrap(), title);
        let description = Description::try_from(String::from(text)).unwrap();
        assert_eq!(
            Description::try_from(description.to_wire()).unwrap(),
            description
        );
    }
}

#[test]
fn a_plain_payload_survives_writing_and_reading() {
    let first = AddCategoryPayload::try_from(RawAddCategoryPayload {
        title: "Raw title",
        description: "Raw description",
    })
    .unwrap();
    let title = first.title.to_wire();
    let description = first.description.to_wire();
    let again = AddCategoryPayload::try_from(RawAddCategoryPayload {
        title: title.as_str(),
        description: description.as_str(),
    })
    .unwrap();
    assert_eq!(first, again);
}
