use datatypes::external::content::requests::{
    AddCategoryPayload, AddCommentPayload, ContentRequests, EditCategoryPayload,
    HideThreadPayload, RawAddCategoryPayload, RawAddCommentPayload, RawContentRequests,
    RawEditCategoryPayload, RawHideThreadPayload, RawUploadAvatarPayload,
};
use datatypes::valid::fields::{Description, Title};
use datatypes::valid::ValidationError;

#[test]
fn raw_to_valid_edit_category() {
    let raw = RawEditCategoryPayload {
        title: None,
        description: Some("a description"),
    };

    let valid = EditCategoryPayload {
        title: None,
        description: Some(Description::try_from("a description".to_string()).unwrap()),
    };

    let raw = EditCategoryPayload::try_from(raw).expect("raw should be valid");
    assert_eq!(valid, raw);
}

#[test]
fn raw_to_valid_add_category() {
    let raw = RawAddCategoryPayload {
        title: "Raw title",
        description: "Raw description",
    };

    let valid = AddCategoryPayload {
        title: Title::try_from("Raw title".to_string()).unwrap(),
        description: Description::try_from("Raw description".to_string()).unwrap(),
    };

    let raw = AddCategoryPayload::try_from(raw).expect("raw should be valid");
    assert_eq!(valid, raw);
}

#[test]
fn raw_to_valid_add_category_empty_title() {
    let raw = RawAddCategoryPayload {
        title: "",
        description: "Raw description",
    };

    let raw: Result<AddCategoryPayload, _> = AddCategoryPayload::try_from(raw);
    assert_eq!(ValidationError::InvalidTitle, raw.unwrap_err());
}

#[test]
fn raw_to_valid_add_category_empty_description() {
    let raw = RawAddCategoryPayload {
        title: "Some title",
        description: "",
    };

    let raw: Result<AddCategoryPayload, _> = AddCategoryPayload::try_from(raw);
    assert_eq!(ValidationError::InvalidDescription, raw.unwrap_err());
}

#[test]
fn first_invalid_field_gives_the_reason() {
    let raw = RawAddCategoryPayload {
        title: "",
        description: "",
    };
    for _ in 0..3 {
        assert_eq!(
            ValidationError::InvalidTitle,
            AddCategoryPayload::try_from(raw).unwrap_err()
        );
    }

    let raw = RawAddCommentPayload {
        title: "A fine title",
        content: "no",
        thread_id: 1,
        user_id: 2,
        timestamp: 3,
        parent_id: None,
    };
    assert_eq!(
        ValidationError::InvalidCommentContent,
        AddCommentPayload::try_from(raw).unwrap_err()
    );
}

#[test]
fn absent_optional_fields_stay_absent() {
    let raw = RawEditCategoryPayload {
        title: None,
        description: None,
    };
    let valid = EditCategoryPayload::try_from(raw).unwrap();
    assert!(valid.title.is_none());
    assert!(valid.description.is_none());
}

#[test]
fn present_optional_field_is_held_to_its_rule() {
    let raw = RawEditCategoryPayload {
        title: Some("abc"),
        description: None,
    };
    assert_eq!(
        ValidationError::InvalidTitle,
        EditCategoryPayload::try_from(raw).unwrap_err()
    );

    let raw = RawEditCategoryPayload {
        title: None,
        description: Some(""),
    };
    assert_eq!(
        ValidationError::InvalidDescription,
        EditCategoryPayload::try_from(raw).unwrap_err()
    );
}

#[test]
fn fields_that_are_carried_over_keep_their_values() {
    let raw = RawAddCommentPayload {
        title: "A fine title",
        content: "A fine comment",
        thread_id: 11,
        user_id: 22,
        timestamp: -33,
        parent_id: Some(44),
    };
    let valid = AddCommentPayload::try_from(raw).unwrap();
    assert_eq!(*valid.thread_id.as_ref(), 11);
    assert_eq!(*valid.user_id.as_ref(), 22);
    assert_eq!(valid.timestamp, -33);
    assert_eq!(*valid.parent_id.unwrap().as_ref(), 44);
    assert_eq!(valid.title.as_ref(), "A fine title");
    assert_eq!(valid.content.as_ref(), "A fine comment");
}

#[test]
fn a_request_keeps_its_variant() {
    let raw = RawContentRequests::HideThread(RawHideThreadPayload { hidden: true });
    assert_eq!(
        ContentRequests::try_from(raw).unwrap(),
        ContentRequests::HideThread(HideThreadPayload { hidden: true })
    );

    let raw = RawContentRequests::AddCategory(RawAddCategoryPayload {
        title: "tiny",
        description: "Raw description",
    });
    assert_eq!(
        ContentRequests::try_from(raw).unwrap_err(),
        ValidationError::InvalidTitle
    );

    let raw = RawContentRequests::UploadAvatar(RawUploadAvatarPayload {
        user_id: 5,
        avatar: "cat.png",
    });
    match ContentRequests::try_from(raw).unwrap() {
        ContentRequests::UploadAvatar(p) => {
            assert_eq!(*p.user_id.as_ref(), 5);
            assert_eq!(p.avatar, "cat.png");
        }
        other => panic!("unexpected variant {:?}", other),
    }
}
