use datatypes::content::responses::{
    CategoryPayload as StoredCategory, ContentSuccess, RawCategoryPayload as RawStoredCategory,
    RawContentSuccess, RawSearchResultsPayload, RawUserPayload as RawStoredUser,
    SearchResultsPayload,
};
use datatypes::external::content::responses::{
    CategoryPayload, CommentPayload, ContentRequestSuccess, RawCategoryPayload, RawCommentPayload,
    RawContentRequestSuccess, RawUserPayload, UserPayload,
};
use datatypes::valid::convert::convert_all;
use datatypes::valid::ValidationError;

fn category<'a>(id: u32, title: &'a str, description: &'a str) -> RawCategoryPayload<'a> {
    RawCategoryPayload {
        title,
        description,
        id,
    }
}

#[test]
fn a_list_is_converted_in_order() {
    let raws = vec![
        category(1, "First title", "first"),
        category(2, "Second <title>", "second"),
    ];
    let valid: Vec<CategoryPayload> = convert_all(&raws).unwrap();
    assert_eq!(valid.len(), 2);
    assert_eq!(*valid[0].id.as_ref(), 1);
    assert_eq!(valid[0].title.as_ref(), "First title");
    assert_eq!(*valid[1].id.as_ref(), 2);
    assert_eq!(valid[1].title.as_ref(), "Second &lt;title&gt;");
    assert_eq!(valid[1].description.as_ref(), "second");
}

#[test]
fn the_first_refused_element_gives_the_reason() {
    let raws = vec![
        category(1, "First title", "first"),
        category(2, "Second title", ""),
        category(3, "", "third"),
    ];
    let made: Result<Vec<CategoryPayload>, _> = convert_all(&raws);
    assert_eq!(made.unwrap_err(), ValidationError::InvalidDescription);

    let raws = vec![category(3, "", ""), category(2, "Second title", "")];
    let made: Result<Vec<CategoryPayload>, _> = convert_all(&raws);
    assert_eq!(made.unwrap_err(), ValidationError::InvalidTitle);
}

#[test]
fn an_empty_list_is_never_refused() {
    let raws: Vec<RawCategoryPayload> = Vec::new();
    let made: Vec<CategoryPayload> = convert_all(&raws).unwrap();
    assert!(made.is_empty());
}

#[test]
fn a_response_keeps_its_variant() {
    let raw = RawContentRequestSuccess::Categories(vec![category(1, "First title", "first")]);
    match ContentRequestSuccess::try_from(raw).unwrap() {
        ContentRequestSuccess::Categories(list) => assert_eq!(list.len(), 1),
        other => panic!("unexpected variant {:?}", other),
    }

    let raw = RawContentRequestSuccess::Comment(RawCommentPayload {
        title: "A fine title",
        content: "A fine comment",
        id: 4,
        thread_id: 5,
        timestamp: 6,
        parent_id: None,
    });
    match ContentRequestSuccess::try_from(raw).unwrap() {
        ContentRequestSuccess::Comment(CommentPayload { id, parent_id, .. }) => {
            assert_eq!(*id.as_ref(), 4);
            assert_eq!(parent_id, None);
        }
        other => panic!("unexpected variant {:?}", other),
    }

    let raw = RawContentRequestSuccess::Users(vec![
        RawUserPayload {
            username: "john",
            description: "It is me",
            id: 1,
        },
        RawUserPayload {
            username: "jo",
            description: "",
            id: 2,
        },
    ]);
    assert_eq!(
        ContentRequestSuccess::try_from(raw).unwrap_err(),
        ValidationError::InvalidUsername
    );

    let raw = RawContentRequestSuccess::User(RawUserPayload {
        username: "john",
        description: "It is me",
        id: 1,
    });
    match ContentRequestSuccess::try_from(raw).unwrap() {
        ContentRequestSuccess::User(UserPayload { username, .. }) => {
            assert_eq!(username.as_ref(), "john")
        }
        other => panic!("unexpected variant {:?}", other),
    }
}

#[test]
fn a_stored_description_may_be_empty() {
    let raw = RawStoredCategory {
        id: 1,
        title: "A fine title",
        description: "",
        hidden: false,
    };
    let valid = StoredCategory::try_from(raw).unwrap();
    assert_eq!(valid.description.as_ref(), "");
    assert!(!valid.hidden);
}

#[test]
fn search_results_are_converted_list_by_list() {
    let raw = RawSearchResultsPayload {
        categories: vec![RawStoredCategory {
            id: 1,
            title: "A fine title",
            description: "",
            hidden: true,
        }],
        threads: Vec::new(),
        comments: Vec::new(),
        users: vec![RawStoredUser {
            id: 2,
            username: "irene",
            description: None,
            avatar: Some("irene.png"),
        }],
    };
    let valid = SearchResultsPayload::try_from(raw).unwrap();
    assert_eq!(valid.categories.len(), 1);
    assert!(valid.categories[0].hidden);
    assert_eq!(valid.users[0].username.as_ref(), "irene");
    assert_eq!(valid.users[0].description, None);
    assert_eq!(valid.users[0].avatar, Some(String::from("irene.png")));

    let raw = RawSearchResultsPayload {
        categories: vec![RawStoredCategory {
            id: 1,
            title: "no",
            description: "",
            hidden: true,
        }],
        threads: Vec::new(),
        comments: Vec::new(),
        users: vec![RawStoredUser {
            id: 2,
            username: "x",
            description: None,
            avatar: None,
        }],
    };
    assert_eq!(
        SearchResultsPayload::try_from(raw).unwrap_err(),
        ValidationError::InvalidTitle
    );

    let raw = RawContentSuccess::SearchResult(RawSearchResultsPayload {
        categories: Vec::new(),
        threads: Vec::new(),
        comments: Vec::new(),
        users: vec![RawStoredUser {
            id: 2,
            username: "x",
            description: None,
            avatar: None,
        }],
    });
    assert_eq!(
        ContentSuccess::try_from(raw).unwrap_err(),
        ValidationError::InvalidUsername
    );
}
