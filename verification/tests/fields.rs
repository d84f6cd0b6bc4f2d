use datatypes::valid::fields::{
    CommentContent, Description, Email, PlainPassword, QueryStr, Title, Username,
};
use datatypes::valid::ValidationError;

fn s(text: &str) -> String {
    String::from(text)
}

#[test]
fn valid_usernames() {
    for name in vec!["john", "irene", "a_b-c", "0123456789"] {
        let made = Username::try_from(s(name));
        assert!(made.is_ok(), "expected '{}' to be valid input", name);
        assert_eq!(made.unwrap().as_ref(), name);
    }
}

#[test]
fn unvalid_usernames() {
    for name in vec!["jo", "", "abc", "elevenchars", "with space", "jöhn", "john\n"] {
        assert_eq!(
            Username::try_from(s(name)).unwrap_err(),
            ValidationError::InvalidUsername
        );
    }
}

#[test]
fn valid_password() {
    for password in vec!["helloAndWelcome123", "aB3aB3aB", "Abcdefg1"] {
        assert!(
            PlainPassword::try_from(s(password)).is_ok(),
            "expected '{}' to be valid input",
            password
        );
    }
}

#[test]
fn unvalid_password() {
    for password in vec![
        "john",
        "irenetra",
        "John",
        "johnsmith",
        "JOHNSMITH1",
        "johnsmith1",
        "JohnSmithh",
        "irene.Welcome1",
        "Ab1",
        "",
    ] {
        assert!(
            PlainPassword::try_from(s(password)).err() == Some(ValidationError::InvalidPassword),
            "expected '{}' to be invalid input",
            password
        );
    }
}

#[test]
fn a_password_keeps_its_text() {
    let made = match PlainPassword::try_from(s("helloAndWelcome123")) {
        Ok(password) => password,
        Err(reason) => panic!("refused: {:?}", reason),
    };
    assert_eq!(made.as_ref(), "helloAndWelcome123");
    assert_eq!(made.into_inner(), "helloAndWelcome123");
}

#[test]
fn valid_emails() {
    for email in vec![
        "john.theme@example.com",
        "irene@google.no",
        "post@tombarneby.com",
    ] {
        let made = Email::try_from(s(email));
        assert!(made.is_ok(), "expected '{}' to be valid input", email);
        assert_eq!(made.unwrap().to_string(), email);
    }
}

#[test]
fn unvalid_emails() {
    for email in vec!["john.theme.example.com", "irene@google", "tombarneby", ""] {
        assert_eq!(
            Email::try_from(s(email)).unwrap_err(),
            ValidationError::InvalidEmail
        );
    }
}

#[test]
fn valid_search_query() {
    for query in vec!["john", "irene", "a search with", "blåbær", "ab"] {
        let made = QueryStr::try_from(s(query));
        assert!(made.is_ok(), "expected '{}' to be valid input", query);
        assert_eq!(made.unwrap().as_ref(), query);
    }
}

#[test]
fn unvalid_search_query() {
    for query in vec!["", "a", "a search with spaces", "what?", "<b>"] {
        assert_eq!(
            QueryStr::try_from(s(query)).unwrap_err(),
            ValidationError::InvalidQuery
        );
    }
}

#[test]
fn search_query_of_a_form_value() {
    assert_eq!(
        QueryStr::from_form_value(Some(s("rust lang"))).unwrap().as_ref(),
        "rust lang"
    );
    assert_eq!(
        QueryStr::from_form_value(None).unwrap_err(),
        ValidationError::InvalidQuery
    );
    assert_eq!(
        QueryStr::from_form_value(Some(s("x"))).unwrap_err(),
        ValidationError::InvalidQuery
    );
}

#[test]
fn valid_comments() {
    for comment in vec!["Hello everyone!", "Hello", "Hello, I love you all guys."] {
        assert!(
            CommentContent::try_from(s(comment)).is_ok(),
            "expected '{}' to be valid input",
            comment
        );
    }
}

#[test]
fn unvalid_comments() {
    let long = "c".repeat(80);
    for comment in vec!["", "Hola", long.as_str()] {
        assert_eq!(
            CommentContent::try_from(s(comment)).unwrap_err(),
            ValidationError::InvalidCommentContent
        );
    }
}

#[test]
fn valid_title() {
    let longest = "t".repeat(79);
    for title in vec![
        "Just a question.",
        "Hello",
        "Hello, I love you all guys!",
        longest.as_str(),
    ] {
        assert!(
            Title::try_from(s(title)).is_ok(),
            "expected '{}' to be valid input",
            title
        );
    }
}

#[test]
fn unvalid_title() {
    let long = "t".repeat(80);
    for title in vec![
        "Just a questionyyyyyyyyyyyyyyyyyyyyyyyyyyyyyyyyyyyyyyyyyyyyyyyyyyyyyyyyyyyyyyyyyyyyyyyyyyyyyyyyyyyyyyyyyyyyyyyyy.",
        "Helloccccccccccccccccccccccccccccccccccccccccccccccccccccccvvvvvvvvvvvvvvvvvvvvvvvvvvvvvvvvvvvvvs fgfd fffdfffdfdfddfffffff",
        "Hello, I love you all guys! Or what Am fthd fgd rg srsrsd weesdef sdfeeeeeeeeeeeeeeeeeeeeef  esfsefsefds dgf  dfd    dfsdf",
        "",
        "Four",
        long.as_str(),
    ] {
        assert_eq!(
            Title::try_from(s(title)).unwrap_err(),
            ValidationError::InvalidTitle
        );
    }
}

#[test]
fn title_length_is_counted_in_bytes() {
    // four characters, eight bytes
    assert!(Title::try_from(s("åååå")).is_ok());
    // forty characters, eighty bytes
    assert_eq!(
        Title::try_from("å".repeat(40)).unwrap_err(),
        ValidationError::InvalidTitle
    );
}

#[test]
fn valid_desc() {
    let longest = "d".repeat(254);
    for description in vec![
        "Questions can be asked here.",
        "Hello",
        "Hello, I love you all guys!",
        "",
        longest.as_str(),
    ] {
        assert!(
            Description::try_from(s(description)).is_ok(),
            "expected '{}' to be valid input",
            description
        );
    }
}

#[test]
fn unvalid_desc() {
    assert_eq!(
        Description::try_from("d".repeat(255)).unwrap_err(),
        ValidationError::InvalidDescription
    );
}

#[test]
fn stricter_description_refuses_the_empty_text() {
    assert_eq!(
        Description::try_from_non_empty(s("")).unwrap_err(),
        ValidationError::InvalidDescription
    );
    assert_eq!(
        Description::try_from_non_empty("d".repeat(255)).unwrap_err(),
        ValidationError::InvalidDescription
    );
    assert_eq!(
        Description::try_from_non_empty(s("d")).unwrap().as_ref(),
        "d"
    );
}

#[test]
fn title_with_quotes() {
    for (raw, expt) in vec![
        ("A title with \"quoutes\"", "A title with &quot;quoutes&quot;"),
        ("A title with <script>", "A title with &lt;script&gt;"),
        ("A title with \"quotes\"", "A title with &quot;quotes&quot;"),
    ] {
        let res = Title::try_from(s(raw)).expect("invalid Title");
        assert_eq!(res.as_ref(), expt, "expected '{}' to be equal to {}", raw, expt);
    }
}

#[test]
fn desc_with_quotes() {
    for (raw, expt) in vec![
        (
            "A description with \"quoutes\"",
            "A description with &quot;quoutes&quot;",
        ),
        (
            "A description with <script>",
            "A description with &lt;script&gt;",
        ),
        ("Tom & Jerry's", "Tom &amp; Jerry&#x27;s"),
    ] {
        let res = Description::try_from(s(raw)).expect("invalid Description");
        assert_eq!(res.as_ref(), expt, "expected '{}' to be equal to {}", raw, expt);
    }
}

#[test]
fn comment_with_quotes() {
    for (raw, expt) in vec![
        (
            "A comment with \"quoutes\"",
            "A comment with &quot;quoutes&quot;",
        ),
        ("A comment with <script>", "A comment with &lt;script&gt;"),
    ] {
        let res = CommentContent::try_from(s(raw)).expect("invalid CommentContent");
        assert_eq!(res.as_ref(), expt, "expected '{}' to be equal to {}", raw, expt);
    }
}

#[test]
fn construction_never_panics() {
    let zeros = "\u{0}".repeat(300);
    let inputs = vec![
        "",
        " ",
        "\u{0}",
        "\n\r\t",
        "\u{7f}\u{80}\u{ffff}",
        "日本語のテキスト",
        "🦀🦀🦀🦀🦀",
        "a\u{301}e\u{301}",
        "\u{202e}reversed",
        zeros.as_str(),
    ];
    for input in inputs {
        let _ = Username::try_from(s(input));
        let _ = PlainPassword::try_from(s(input));
        let _ = Title::try_from(s(input));
        let _ = Description::try_from(s(input));
        let _ = Description::try_from_non_empty(s(input));
        let _ = CommentContent::try_from(s(input));
        let _ = Email::try_from(s(input));
        let _ = QueryStr::try_from(s(input));
    }
}

#[test]
fn a_copy_holds_the_same_text() {
    let title = Title::try_from(s("Hello <there>")).unwrap();
    let copy = title.clone();
    assert_eq!(title, copy);
    assert_eq!(copy.into_inner(), "Hello &lt;there&gt;");
}

#[test]
fn only_a_match_passes() {
    assert!(Username::passes(Some(true)));
    assert!(!Username::passes(Some(false)));
    assert!(!Username::passes(None));
    assert!(Email::passes(Some(true)));
    assert!(!Email::passes(Some(false)));
    assert!(!Email::passes(None));
    assert!(QueryStr::passes(Some(true)));
    assert!(!QueryStr::passes(Some(false)));
    assert!(!QueryStr::passes(None));
}

#[test]
fn a_password_needs_every_kind_of_character() {
    assert!(PlainPassword::passes(Some(true), true, true, true));
    assert!(!PlainPassword::passes(Some(true), false, true, true));
    assert!(!PlainPassword::passes(Some(true), true, false, true));
    assert!(!PlainPassword::passes(Some(true), true, true, false));
    assert!(!PlainPassword::passes(Some(false), true, true, true));
    assert!(!PlainPassword::passes(None, true, true, true));
}

#[test]
fn a_numeric_character_need_not_be_an_ascii_digit() {
    // eight word characters with a lowercase letter, an uppercase letter
    // and an Arabic-Indic digit
    assert!(PlainPassword::try_from(s("abcdefG٣")).is_ok());
    assert!(PlainPassword::try_from(s("abcdefGh")).is_err());
}
