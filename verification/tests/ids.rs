use datatypes::valid::decimal::{parse_u32, write_u32};
use datatypes::valid::ids::{CategoryId, CommentId, Id, ThreadId, UserId};
use datatypes::valid::ValidationError;

#[test]
fn ids_are_read_from_decimal_text() {
    assert_eq!(*CategoryId::try_from("7").unwrap().as_ref(), 7);
    assert_eq!(*ThreadId::try_from("0").unwrap().as_ref(), 0);
    assert_eq!(*CommentId::try_from("+12").unwrap().as_ref(), 12);
    assert_eq!(*UserId::try_from("007").unwrap().as_ref(), 7);
    assert_eq!(
        *UserId::try_from("4294967295").unwrap().as_ref(),
        4294967295
    );
    assert_eq!(
        *UserId::try_from("00000000000000000000000004294967295")
            .unwrap()
            .as_ref(),
        4294967295
    );
}

#[test]
fn text_that_is_no_number_is_no_id() {
    for text in vec![
        "",
        "+",
        "-",
        "-1",
        "-0",
        " 7",
        "7 ",
        "7a",
        "a7",
        "++7",
        "7+",
        "1.0",
        "0x10",
        "4294967296",
        "4294967300",
        "99999999999999999999",
        "٣",
        "７",
        "1_000",
    ] {
        assert_eq!(
            CategoryId::try_from(text).unwrap_err(),
            ValidationError::InvalidId,
            "expected '{}' to be refused",
            text
        );
        assert_eq!(
            ThreadId::try_from(text).unwrap_err(),
            ValidationError::InvalidId
        );
        assert_eq!(
            CommentId::try_from(text).unwrap_err(),
            ValidationError::InvalidId
        );
        assert_eq!(
            UserId::try_from(text).unwrap_err(),
            ValidationError::InvalidId
        );
    }
}

#[test]
fn reading_a_number_agrees_with_the_standard_library() {
    let mut texts: Vec<String> = vec![
        "", "+", "-", "0", "+0", "-0", "00", "1", "+1", "-1", "10", "429496729", "4294967290",
        "4294967295", "4294967296", "4294967299", "4294967305", "42949672950", "+4294967295",
        "+4294967296", "0004294967295", "0004294967296", "12a", "a12", "1 2", " 12", "12 ", "1+2",
        "+-1", "٣", "１２", "1e3", "\u{0}", "9999999999", "18446744073709551616",
    ]
    .into_iter()
    .map(String::from)
    .collect();
    for n in 0u32..2000 {
        texts.push(n.to_string());
        texts.push((u32::MAX - n).to_string());
        texts.push(format!("{}", 4294967296u64 + n as u64));
    }
    for text in texts {
        assert_eq!(
            parse_u32(&text),
            text.parse::<u32>().ok(),
            "for the text '{}'",
            text
        );
    }
}

#[test]
fn writing_a_number_agrees_with_the_standard_library() {
    let mut numbers: Vec<u32> = vec![0, 1, 9, 10, 11, 99, 100, 101, 4294967295, 4294967294, 1000000000];
    for n in 0u32..3000 {
        numbers.push(n.wrapping_mul(2654435761));
    }
    for n in numbers {
        assert_eq!(write_u32(n), n.to_string());
        assert_eq!(parse_u32(&write_u32(n)), Some(n));
    }
}

#[test]
fn an_id_of_a_known_number_is_never_refused() {
    for n in vec![0u32, 1, 7, 4294967295] {
        assert_eq!(CategoryId::from(n).inner(), n);
        assert_eq!(ThreadId::from(n).inner(), n);
        assert_eq!(CommentId::from(n).inner(), n);
        assert_eq!(UserId::from(n).inner(), n);
    }
}

#[test]
fn an_id_that_is_written_and_read_back_is_the_same() {
    for n in vec![0u32, 7, 10, 123456, 4294967295] {
        let id = ThreadId::from(n);
        assert_eq!(ThreadId::try_from(id.to_string().as_str()).unwrap(), id);
    }
}

#[test]
fn ids_of_different_kinds_are_written_alike() {
    let thread = ThreadId::from(7);
    let category = CategoryId::from(7);
    assert_eq!(thread.to_string(), "7");
    assert_eq!(category.to_string(), "7");
    assert_eq!(thread.inner(), category.inner());
    assert_eq!(CommentId::from(7).to_string(), UserId::from(7).to_string());
}

#[test]
fn ids_are_ordered_by_their_numbers() {
    assert!(UserId::from(3) < UserId::from(10));
    assert!(UserId::from(10) == UserId::from(10));
    assert!(CategoryId::from(11) > CategoryId::from(10));
}
