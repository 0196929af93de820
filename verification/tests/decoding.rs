use hn_cli::{decode_ids, decode_story, DecodeError, Field, FieldName, ItemFields, Story};

fn text(s: &str) -> Field {
    Field::Text(s.to_string())
}

#[test]
fn test_story_deserialization() {
    let json = r#"{
            "by": "dhouston",
            "descendants": 71,
            "id": 8863,
            "kids": [8952, 9224],
            "score": 111,
            "time": 1175714200,
            "title": "My YC app: Sample",
            "type": "story",
            "url": "http://www.getdropbox.com/u/2/screencast.html"
        }"#;

    let story: Story = decode_story(json).unwrap();
    assert_eq!(story.title, "My YC app: Sample");
    assert_eq!(story.score, 111);
    assert_eq!(story.by, "dhouston");
}

#[test]
fn well_formed_payload_gives_all_four_fields() {
    let json = r#"{"by": "dhouston", "score": 111, "title": "My YC app: Sample", "url": "http://www.getdropbox.com/u/2/screencast.html"}"#;
    let story = decode_story(json).unwrap();
    assert_eq!(
        story,
        Story {
            title: "My YC app: Sample".to_string(),
            url: Some("http://www.getdropbox.com/u/2/screencast.html".to_string()),
            score: 111,
            by: "dhouston".to_string(),
        }
    );
}

#[test]
fn payload_without_url_gives_story_without_link() {
    let story = decode_story(r#"{"by": "pg", "score": 3, "title": "Ask: why?"}"#).unwrap();
    assert_eq!(story.url, None);
    assert_eq!(story.title, "Ask: why?");
    assert_eq!(story.score, 3);
    assert_eq!(story.by, "pg");
}

#[test]
fn payload_with_null_url_gives_story_without_link() {
    let story = decode_story(r#"{"by": "pg", "score": 3, "title": "t", "url": null}"#).unwrap();
    assert_eq!(story.url, None);
}

#[test]
fn payload_without_title_is_an_error() {
    let r = decode_story(r#"{"by": "pg", "score": 3, "url": "http://a"}"#);
    assert_eq!(r, Err(DecodeError::MissingField(FieldName::Title)));
}

#[test]
fn payload_without_score_is_an_error() {
    let r = decode_story(r#"{"by": "pg", "title": "t", "url": "http://a"}"#);
    assert_eq!(r, Err(DecodeError::MissingField(FieldName::Score)));
}

#[test]
fn payload_without_author_is_an_error() {
    let r = decode_story(r#"{"score": 3, "title": "t", "url": "http://a"}"#);
    assert_eq!(r, Err(DecodeError::MissingField(FieldName::By)));
}

#[test]
fn first_unfit_member_is_reported() {
    let r = decode_story(r#"{"url": 5, "title": "t"}"#);
    assert_eq!(r, Err(DecodeError::WrongType(FieldName::Url)));
    let r = decode_story(r#"{"url": 5}"#);
    assert_eq!(r, Err(DecodeError::MissingField(FieldName::Title)));
}

#[test]
fn score_of_another_kind_is_an_error() {
    let r = decode_story(r#"{"by": "pg", "score": "3", "title": "t"}"#);
    assert_eq!(r, Err(DecodeError::WrongType(FieldName::Score)));
    let r = decode_story(r#"{"by": "pg", "score": 3.5, "title": "t"}"#);
    assert_eq!(r, Err(DecodeError::WrongType(FieldName::Score)));
    let r = decode_story(r#"{"by": "pg", "score": null, "title": "t"}"#);
    assert_eq!(r, Err(DecodeError::WrongType(FieldName::Score)));
    let r = decode_story(r#"{"by": "pg", "score": 18446744073709551615, "title": "t"}"#);
    assert_eq!(r, Err(DecodeError::WrongType(FieldName::Score)));
}

#[test]
fn score_beyond_32_bits_is_an_error() {
    let r = decode_story(r#"{"by": "pg", "score": 2147483648, "title": "t"}"#);
    assert_eq!(r, Err(DecodeError::OutOfRange(FieldName::Score)));
    let r = decode_story(r#"{"by": "pg", "score": -2147483649, "title": "t"}"#);
    assert_eq!(r, Err(DecodeError::OutOfRange(FieldName::Score)));
}

#[test]
fn score_at_the_edges_of_32_bits_is_taken() {
    let story = decode_story(r#"{"by": "pg", "score": 2147483647, "title": "t"}"#).unwrap();
    assert_eq!(story.score, i32::MAX);
    let story = decode_story(r#"{"by": "pg", "score": -2147483648, "title": "t"}"#).unwrap();
    assert_eq!(story.score, i32::MIN);
}

#[test]
fn title_of_another_kind_is_an_error() {
    let r = decode_story(r#"{"by": "pg", "score": 3, "title": ["t"]}"#);
    assert_eq!(r, Err(DecodeError::WrongType(FieldName::Title)));
    let r = decode_story(r#"{"by": {"name": "pg"}, "score": 3, "title": "t"}"#);
    assert_eq!(r, Err(DecodeError::WrongType(FieldName::By)));
    let r = decode_story(r#"{"by": "pg", "score": 3, "title": true}"#);
    assert_eq!(r, Err(DecodeError::WrongType(FieldName::Title)));
}

#[test]
fn text_that_is_no_document_is_an_error() {
    assert_eq!(decode_story("{\"title\": "), Err(DecodeError::Syntax));
    assert_eq!(decode_story(""), Err(DecodeError::Syntax));
    assert_eq!(decode_story("<html>"), Err(DecodeError::Syntax));
}

#[test]
fn document_that_is_no_object_has_no_members() {
    assert_eq!(decode_story("null"), Err(DecodeError::MissingField(FieldName::Title)));
    assert_eq!(decode_story("[1, 2]"), Err(DecodeError::MissingField(FieldName::Title)));
}

#[test]
fn from_fields_takes_fitting_members() {
    let fields = ItemFields {
        title: text("t"),
        url: Field::Missing,
        score: Field::Number(Some(-7)),
        by: text("someone"),
    };
    assert_eq!(
        Story::from_fields(fields),
        Ok(Story { title: "t".to_string(), url: None, score: -7, by: "someone".to_string() })
    );
    let fields = ItemFields {
        title: text("t"),
        url: text("http://x"),
        score: Field::Number(Some(0)),
        by: text(""),
    };
    assert_eq!(
        Story::from_fields(fields),
        Ok(Story {
            title: "t".to_string(),
            url: Some("http://x".to_string()),
            score: 0,
            by: String::new(),
        })
    );
}

#[test]
fn from_fields_turns_down_unfit_members() {
    let good = ItemFields {
        title: text("t"),
        url: Field::Null,
        score: Field::Number(Some(1)),
        by: text("b"),
    };
    assert!(Story::from_fields(good.clone()).is_ok());

    let mut f = good.clone();
    f.title = Field::Missing;
    assert_eq!(Story::from_fields(f), Err(DecodeError::MissingField(FieldName::Title)));
    let mut f = good.clone();
    f.title = Field::Null;
    assert_eq!(Story::from_fields(f), Err(DecodeError::WrongType(FieldName::Title)));
    let mut f = good.clone();
    f.url = Field::Bool(true);
    assert_eq!(Story::from_fields(f), Err(DecodeError::WrongType(FieldName::Url)));
    let mut f = good.clone();
    f.url = Field::Array;
    assert_eq!(Story::from_fields(f), Err(DecodeError::WrongType(FieldName::Url)));
    let mut f = good.clone();
    f.score = Field::Number(None);
    assert_eq!(Story::from_fields(f), Err(DecodeError::WrongType(FieldName::Score)));
    let mut f = good.clone();
    f.score = Field::Number(Some(1 << 40));
    assert_eq!(Story::from_fields(f), Err(DecodeError::OutOfRange(FieldName::Score)));
    let mut f = good.clone();
    f.score = Field::Missing;
    assert_eq!(Story::from_fields(f), Err(DecodeError::MissingField(FieldName::Score)));
    let mut f = good.clone();
    f.by = Field::Object;
    assert_eq!(Story::from_fields(f), Err(DecodeError::WrongType(FieldName::By)));
    let mut f = good;
    f.by = Field::Missing;
    assert_eq!(Story::from_fields(f), Err(DecodeError::MissingField(FieldName::By)));
}

#[test]
fn id_list_is_decoded_in_order() {
    assert_eq!(decode_ids("[8863, 9224, 1]"), Ok(vec![8863, 9224, 1]));
    assert_eq!(decode_ids("[7, 7]"), Ok(vec![7, 7]));
    assert_eq!(decode_ids(" [ ] "), Ok(vec![]));
    assert_eq!(decode_ids("[4294967295, 0]"), Ok(vec![u32::MAX, 0]));
}

#[test]
fn payload_that_is_no_id_list_is_an_error() {
    assert_eq!(decode_ids("{\"a\": 1}"), Err(DecodeError::IdList));
    assert_eq!(decode_ids("[1, \"2\"]"), Err(DecodeError::IdList));
    assert_eq!(decode_ids("[-1]"), Err(DecodeError::IdList));
    assert_eq!(decode_ids("[4294967296]"), Err(DecodeError::IdList));
    assert_eq!(decode_ids("[1.5]"), Err(DecodeError::IdList));
    assert_eq!(decode_ids("[1, 2"), Err(DecodeError::IdList));
    assert_eq!(decode_ids("null"), Err(DecodeError::IdList));
    assert_eq!(decode_ids(""), Err(DecodeError::IdList));
}
