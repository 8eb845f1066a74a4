use clip_stash::data::model::{Clip as Row, GetClip, NewClip, UpdateClip};
use clip_stash::data::{Dbid, Timestamp};
use clip_stash::domain::clip::field::{
    ClipId, Content, Expires, Password, Posted, ShortCode, Title,
};
use clip_stash::domain::clip::{Clip, ClipError};
use clip_stash::domain::time::Time;

const ID_TEXT: &str = "550e8400-e29b-41d4-a716-446655440000";
const ID_BITS: u128 = 0x550e8400_e29b_41d4_a716_446655440000;

fn sample_row() -> Row {
    Row {
        clip_id: ID_TEXT.to_string(),
        shortcode: "abcd123412".to_string(),
        content: "first text".to_string(),
        title: Some("a title".to_string()),
        posted: Timestamp { secs: 1_600_000_000, nanos: 0 },
        expires: Some(Timestamp { secs: 1_700_000_000, nanos: 500 }),
        password: None,
        hits: 7,
    }
}

#[test]
fn valid_row_converts_field_by_field() {
    let clip = Clip::try_from(sample_row()).unwrap();
    assert_eq!(clip.clip_id.into_inner().as_u128(), ID_BITS);
    assert_eq!(clip.shortcode.as_str(), "abcd123412");
    assert_eq!(clip.content.as_str(), "first text");
    assert_eq!(clip.title.into_inner(), Some("a title".to_string()));
    assert_eq!(clip.posted.into_inner().into_inner(), Timestamp { secs: 1_600_000_000, nanos: 0 });
    assert_eq!(
        clip.expires.into_inner().map(|t| t.into_inner()),
        Some(Timestamp { secs: 1_700_000_000, nanos: 500 })
    );
    assert!(!clip.password.has_password());
    assert_eq!(clip.hits.into_inner(), 7);
}

#[test]
fn negative_hits_fail_conversion() {
    let mut row = sample_row();
    row.hits = -1;
    assert_eq!(Clip::try_from(row).unwrap_err(), ClipError::InvalidHitCount);
    let mut row = sample_row();
    row.hits = i64::MIN;
    assert_eq!(Clip::try_from(row).unwrap_err(), ClipError::InvalidHitCount);
}

#[test]
fn zero_hits_convert() {
    let mut row = sample_row();
    row.hits = 0;
    assert_eq!(Clip::try_from(row).unwrap().hits.into_inner(), 0);
    let mut row = sample_row();
    row.hits = i64::MAX;
    assert_eq!(Clip::try_from(row).unwrap().hits.into_inner(), i64::MAX as u64);
}

#[test]
fn malformed_identifier_fails_conversion() {
    let mut row = sample_row();
    row.clip_id = "not an identifier".to_string();
    assert_eq!(Clip::try_from(row).unwrap_err(), ClipError::InvalidIdentifier);
}

#[test]
fn malformed_identifier_comes_first() {
    let mut row = sample_row();
    row.clip_id = String::new();
    row.content = "  ".to_string();
    row.hits = -5;
    assert_eq!(Clip::try_from(row).unwrap_err(), ClipError::InvalidIdentifier);
}

#[test]
fn blank_content_fails_conversion() {
    let mut row = sample_row();
    row.content = " \n ".to_string();
    assert_eq!(Clip::try_from(row).unwrap_err(), ClipError::EmptyContent);
}

#[test]
fn blank_content_comes_before_hits() {
    let mut row = sample_row();
    row.content = String::new();
    row.hits = -1;
    assert_eq!(Clip::try_from(row).unwrap_err(), ClipError::EmptyContent);
}

#[test]
fn stored_blank_password_is_no_password() {
    let mut row = sample_row();
    row.password = Some("   ".to_string());
    assert!(!Clip::try_from(row).unwrap().password.has_password());
    let mut row = sample_row();
    row.password = Some("pw".to_string());
    let clip = Clip::try_from(row).unwrap();
    assert_eq!(clip.password.into_inner(), Some("pw".to_string()));
}

#[test]
fn conversion_twice_gives_the_same_clip() {
    let row = sample_row();
    let a = Clip::try_from(row.clone()).unwrap();
    let b = Clip::try_from(row).unwrap();
    assert_eq!(a.clip_id, b.clip_id);
    assert_eq!(a.shortcode.as_str(), b.shortcode.as_str());
    assert_eq!(a.content.as_str(), b.content.as_str());
    assert_eq!(a.title.into_inner(), b.title.into_inner());
    assert_eq!(a.posted, b.posted);
    assert_eq!(a.expires, b.expires);
    assert_eq!(a.password, b.password);
    assert_eq!(a.hits, b.hits);
}

#[test]
fn new_clip_round_trip() {
    let id = Dbid::new();
    let posted = Time::from_naive_utc(Timestamp { secs: 1_650_000_000, nanos: 0 });
    let expires = Time::from_naive_utc(Timestamp { secs: 1_660_000_000, nanos: 42 });
    let req = NewClip::new(
        ClipId::new(id),
        ShortCode::from("1a2b3c4d12".to_string()),
        Content::new("round trip").unwrap(),
        Title::new(Some("t".to_string())),
        Posted::new(posted),
        Expires::new(Some(expires)),
        Password::new(Some("pw".to_string())).unwrap(),
    );
    let row = req.into_row();
    assert_eq!(row.clip_id, id.to_string());
    assert_eq!(row.posted, Timestamp { secs: 1_650_000_000, nanos: 0 });
    assert_eq!(row.hits, 0);
    let clip = Clip::try_from(row).unwrap();
    assert_eq!(clip.clip_id.into_inner(), id);
    assert_eq!(clip.shortcode.as_str(), "1a2b3c4d12");
    assert_eq!(clip.content.as_str(), "round trip");
    assert_eq!(clip.title.into_inner(), Some("t".to_string()));
    assert_eq!(clip.posted.into_inner(), posted);
    assert_eq!(clip.expires.into_inner(), Some(expires));
    assert_eq!(clip.password.into_inner(), Some("pw".to_string()));
    assert_eq!(clip.hits.into_inner(), 0);
}

#[test]
fn new_clip_posts_at_the_whole_second() {
    let req = NewClip::new(
        ClipId::new(Dbid::new()),
        ShortCode::new(),
        Content::new("c").unwrap(),
        Title::new(None),
        Posted::new(Time::from_naive_utc(Timestamp { secs: 12, nanos: 999_999_999 })),
        Expires::new(None),
        Password::new(None).unwrap(),
    );
    let row = req.into_row();
    assert_eq!(row.posted, Timestamp { secs: 12, nanos: 0 });
    assert_eq!(row.title, None);
    assert_eq!(row.expires, None);
    assert_eq!(row.password, None);
}

#[test]
fn update_scenario() {
    let before = sample_row();
    let req = UpdateClip::new(
        ShortCode::from("abcd123412".to_string()),
        Content::new("hello world").unwrap(),
        Title::new(None),
        Expires::new(None),
        Password::new(Some("secret".to_string())).unwrap(),
    );
    let after = Clip::try_from(req.apply(before.clone())).unwrap();
    let old = Clip::try_from(before).unwrap();
    assert_eq!(after.content.as_str(), "hello world");
    assert!(after.password.has_password());
    assert_eq!(after.title.into_inner(), None);
    assert_eq!(after.expires.into_inner(), None);
    assert_eq!(after.clip_id, old.clip_id);
    assert_eq!(after.shortcode.as_str(), "abcd123412");
    assert_eq!(after.posted, old.posted);
    assert_eq!(after.hits.into_inner(), 7);
}

#[test]
fn update_leaves_other_rows_alone() {
    let before = sample_row();
    let req = UpdateClip::new(
        ShortCode::from("dcba432121".to_string()),
        Content::new("hello world").unwrap(),
        Title::new(None),
        Expires::new(None),
        Password::new(None).unwrap(),
    );
    let after = req.apply(before.clone());
    assert_eq!(after.content, before.content);
    assert_eq!(after.title, before.title);
    assert_eq!(after.expires, before.expires);
    assert_eq!(after.password, before.password);
    assert_eq!(after.shortcode, before.shortcode);
    assert_eq!(after.hits, before.hits);
}

#[test]
fn get_clip_from_code_or_text() {
    let by_code = GetClip::from(ShortCode::from("abcd123412".to_string()));
    let by_text = GetClip::from("abcd123412".to_string());
    assert_eq!(by_code.shortcode, "abcd123412");
    assert_eq!(by_code.shortcode, by_text.shortcode);
}

#[test]
fn from_parsed_takes_the_identifier_as_given() {
    let id = Dbid::from_u128(17);
    let mut row = sample_row();
    row.clip_id = "ignored".to_string();
    let clip = Clip::from_parsed(Ok(id), row).unwrap();
    assert_eq!(clip.clip_id.into_inner(), id);
    assert_eq!(clip.hits.into_inner(), 7);
    let failed = Dbid::from_str("ignored");
    assert_eq!(Clip::from_parsed(failed, sample_row()).unwrap_err(), ClipError::InvalidIdentifier);
    let mut row = sample_row();
    row.hits = -1;
    assert_eq!(Clip::from_parsed(Ok(id), row).unwrap_err(), ClipError::InvalidHitCount);
}

#[test]
fn stored_identifier_is_never_nil() {
    for _ in 0..50 {
        let id = ClipId::new(Dbid::new());
        assert!(!id.into_inner().is_nil());
        let row = NewClip::new(
            id,
            ShortCode::new(),
            Content::new("c").unwrap(),
            Title::new(None),
            Posted::new(Time::from_naive_utc(Timestamp { secs: 1, nanos: 0 })),
            Expires::new(None),
            Password::new(None).unwrap(),
        )
        .into_row();
        assert_ne!(row.clip_id, Dbid::nil().to_string());
        assert_ne!(Dbid::from_str(row.clip_id.as_str()).unwrap().as_u128(), 0);
    }
}

#[test]
fn update_request_hands_out_its_fields() {
    let req = UpdateClip::new(
        ShortCode::from("abcd123412".to_string()),
        Content::new(" hello ").unwrap(),
        Title::new(Some("t".to_string())),
        Expires::new(Some(Time::from_naive_utc(Timestamp { secs: 9, nanos: 8 }))),
        Password::new(Some("  ".to_string())).unwrap(),
    );
    assert_eq!(req.shortcode(), "abcd123412");
    assert_eq!(req.content(), " hello ");
    assert_eq!(req.title(), &Some("t".to_string()));
    assert_eq!(req.expires(), Some(Timestamp { secs: 9, nanos: 8 }));
    assert_eq!(req.password(), &None);
}
