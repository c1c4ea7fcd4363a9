//! The payload codec: encode/decode symmetry and the shape of the body text.

use github_client::codec::{decode_body, encode_body, JsonDecode, JsonEncode};
use github_client::gittm::{format_tm, parse_tm, GitTm};
use github_client::json::{parse_json, render_json, JsonValue};
use github_client::commit_comments::{CreateComment, PullRequestCommentQuery,
    PullRequestCommentSortable, ReplyComment};
use github_client::issue_comments::{ListIssueCommentsQuery, ListRepoCommentsQuery,
    CommentSortables};
use github_client::pull_requests::{CreatePullRequest, CreatePullRequestFromIssue,
    PullRequestFile, PullRequestState, PullRequestUpdate};
use github_client::types::SortDirection;

fn sample_time() -> GitTm {
    GitTm {
        year: 2015,
        month: 5,
        day: 1,
        hour: 12,
        minute: 13,
        second: 14,
        off_neg: false,
        off_hour: 0,
        off_minute: 0,
    }
}

#[test]
fn renders_scalars_compactly() {
    assert_eq!(render_json(&JsonValue::Null), "null");
    assert_eq!(render_json(&JsonValue::Bool(true)), "true");
    assert_eq!(render_json(&JsonValue::Bool(false)), "false");
    assert_eq!(render_json(&JsonValue::Int(0)), "0");
    assert_eq!(render_json(&JsonValue::Int(-12)), "-12");
    assert_eq!(render_json(&JsonValue::Int(i64::MIN)), "-9223372036854775808");
    assert_eq!(render_json(&JsonValue::Int(i64::MAX)), "9223372036854775807");
    assert_eq!(render_json(&JsonValue::Str("a\"b\\c\n".to_owned())), "\"a\\\"b\\\\c\\n\"");
}

#[test]
fn renders_composites_compactly() {
    let v = JsonValue::Obj(vec![
        ("id".to_owned(), JsonValue::Int(1)),
        ("tags".to_owned(), JsonValue::Arr(vec![
            JsonValue::Str("x".to_owned()),
            JsonValue::Null,
        ])),
    ]);
    assert_eq!(render_json(&v), "{\"id\":1,\"tags\":[\"x\",null]}");
    assert_eq!(render_json(&JsonValue::Arr(vec![])), "[]");
    assert_eq!(render_json(&JsonValue::Obj(vec![])), "{}");
}

#[test]
fn parses_what_it_renders() {
    let samples = vec![
        JsonValue::Null,
        JsonValue::Bool(false),
        JsonValue::Int(-42),
        JsonValue::Str("hello \"quoted\" \\ world\r\n\ttab".to_owned()),
        JsonValue::Arr(vec![JsonValue::Int(1), JsonValue::Int(2), JsonValue::Int(3)]),
        JsonValue::Obj(vec![
            ("a".to_owned(), JsonValue::Arr(vec![JsonValue::Obj(vec![])])),
            ("b".to_owned(), JsonValue::Int(i64::MIN)),
        ]),
    ];
    for v in samples {
        let text = render_json(&v);
        let back = parse_json(&text).expect("rendered text must parse");
        assert_eq!(render_json(&back), text);
    }
}

#[test]
fn accepts_whitespace_between_tokens() {
    let text = " {\n  \"a\" : [ 1 , 2 ] ,\r\n  \"b\" : { } ,\n  \"c\" : [ ]\n}\n";
    let v = parse_json(text).expect("pretty-printed text must parse");
    assert_eq!(render_json(&v), "{\"a\":[1,2],\"b\":{},\"c\":[]}");
    let v = parse_json("  true  ").unwrap();
    assert_eq!(render_json(&v), "true");
    let v = parse_json("\t[ ]\r\n").unwrap();
    assert_eq!(render_json(&v), "[]");
}

#[test]
fn reads_four_digit_escapes() {
    let v = parse_json("\"a\\u0041\\u00e9\\u0009\"").unwrap();
    match &v {
        JsonValue::Str(s) => assert_eq!(s, "aA\u{e9}\t"),
        _ => panic!("expected a text value"),
    }
    let v = parse_json("\"\\uD83D\\uDE00\"").unwrap();
    match &v {
        JsonValue::Str(s) => assert_eq!(s, "\u{1F600}"),
        _ => panic!("expected a text value"),
    }
    assert!(parse_json("\"\\uD83D\"").is_err());
    assert!(parse_json("\"\\uDC00\"").is_err());
    assert!(parse_json("\"\\u12G4\"").is_err());
}

#[test]
fn escapes_control_characters() {
    let v = JsonValue::Str("a\u{1}b\u{1f}".to_owned());
    let text = render_json(&v);
    assert_eq!(text, "\"a\\u0001b\\u001f\"");
    let back = parse_json(&text).unwrap();
    match &back {
        JsonValue::Str(s) => assert_eq!(s, "a\u{1}b\u{1f}"),
        _ => panic!("expected a text value"),
    }
}

#[test]
fn rejects_malformed_bodies() {
    assert!(parse_json("not json").is_err());
    assert!(parse_json("").is_err());
    assert!(parse_json("{\"a\":1").is_err());
    assert!(parse_json("[1,]").is_err());
    assert!(parse_json("\"unterminated").is_err());
    assert!(parse_json("123abc").is_err());
    assert!(parse_json("99999999999999999999999999").is_err());
}

#[test]
fn time_round_trip() {
    let t = sample_time();
    let text = format_tm(&t);
    assert_eq!(text, "2015-05-01T12:13:14+0000");
    assert_eq!(parse_tm(&text), Some(t));
    let behind = GitTm { off_neg: true, off_hour: 7, off_minute: 30, ..t };
    assert_eq!(parse_tm(&format_tm(&behind)), Some(behind));
}

#[test]
fn time_reads_all_offset_forms() {
    let zulu = parse_tm("2015-05-01T12:13:14Z").expect("the zero-offset form must parse");
    assert_eq!(zulu, GitTm { ..sample_time() });
    let coloned = parse_tm("2015-05-01T12:13:14-07:30").unwrap();
    assert_eq!(
        coloned,
        GitTm { off_neg: true, off_hour: 7, off_minute: 30, ..sample_time() }
    );
    assert_eq!(parse_tm("2015-05-01T12:13:14+0230"), parse_tm("2015-05-01T12:13:14+02:30"));
    assert_eq!(parse_tm("2015-05-01T12:13:14z"), None);
    assert_eq!(parse_tm("2015-05-01T12:13:14"), None);
    assert_eq!(parse_tm("2015-05-01T12:13:14Zz"), None);
    assert_eq!(parse_tm("2015-05-01T12:13:14+07:3"), None);
}

#[test]
fn time_rejects_out_of_range_fields() {
    assert_eq!(parse_tm("2015-13-01T12:13:14+0000"), None);
    assert_eq!(parse_tm("2015-05-01T12:13:14+0000Z"), None);
    assert_eq!(parse_tm("not a time"), None);
    let broken = GitTm { month: 0, ..sample_time() };
    assert!(broken.to_json().is_err());
}

#[test]
fn sort_direction_codec_round_trip() {
    for d in [SortDirection::Ascending, SortDirection::Descending] {
        let j = d.to_json().unwrap();
        assert_eq!(SortDirection::from_json(&j).unwrap(), d);
    }
    assert_eq!(render_json(&SortDirection::Ascending.to_json().unwrap()), "\"asc\"");
    assert_eq!(render_json(&SortDirection::Descending.to_json().unwrap()), "\"desc\"");
    assert!(SortDirection::from_json(&JsonValue::Str("sideways".to_owned())).is_err());
}

#[test]
fn create_pull_request_round_trip() {
    let p = CreatePullRequest {
        title: "Add widgets".to_owned(),
        head: "feature".to_owned(),
        base: "main".to_owned(),
        body: Some("please review".to_owned()),
    };
    let text = encode_body(&p).unwrap();
    assert_eq!(
        text,
        "{\"title\":\"Add widgets\",\"head\":\"feature\",\"base\":\"main\",\"body\":\"please review\"}"
    );
    let back: CreatePullRequest = decode_body(&text).unwrap();
    assert_eq!(back, p);
}

#[test]
fn create_pull_request_none_body_round_trip() {
    let p = CreatePullRequest {
        title: "t".to_owned(),
        head: "h".to_owned(),
        base: "b".to_owned(),
        body: None,
    };
    let text = encode_body(&p).unwrap();
    assert_eq!(text, "{\"title\":\"t\",\"head\":\"h\",\"base\":\"b\",\"body\":null}");
    let back: CreatePullRequest = decode_body(&text).unwrap();
    assert_eq!(back, p);
}

#[test]
fn create_pull_request_from_issue_round_trip() {
    let p = CreatePullRequestFromIssue {
        head: "feature".to_owned(),
        base: "main".to_owned(),
        issue: 17,
    };
    let back: CreatePullRequestFromIssue = decode_body(&encode_body(&p).unwrap()).unwrap();
    assert_eq!(back, p);
}

#[test]
fn pull_request_update_round_trip() {
    let p = PullRequestUpdate {
        title: None,
        body: Some("new body".to_owned()),
        state: Some(PullRequestState::Closed),
    };
    let back: PullRequestUpdate = decode_body(&encode_body(&p).unwrap()).unwrap();
    assert_eq!(back, p);
}

#[test]
fn pull_request_file_round_trip() {
    let p = PullRequestFile {
        sha: "abc123".to_owned(),
        filename: "src/widgets.rs".to_owned(),
        status: "modified".to_owned(),
        additions: 10,
        deletions: 2,
        changes: 12,
        blob_url: "https://example.invalid/blob".to_owned(),
        raw_url: "https://example.invalid/raw".to_owned(),
        contents_url: "https://example.invalid/contents".to_owned(),
        patch: "@@ -1 +1 @@".to_owned(),
    };
    let back: PullRequestFile = decode_body(&encode_body(&p).unwrap()).unwrap();
    assert_eq!(back, p);
}

#[test]
fn review_comment_payloads_round_trip() {
    let c = CreateComment {
        body: "looks good".to_owned(),
        commit_id: "deadbeef".to_owned(),
        path: "src/lib.rs".to_owned(),
        position: 4,
    };
    let back: CreateComment = decode_body(&encode_body(&c).unwrap()).unwrap();
    assert_eq!(back, c);
    let rep = ReplyComment { body: "agreed".to_owned(), in_reply_to: 9 };
    let back: ReplyComment = decode_body(&encode_body(&rep).unwrap()).unwrap();
    assert_eq!(back, rep);
}

#[test]
fn comment_query_round_trip() {
    let q = PullRequestCommentQuery {
        sort: Some(PullRequestCommentSortable::Created),
        direction: Some(SortDirection::Descending),
        since: Some(sample_time()),
    };
    let text = encode_body(&q).unwrap();
    assert_eq!(
        text,
        "{\"sort\":\"created\",\"direction\":\"desc\",\"since\":\"2015-05-01T12:13:14+0000\"}"
    );
    let back: PullRequestCommentQuery = decode_body(&text).unwrap();
    assert_eq!(back, q);
    let empty = PullRequestCommentQuery { sort: None, direction: None, since: None };
    let back: PullRequestCommentQuery = decode_body(&encode_body(&empty).unwrap()).unwrap();
    assert_eq!(back, empty);
}

#[test]
fn issue_comment_queries_round_trip() {
    let q = ListIssueCommentsQuery { since: sample_time() };
    let back: ListIssueCommentsQuery = decode_body(&encode_body(&q).unwrap()).unwrap();
    assert_eq!(back, q);
    let q = ListRepoCommentsQuery {
        sort: CommentSortables::UpdatedAt,
        direction: SortDirection::Ascending,
        since: sample_time(),
    };
    let back: ListRepoCommentsQuery = decode_body(&encode_body(&q).unwrap()).unwrap();
    assert_eq!(back, q);
}

#[test]
fn decode_rejects_wrong_shapes() {
    assert!(decode_body::<CreatePullRequest>("{\"title\":\"t\"}").is_err());
    assert!(decode_body::<CreatePullRequest>("[1,2]").is_err());
    assert!(decode_body::<CreatePullRequestFromIssue>(
        "{\"head\":\"h\",\"base\":\"b\",\"issue\":-1}"
    )
    .is_err());
    assert!(decode_body::<ListIssueCommentsQuery>("{\"since\":\"not a time\"}").is_err());
}
