use waifu::api::danbooru::evaluate_arguments;
use waifu::api::danbooru::grab_random_image;
use waifu::api::danbooru::normalize_response;
use waifu::api::danbooru::record_from_item;
use waifu::api::danbooru::records_from_document;
use waifu::api::danbooru::select_first_accessible;
use waifu::filters::Credentials;
use waifu::filters::Danbooru;
use waifu::json::parse_json;
use waifu::record::rating_from_text;
use waifu::record::resolve_url;
use waifu::record::status_is_success;
use waifu::record::ImageRecord;
use waifu::record::Rating;
use waifu::record::ResponseError;

const BASE: &str = "https://danbooru.donmai.us/posts.json?random=true";

fn filters(tags: Option<&str>) -> Danbooru {
    Danbooru {
        details: false,
        safe: false,
        questionable: false,
        explicit: false,
        tags: tags.map(|t| t.to_string()),
        username: None,
        key: None,
    }
}

fn nobody() -> Credentials {
    Credentials { username: None, key: None }
}

fn somebody() -> Credentials {
    Credentials { username: Some("env_user".to_string()), key: Some("env_key".to_string()) }
}

fn record(url: &str) -> ImageRecord {
    ImageRecord {
        source_url: None,
        external_id: None,
        file_url: url.to_string(),
        character_tags: String::new(),
        artist_tags: String::new(),
        rating: Rating::Safe,
        width: 0,
        height: 0,
        all_tags: String::new(),
    }
}

#[test]
fn query_without_filters() {
    assert_eq!(evaluate_arguments(&filters(None), &nobody()), format!("{}&tags=", BASE));
}

#[test]
fn query_with_tags() {
    assert_eq!(
        evaluate_arguments(&filters(Some("cat girl, blue hair")), &nobody()),
        format!("{}&tags=cat%20girl%20%20blue%20hair", BASE)
    );
    assert_eq!(
        evaluate_arguments(&filters(Some("  1girl   solo ")), &nobody()),
        format!("{}&tags=1girl%20solo", BASE)
    );
}

#[test]
fn query_with_each_rating() {
    let mut args = filters(Some("cat"));
    args.safe = true;
    assert_eq!(evaluate_arguments(&args, &nobody()), format!("{}&tags=cat%20rating:s", BASE));
    let mut args = filters(Some("cat"));
    args.questionable = true;
    assert_eq!(evaluate_arguments(&args, &nobody()), format!("{}&tags=cat%20rating:q", BASE));
    let mut args = filters(None);
    args.explicit = true;
    assert_eq!(evaluate_arguments(&args, &nobody()), format!("{}&tags=%20rating:e", BASE));
}

#[test]
fn query_takes_the_first_rating_that_is_set() {
    let mut args = filters(None);
    args.safe = true;
    args.explicit = true;
    assert_eq!(evaluate_arguments(&args, &nobody()), format!("{}&tags=%20rating:s", BASE));
    let mut args = filters(None);
    args.questionable = true;
    args.explicit = true;
    assert_eq!(evaluate_arguments(&args, &nobody()), format!("{}&tags=%20rating:q", BASE));
}

#[test]
fn query_with_explicit_credentials() {
    let mut args = filters(Some("cat"));
    args.username = Some("me".to_string());
    args.key = Some("secret".to_string());
    assert_eq!(
        evaluate_arguments(&args, &nobody()),
        format!("{}&login=me&api_key=secret&tags=cat", BASE)
    );
}

#[test]
fn explicit_credentials_come_before_the_environment() {
    let mut args = filters(None);
    args.username = Some("me".to_string());
    args.key = Some("secret".to_string());
    assert_eq!(
        evaluate_arguments(&args, &somebody()),
        format!("{}&login=me&api_key=secret&tags=", BASE)
    );
}

#[test]
fn query_with_credentials_from_the_environment() {
    assert_eq!(
        evaluate_arguments(&filters(None), &somebody()),
        format!("{}&login=env_user&api_key=env_key&tags=", BASE)
    );
    let mut args = filters(None);
    args.key = Some("lonely".to_string());
    assert_eq!(
        evaluate_arguments(&args, &somebody()),
        format!("{}&login=env_user&api_key=env_key&tags=", BASE)
    );
}

#[test]
fn incomplete_explicit_pair_gives_way_to_the_environment() {
    let mut args = filters(None);
    args.username = Some("me".to_string());
    assert_eq!(
        evaluate_arguments(&args, &somebody()),
        format!("{}&login=env_user&api_key=env_key&tags=", BASE)
    );
    let mut args = filters(Some("cat"));
    args.key = Some("lonely".to_string());
    assert_eq!(
        evaluate_arguments(&args, &somebody()),
        format!("{}&login=env_user&api_key=env_key&tags=cat", BASE)
    );
}

#[test]
fn incomplete_credentials_are_left_out() {
    let mut args = filters(None);
    args.username = Some("me".to_string());
    assert_eq!(evaluate_arguments(&args, &nobody()), format!("{}&tags=", BASE));
    let mut args = filters(None);
    args.username = Some("me".to_string());
    let half = Credentials { username: Some("env_user".to_string()), key: None };
    assert_eq!(evaluate_arguments(&args, &half), format!("{}&tags=", BASE));
    let half = Credentials { username: Some("env_user".to_string()), key: None };
    assert_eq!(evaluate_arguments(&filters(None), &half), format!("{}&tags=", BASE));
    let other = Credentials { username: None, key: Some("env_key".to_string()) };
    assert_eq!(evaluate_arguments(&filters(None), &other), format!("{}&tags=", BASE));
}

#[test]
fn protocol_relative_address_becomes_https() {
    assert_eq!(resolve_url("//example.com/a.png".to_string()), "https://example.com/a.png");
    assert_eq!(resolve_url("https://example.com/a.png".to_string()), "https://example.com/a.png");
    assert_eq!(resolve_url("/a.png".to_string()), "/a.png");
    assert_eq!(resolve_url(String::new()), "");
    assert_eq!(resolve_url("//".to_string()), "https://");
}

#[test]
fn ratings_by_first_character() {
    assert_eq!(rating_from_text("s", Rating::Unknown), Rating::Safe);
    assert_eq!(rating_from_text("safe", Rating::Unknown), Rating::Safe);
    assert_eq!(rating_from_text("q", Rating::Safe), Rating::Questionable);
    assert_eq!(rating_from_text("explicit", Rating::Safe), Rating::Explicit);
    assert_eq!(rating_from_text("g", Rating::Safe), Rating::Unknown);
    assert_eq!(rating_from_text("", Rating::Safe), Rating::Safe);
    assert_eq!(rating_from_text("", Rating::Unknown), Rating::Unknown);
}

#[test]
fn success_is_the_two_hundreds() {
    assert!(status_is_success(200));
    assert!(status_is_success(204));
    assert!(status_is_success(299));
    assert!(!status_is_success(199));
    assert!(!status_is_success(300));
    assert!(!status_is_success(404));
}

#[test]
fn tagged_query_and_single_record_response() {
    let url = evaluate_arguments(&filters(Some("cat girl, blue hair")), &nobody());
    assert!(url.ends_with("&tags=cat%20girl%20%20blue%20hair"));
    let records =
        normalize_response(200, "[{\"file_url\": \"//example.com/a.png\", \"rating\": \"s\"}]")
            .unwrap();
    assert_eq!(records.len(), 1);
    assert_eq!(records[0].file_url, "https://example.com/a.png");
    assert_eq!(records[0].rating, Rating::Safe);
    assert_eq!(grab_random_image(&records), Ok("https://example.com/a.png".to_string()));
}

#[test]
fn full_record_is_normalised() {
    let body = "[{\"source\": \"https://i.pximg.net/x.png\", \"pixiv_id\": 123, \
        \"file_url\": \"https://cdn.example/a.jpg\", \"large_file_url\": \"https://cdn.example/b.jpg\", \
        \"tag_string_character\": \"miku\", \"tag_string_artist\": \"someone\", \"rating\": \"q\", \
        \"image_width\": 640, \"image_height\": \"480\", \"tag_string\": \"1girl solo\"}]";
    let records = normalize_response(200, body).unwrap();
    assert_eq!(
        records,
        vec![ImageRecord {
            source_url: Some("https://i.pximg.net/x.png".to_string()),
            external_id: Some(123),
            file_url: "https://cdn.example/a.jpg".to_string(),
            character_tags: "miku".to_string(),
            artist_tags: "someone".to_string(),
            rating: Rating::Questionable,
            width: 640,
            height: 480,
            all_tags: "1girl solo".to_string(),
        }]
    );
}

#[test]
fn absent_fields_take_their_defaults() {
    let records = normalize_response(200, "[{}]").unwrap();
    assert_eq!(records, vec![record("")]);
    let records = normalize_response(200, "[7]").unwrap();
    assert_eq!(records, vec![record("")]);
}

#[test]
fn large_file_url_stands_in() {
    let item = parse_json("{\"large_file_url\": \"//cdn.example/b.jpg\"}").unwrap();
    assert_eq!(record_from_item(&item).file_url, "https://cdn.example/b.jpg");
    let item = parse_json("{\"file_url\": 5, \"large_file_url\": \"x\"}").unwrap();
    assert_eq!(record_from_item(&item).file_url, "x");
    let item = parse_json("{\"file_url\": \"\", \"large_file_url\": \"x\"}").unwrap();
    assert_eq!(record_from_item(&item).file_url, "");
}

#[test]
fn mixed_encodings_are_read() {
    let item = parse_json(
        "{\"pixiv_id\": \"77\", \"source\": 12, \"rating\": \"e\", \"image_width\": \"x\", \"tag_string\": null}",
    )
    .unwrap();
    let got = record_from_item(&item);
    assert_eq!(got.external_id, Some(77));
    assert_eq!(got.source_url, Some("12".to_string()));
    assert_eq!(got.rating, Rating::Explicit);
    assert_eq!(got.width, 0);
    assert_eq!(got.all_tags, "");
    let item = parse_json("{\"rating\": \"g\"}").unwrap();
    assert_eq!(record_from_item(&item).rating, Rating::Unknown);
    let item = parse_json("{\"rating\": 3}").unwrap();
    assert_eq!(record_from_item(&item).rating, Rating::Safe);
}

#[test]
fn markup_is_refused_whatever_the_status() {
    for status in [200, 404, 500] {
        assert_eq!(
            normalize_response(status, "  \n<html><body>nope</body></html>"),
            Err(ResponseError::UnexpectedContentKind { status })
        );
    }
    assert_eq!(
        normalize_response(200, "<"),
        Err(ResponseError::UnexpectedContentKind { status: 200 })
    );
}

#[test]
fn failure_envelope_is_surfaced() {
    assert_eq!(
        normalize_response(422, "{\"message\": \"too many tags\", \"success\": false}"),
        Err(ResponseError::ProviderRejected {
            status: 422,
            message: Some("too many tags".to_string())
        })
    );
}

#[test]
fn failure_without_envelope_keeps_the_status() {
    for body in ["gone", "", "{\"message\": 5}", "[]", "{\"error\": \"x\"}"] {
        assert_eq!(
            normalize_response(503, body),
            Err(ResponseError::ProviderRejected { status: 503, message: None })
        );
    }
}

#[test]
fn body_that_is_no_array_is_malformed() {
    assert_eq!(
        normalize_response(200, "{\"a\": 1}"),
        Err(ResponseError::MalformedResponse { detail: "Unexpected JSON structure".to_string() })
    );
    match normalize_response(200, "not json") {
        Err(ResponseError::MalformedResponse { detail }) => {
            assert!(detail.starts_with("Failed to parse JSON: "));
            assert!(detail.len() > "Failed to parse JSON: ".len());
        }
        other => panic!("unexpected outcome: {:?}", other),
    }
    match normalize_response(200, "") {
        Err(ResponseError::MalformedResponse { detail }) => {
            assert!(detail.starts_with("Failed to parse JSON: "));
        }
        other => panic!("unexpected outcome: {:?}", other),
    }
}

#[test]
fn empty_array_is_no_results() {
    assert_eq!(normalize_response(200, "[]"), Err(ResponseError::NoResults { status: 200 }));
    assert_eq!(normalize_response(201, " [ ] "), Err(ResponseError::NoResults { status: 201 }));
}

#[test]
fn document_outcomes_without_a_parser() {
    assert_eq!(
        records_from_document(200, Err("bad".to_string())),
        Err(ResponseError::MalformedResponse { detail: "Failed to parse JSON: bad".to_string() })
    );
    assert_eq!(
        records_from_document(404, Err("bad".to_string())),
        Err(ResponseError::ProviderRejected { status: 404, message: None })
    );
    assert_eq!(
        records_from_document(200, Ok(parse_json("[]").unwrap())),
        Err(ResponseError::NoResults { status: 200 })
    );
}

#[test]
fn records_keep_their_order() {
    let records = normalize_response(
        200,
        "[{\"file_url\": \"a\"}, {\"file_url\": \"\"}, {\"file_url\": \"//c\"}]",
    )
    .unwrap();
    let urls: Vec<&str> = records.iter().map(|r| r.file_url.as_str()).collect();
    assert_eq!(urls, vec!["a", "", "https://c"]);
}

#[test]
fn the_only_accessible_record_is_chosen() {
    for k in 0..5 {
        let mut records = Vec::new();
        for i in 0..5 {
            records.push(record(if i == k { "https://x/only.png" } else { "" }));
        }
        assert_eq!(select_first_accessible(&records), Some(k));
        assert_eq!(grab_random_image(&records), Ok("https://x/only.png".to_string()));
    }
}

#[test]
fn the_first_accessible_record_is_chosen() {
    let records = vec![record(""), record("b"), record("c")];
    assert_eq!(select_first_accessible(&records), Some(1));
    assert_eq!(grab_random_image(&records), Ok("b".to_string()));
    for _ in 0..20 {
        assert_eq!(grab_random_image(&records), Ok("b".to_string()));
    }
}

#[test]
fn no_accessible_record_is_an_error() {
    assert_eq!(grab_random_image(&Vec::new()), Err(ResponseError::NoAccessibleResults));
    let records = vec![record(""), record("")];
    assert_eq!(select_first_accessible(&records), None);
    assert_eq!(grab_random_image(&records), Err(ResponseError::NoAccessibleResults));
}
