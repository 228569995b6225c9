//! The provider with three rating tiers: its query, the normalisation of its
//! response and the choice of an image.

use vstd::prelude::*;
use vstd::string::StringExecFns;
use crate::api::is_markup;
use crate::api::looks_like_markup;
use crate::api::normalized_tags;
use crate::api::reformat_search_tags;
use crate::filters::Credentials;
use crate::filters::Danbooru;
use crate::json::document_view;
use crate::json::has_prefix;
use crate::json::json_document;
use crate::json::opt_u32_of;
use crate::json::parse_json;
use crate::json::parse_opt_u32;
use crate::json::parse_u32;
use crate::json::str_of;
use crate::json::text_of;
use crate::json::u32_of;
use crate::json::value_as_str;
use crate::json::value_to_string;
use crate::json::Json;
use crate::record::is_success;
use crate::record::lemma_resolved_is_absolute;
use crate::record::rating_from_text;
use crate::record::rating_of;
use crate::record::resolve_url;
use crate::record::resolved_url;
use crate::record::status_is_success;
use crate::record::text_view;
use crate::record::ImageRecord;
use crate::record::Rating;
use crate::record::RecordView;
use crate::record::ResponseError;

verus! {

/// The text of an optional string, empty where there is none.
pub open spec fn opt_text(s: Option<String>) -> Seq<char> {
    match s {
        Some(text) => text@,
        None => Seq::empty(),
    }
}

/// The part of a query that names an account.
pub open spec fn login(username: Seq<char>, key: Seq<char>) -> Seq<char> {
    "&login="@ + username + "&api_key="@ + key
}

/// The account that a user name and a key name together; none where either
/// is missing.
pub open spec fn account_of(username: Option<String>, key: Option<String>) -> Option<Seq<char>> {
    match (username, key) {
        (Some(u), Some(k)) => Some(login(u@, k@)),
        _ => None,
    }
}

/// The account part of the query: the pair given with the query where it is
/// complete, else the pair found in the environment where that is complete,
/// else nothing.
pub open spec fn login_part(args: Danbooru, environment: Credentials) -> Seq<char> {
    match account_of(args.username, args.key) {
        Some(account) => account,
        None => match account_of(environment.username, environment.key) {
            Some(account) => account,
            None => Seq::empty(),
        },
    }
}

/// The rating restriction of the query: the first of safe, questionable and
/// explicit that is set.
pub open spec fn rating_part(args: Danbooru) -> Seq<char> {
    if args.safe {
        "%20rating:s"@
    } else if args.questionable {
        "%20rating:q"@
    } else if args.explicit {
        "%20rating:e"@
    } else {
        Seq::empty()
    }
}

/// The address that asks the provider for a random post.
pub open spec fn query_url(args: Danbooru, environment: Credentials) -> Seq<char> {
    "https://danbooru.donmai.us/posts.json?random=true"@ + login_part(args, environment)
        + "&tags="@ + normalized_tags(opt_text(args.tags)) + rating_part(args)
}

/// Writes the account part of a query.
fn login_text(username: &String, key: &String) -> (r: String)
    ensures
        r@ == login(username@, key@),
{
    let mut text = String::from_str("&login=");
    text.append(username.as_str());
    text.append("&api_key=");
    text.append(key.as_str());
    text
}

/// Writes the account of a user name and a key, where both are there.
fn account_text(username: &Option<String>, key: &Option<String>) -> (r: Option<String>)
    ensures
        text_view(r) == account_of(*username, *key),
{
    match username {
        Some(u) => match key {
            Some(k) => Some(login_text(u, k)),
            None => None,
        },
        None => None,
    }
}

/// Builds the query address from the filters and the credentials found in
/// the environment.
pub fn evaluate_arguments(args: &Danbooru, environment: &Credentials) -> (r: String)
    ensures
        r@ == query_url(*args, *environment),
{
    let mut api = String::from_str("https://danbooru.donmai.us/posts.json?random=true");
    let account: String = match account_text(&args.username, &args.key) {
        Some(account) => account,
        None => match account_text(&environment.username, &environment.key) {
            Some(account) => account,
            None => String::new(),
        },
    };
    api.append(account.as_str());
    let raw: String = match &args.tags {
        Some(tags) => tags.clone(),
        None => String::new(),
    };
    let tags = reformat_search_tags(raw);
    api.append("&tags=");
    api.append(tags.as_str());
    if args.safe {
        api.append("%20rating:s");
    } else if args.questionable {
        api.append("%20rating:q");
    } else if args.explicit {
        api.append("%20rating:e");
    } else {
        assert(api@ + Seq::<char>::empty() =~= api@);
    }
    api
}

/// A complete pair given with the query is the account of the query,
/// whatever the environment holds.
pub proof fn lemma_explicit_pair_comes_first(
    args: Danbooru,
    environment: Credentials,
    username: String,
    key: String,
)
    requires
        args.username == Some(username),
        args.key == Some(key),
    ensures
        login_part(args, environment) == login(username@, key@),
{
}

/// Without a complete pair given with the query, a complete pair of the
/// environment is the account of the query, whatever part of a pair the
/// query gives.
pub proof fn lemma_environment_pair_is_used(
    args: Danbooru,
    environment: Credentials,
    username: String,
    key: String,
)
    requires
        args.username is None || args.key is None,
        environment.username == Some(username),
        environment.key == Some(key),
    ensures
        login_part(args, environment) == login(username@, key@),
{
}

/// The address of a post as the provider gives it: `file_url` where that is
/// a string, else `large_file_url`, else empty.
pub open spec fn raw_file_url(item: Json) -> Seq<char> {
    match item.member("file_url"@) {
        Some(Json::Text(s)) => s@,
        _ => str_of(item.member("large_file_url"@)),
    }
}

/// A source, where the provider names one.
pub open spec fn source_of(text: Seq<char>) -> Option<Seq<char>> {
    if text.len() == 0 {
        None
    } else {
        Some(text)
    }
}

/// The record that one post of a response stands for.
pub open spec fn record_of(item: Json) -> RecordView {
    RecordView {
        source_url: source_of(text_of(item.member("source"@))),
        external_id: opt_u32_of(item.member("pixiv_id"@)),
        file_url: resolved_url(raw_file_url(item)),
        character_tags: text_of(item.member("tag_string_character"@)),
        artist_tags: text_of(item.member("tag_string_artist"@)),
        rating: rating_of(str_of(item.member("rating"@)), Rating::Safe),
        width: u32_of(item.member("image_width"@)),
        height: u32_of(item.member("image_height"@)),
        all_tags: text_of(item.member("tag_string"@)),
    }
}

/// Normalises one post of a response.
pub fn record_from_item(item: &Json) -> (r: ImageRecord)
    ensures
        r@ == record_of(*item),
{
    let source = value_to_string(item.get("source"));
    let source_url = if source.as_str().is_empty() {
        None
    } else {
        Some(source)
    };
    let raw = match item.get("file_url") {
        Some(Json::Text(s)) => s.clone(),
        _ => value_as_str(item.get("large_file_url")),
    };
    let rating_text = value_as_str(item.get("rating"));
    ImageRecord {
        source_url,
        external_id: parse_opt_u32(item.get("pixiv_id")),
        file_url: resolve_url(raw),
        character_tags: value_to_string(item.get("tag_string_character")),
        artist_tags: value_to_string(item.get("tag_string_artist")),
        rating: rating_from_text(rating_text.as_str(), Rating::Safe),
        width: parse_u32(item.get("image_width")),
        height: parse_u32(item.get("image_height")),
        all_tags: value_to_string(item.get("tag_string")),
    }
}

/// Whether `records` are the posts `items`, normalised one by one.
pub open spec fn is_normalized(items: Seq<Json>, records: Seq<ImageRecord>) -> bool {
    records.len() == items.len() && forall|i: int|
        0 <= i < items.len() ==> (#[trigger] records[i])@ == record_of(items[i])
}

/// Every normalised record has its address resolved: one that the provider
/// gave without a scheme stands with `https:` in front, and none begins with
/// `//` any more.
pub proof fn lemma_normalized_addresses_are_absolute(items: Seq<Json>, records: Seq<ImageRecord>)
    requires
        is_normalized(items, records),
    ensures
        forall|i: int|
            0 <= i < records.len() ==> {
                &&& (#[trigger] records[i]).file_url@ == resolved_url(raw_file_url(items[i]))
                &&& !has_prefix(records[i].file_url@, "//"@)
                &&& has_prefix(raw_file_url(items[i]), "//"@) ==> records[i].file_url@
                    == "https:"@ + raw_file_url(items[i])
            },
{
    assert forall|i: int| 0 <= i < records.len() implies {
        &&& (#[trigger] records[i]).file_url@ == resolved_url(raw_file_url(items[i]))
        &&& !has_prefix(records[i].file_url@, "//"@)
        &&& has_prefix(raw_file_url(items[i]), "//"@) ==> records[i].file_url@ == "https:"@
            + raw_file_url(items[i])
    } by {
        assert(records[i]@ == record_of(items[i]));
        lemma_resolved_is_absolute(raw_file_url(items[i]));
    }
}

/// What the provider's failure envelope says: the `message` of a body that
/// is an object with such a string.
pub open spec fn envelope_message(document: Result<Json, Seq<char>>) -> Option<Seq<char>> {
    match document {
        Ok(json) => match json.member("message"@) {
            Some(Json::Text(m)) => Some(m@),
            _ => None,
        },
        Err(_) => None,
    }
}

/// Whether `r` is what a response with this status and this document, which
/// is no markup, comes to.
pub open spec fn is_outcome(
    status: u16,
    document: Result<Json, Seq<char>>,
    r: Result<Vec<ImageRecord>, ResponseError>,
) -> bool {
    if !is_success(status) {
        r matches Err(ResponseError::ProviderRejected { status: s, message }) && s == status
            && text_view(message) == envelope_message(document)
    } else {
        match document {
            Err(reason) => r matches Err(ResponseError::MalformedResponse { detail })
                && detail@ == "Failed to parse JSON: "@ + reason,
            Ok(Json::Array(items)) => if items.len() == 0 {
                r matches Err(ResponseError::NoResults { status: s }) && s == status
            } else {
                r matches Ok(records) && is_normalized(items@, records@)
            },
            Ok(_) => r matches Err(ResponseError::MalformedResponse { detail }) && detail@
                == "Unexpected JSON structure"@,
        }
    }
}

/// Reads the message of a failure envelope.
fn read_envelope(document: &Result<Json, String>) -> (r: Option<String>)
    ensures
        text_view(r) == envelope_message(document_view(*document)),
{
    match document {
        Ok(json) => match json.get("message") {
            Some(Json::Text(m)) => Some(m.clone()),
            _ => None,
        },
        Err(_) => None,
    }
}

/// Turns a parsed response into records, or says why there are none.
pub fn records_from_document(status: u16, document: Result<Json, String>) -> (r: Result<
    Vec<ImageRecord>,
    ResponseError,
>)
    ensures
        is_outcome(status, document_view(document), r),
{
    if !status_is_success(status) {
        let message = read_envelope(&document);
        return Err(ResponseError::ProviderRejected { status, message });
    }
    match document {
        Err(reason) => {
            let mut detail = String::from_str("Failed to parse JSON: ");
            detail.append(reason.as_str());
            Err(ResponseError::MalformedResponse { detail })
        },
        Ok(Json::Array(items)) => {
            if items.len() == 0 {
                return Err(ResponseError::NoResults { status });
            }
            let mut records: Vec<ImageRecord> = Vec::new();
            let mut i: usize = 0;
            while i < items.len()
                invariant
                    i <= items.len(),
                    is_normalized(items@.take(i as int), records@),
                decreases items.len() - i,
            {
                let record = record_from_item(&items[i]);
                records.push(record);
                i = i + 1;
            }
            assert(items@.take(i as int) =~= items@);
            Ok(records)
        },
        Ok(_) => Err(
            ResponseError::MalformedResponse {
                detail: String::from_str("Unexpected JSON structure"),
            },
        ),
    }
}

/// Validates a response and normalises it. A body that is markup is refused
/// before anything parses it, whatever the status.
pub fn normalize_response(status: u16, body: &str) -> (r: Result<Vec<ImageRecord>, ResponseError>)
    ensures
        looks_like_markup(body@) ==> (r matches Err(
            ResponseError::UnexpectedContentKind { status: s },
        ) && s == status),
        !looks_like_markup(body@) ==> is_outcome(status, json_document(body@), r),
{
    if is_markup(body) {
        return Err(ResponseError::UnexpectedContentKind { status });
    }
    records_from_document(status, parse_json(body))
}

/// The first index from `from` on whose record has an address.
pub open spec fn first_accessible_from(records: Seq<ImageRecord>, from: int) -> Option<int>
    decreases records.len() - from,
{
    if from < 0 || from >= records.len() {
        None
    } else if records[from].file_url@.len() > 0 {
        Some(from)
    } else {
        first_accessible_from(records, from + 1)
    }
}

/// The index of the first record that has an address.
pub open spec fn first_accessible(records: Seq<ImageRecord>) -> Option<int> {
    first_accessible_from(records, 0)
}

/// Finds the first record that has an address.
pub fn select_first_accessible(records: &Vec<ImageRecord>) -> (r: Option<usize>)
    ensures
        match r {
            Some(k) => first_accessible(records@) == Some(k as int),
            None => first_accessible(records@) is None,
        },
{
    let mut i: usize = 0;
    while i < records.len()
        invariant
            i <= records.len(),
            first_accessible(records@) == first_accessible_from(records@, i as int),
        decreases records.len() - i,
    {
        if !records[i].file_url.as_str().is_empty() {
            return Some(i);
        }
        i = i + 1;
    }
    None
}

/// Chooses the image to show: the address of the first record that has one.
pub fn grab_random_image(records: &Vec<ImageRecord>) -> (r: Result<String, ResponseError>)
    ensures
        match first_accessible(records@) {
            Some(k) => 0 <= k < records.len() && (r matches Ok(url) && url@
                == records[k].file_url@),
            None => r matches Err(ResponseError::NoAccessibleResults),
        },
{
    match select_first_accessible(records) {
        Some(k) => {
            proof {
                lemma_first_accessible_bounds(records@, 0);
            }
            Ok(records[k].file_url.clone())
        },
        None => Err(ResponseError::NoAccessibleResults),
    }
}

/// The first accessible index lies in the list and not before `from`, has an
/// address, and no record between `from` and it has one; there is none
/// exactly where no record from `from` on has an address.
pub proof fn lemma_first_accessible_bounds(records: Seq<ImageRecord>, from: int)
    requires
        0 <= from,
    ensures
        match first_accessible_from(records, from) {
            Some(k) => from <= k < records.len() && records[k].file_url@.len() > 0 && forall|
                i: int,
            |
                from <= i < k ==> (#[trigger] records[i]).file_url@.len() == 0,
            None => forall|i: int|
                from <= i < records.len() ==> (#[trigger] records[i]).file_url@.len() == 0,
        },
    decreases records.len() - from,
{
    if from < records.len() && records[from].file_url@.len() == 0 {
        lemma_first_accessible_bounds(records, from + 1);
    }
}

/// Where exactly one record has an address, it is the one chosen.
pub proof fn lemma_only_accessible_is_chosen(records: Seq<ImageRecord>, k: int)
    requires
        0 <= k < records.len(),
        records[k].file_url@.len() > 0,
        forall|i: int|
            0 <= i < records.len() && i != k ==> (#[trigger] records[i]).file_url@.len() == 0,
    ensures
        first_accessible(records) == Some(k),
{
    lemma_first_accessible_bounds(records, 0);
    match first_accessible(records) {
        Some(j) => {
            if j != k {
                assert(records[j].file_url@.len() == 0);
            }
        },
        None => {
            assert(records[k].file_url@.len() == 0);
        },
    }
}

} // verus!
