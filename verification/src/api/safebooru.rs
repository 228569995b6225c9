//! The provider with two rating tiers: its query, the normalisation of its
//! response and the choice of an image.

use vstd::prelude::*;
use vstd::string::StringExecFns;
use rand::distributions::Distribution;
use crate::api::is_markup;
use crate::api::looks_like_markup;
use crate::api::normalized_tags;
use crate::api::reformat_search_tags;
use crate::filters::Safebooru;
use crate::json::decimal_digits;
use crate::json::decimal_text;
use crate::json::document_view;
use crate::json::has_prefix;
use crate::json::json_document;
use crate::json::parse_json;
use crate::json::parse_u32;
use crate::json::str_of;
use crate::json::u32_of;
use crate::json::value_as_str;
use crate::json::Json;
use crate::record::is_success;
use crate::record::rating_from_text;
use crate::record::rating_of;
use crate::record::status_is_success;
use crate::record::ImageRecord;
use crate::record::Rating;
use crate::record::RecordView;
use crate::record::ResponseError;

verus! {

/// The tags of a query, empty where none are given.
pub open spec fn raw_tags(args: Safebooru) -> Seq<char> {
    match args.tags {
        Some(text) => text@,
        None => Seq::empty(),
    }
}

/// The rating restriction of the query.
pub open spec fn rating_part(args: Safebooru) -> Seq<char> {
    if args.questionable {
        "%20rating:questionable"@
    } else {
        Seq::empty()
    }
}

/// The address that asks the provider for up to a hundred posts.
pub open spec fn query_url(args: Safebooru) -> Seq<char> {
    "https://safebooru.org/index.php?page=dapi&s=post&q=index&limit=100&json=1"@ + "&tags="@
        + normalized_tags(raw_tags(args)) + rating_part(args)
}

/// Builds the query address from the filters.
pub fn evaluate_arguments(args: &Safebooru) -> (r: String)
    ensures
        r@ == query_url(*args),
{
    let raw: String = match &args.tags {
        Some(tags) => tags.clone(),
        None => String::new(),
    };
    let tags = reformat_search_tags(raw);
    let mut api = String::from_str(
        "https://safebooru.org/index.php?page=dapi&s=post&q=index&limit=100&json=1",
    );
    api.append("&tags=");
    api.append(tags.as_str());
    if args.questionable {
        api.append("%20rating:questionable");
    } else {
        assert(api@ + Seq::<char>::empty() =~= api@);
    }
    api
}

/// The address under which the provider serves an image.
pub open spec fn image_url(directory: Seq<char>, image: Seq<char>, id: u32) -> Seq<char> {
    "https://safebooru.org/images/"@ + directory + "/"@ + image + "?"@ + decimal_digits(id as nat)
}

/// The record that one post of a response stands for.
pub open spec fn record_of(item: Json) -> RecordView {
    RecordView {
        source_url: None,
        external_id: Some(u32_of(item.member("id"@))),
        file_url: image_url(
            str_of(item.member("directory"@)),
            str_of(item.member("image"@)),
            u32_of(item.member("id"@)),
        ),
        character_tags: Seq::empty(),
        artist_tags: Seq::empty(),
        rating: rating_of(str_of(item.member("rating"@)), Rating::Unknown),
        width: u32_of(item.member("width"@)),
        height: u32_of(item.member("height"@)),
        all_tags: str_of(item.member("tags"@)),
    }
}

/// Normalises one post of a response.
pub fn record_from_item(item: &Json) -> (r: ImageRecord)
    ensures
        r@ == record_of(*item),
{
    let directory = value_as_str(item.get("directory"));
    let image = value_as_str(item.get("image"));
    let id = parse_u32(item.get("id"));
    let rating_text = value_as_str(item.get("rating"));
    let mut file_url = String::from_str("https://safebooru.org/images/");
    file_url.append(directory.as_str());
    file_url.append("/");
    file_url.append(image.as_str());
    file_url.append("?");
    file_url.append(decimal_text(id).as_str());
    ImageRecord {
        source_url: None,
        external_id: Some(id),
        file_url,
        character_tags: String::new(),
        artist_tags: String::new(),
        rating: rating_from_text(rating_text.as_str(), Rating::Unknown),
        width: parse_u32(item.get("width")),
        height: parse_u32(item.get("height")),
        all_tags: value_as_str(item.get("tags")),
    }
}

/// The address of a record is never empty: it begins with the provider's
/// host.
pub proof fn lemma_address_is_never_empty(item: Json)
    ensures
        record_of(item).file_url.len() > 0,
        has_prefix(record_of(item).file_url, "https://safebooru.org/images/"@),
{
    reveal_strlit("https://safebooru.org/images/");
    let host = "https://safebooru.org/images/"@;
    let url = record_of(item).file_url;
    assert(url.take(host.len() as int) =~= host);
}

/// Whether `records` are the posts `items`, normalised one by one.
pub open spec fn is_normalized(items: Seq<Json>, records: Seq<ImageRecord>) -> bool {
    records.len() == items.len() && forall|i: int|
        0 <= i < items.len() ==> (#[trigger] records[i])@ == record_of(items[i])
}

/// Whether `r` is what a response with this status and this document, which
/// is no markup, comes to.
pub open spec fn is_outcome(
    status: u16,
    document: Result<Json, Seq<char>>,
    r: Result<Vec<ImageRecord>, ResponseError>,
) -> bool {
    if !is_success(status) {
        r matches Err(ResponseError::ProviderRejected { status: s, message }) && s == status
            && message is None
    } else {
        match document {
            Err(reason) => r matches Err(ResponseError::MalformedResponse { detail })
                && detail@ == "Failed to parse JSON: "@ + reason,
            Ok(Json::Array(items)) => if items.len() == 0 {
                r matches Err(ResponseError::NoResults { status: s }) && s == status
            } else {
                r matches Ok(records) && is_normalized(items@, records@)
            },
            Ok(_) => r matches Err(ResponseError::MalformedResponse { detail }) && detail@
                == "Unexpected JSON structure"@,
        }
    }
}

/// Turns a parsed response into records, or says why there are none.
pub fn records_from_document(status: u16, document: Result<Json, String>) -> (r: Result<
    Vec<ImageRecord>,
    ResponseError,
>)
    ensures
        is_outcome(status, document_view(document), r),
{
    if !status_is_success(status) {
        return Err(ResponseError::ProviderRejected { status, message: None });
    }
    match document {
        Err(reason) => {
            let mut detail = String::from_str("Failed to parse JSON: ");
            detail.append(reason.as_str());
            Err(ResponseError::MalformedResponse { detail })
        },
        Ok(Json::Array(items)) => {
            if items.len() == 0 {
                return Err(ResponseError::NoResults { status });
            }
            let mut records: Vec<ImageRecord> = Vec::new();
            let mut i: usize = 0;
            while i < items.len()
                invariant
                    i <= items.len(),
                    is_normalized(items@.take(i as int), records@),
                decreases items.len() - i,
            {
                let record = record_from_item(&items[i]);
                records.push(record);
                i = i + 1;
            }
            assert(items@.take(i as int) =~= items@);
            Ok(records)
        },
        Ok(_) => Err(
            ResponseError::MalformedResponse {
                detail: String::from_str("Unexpected JSON structure"),
            },
        ),
    }
}

/// Validates a response and normalises it. A body that is markup is refused
/// before anything parses it, whatever the status.
pub fn normalize_response(status: u16, body: &str) -> (r: Result<Vec<ImageRecord>, ResponseError>)
    ensures
        looks_like_markup(body@) ==> (r matches Err(
            ResponseError::UnexpectedContentKind { status: s },
        ) && s == status),
        !looks_like_markup(body@) ==> is_outcome(status, json_document(body@), r),
{
    if is_markup(body) {
        return Err(ResponseError::UnexpectedContentKind { status });
    }
    records_from_document(status, parse_json(body))
}

/// Calls `Uniform::from` on the range from 0 up to `count`, and `sample` on
/// it with `rand::thread_rng()`: a number of that range, each one as likely
/// as another. An empty range, on which the call panics, is left out.
#[verifier::external_body]
fn random_below(count: usize) -> (r: usize)
    requires
        count > 0,
    ensures
        r < count,
{
    rand::distributions::Uniform::from(0..count).sample(&mut rand::thread_rng())
}

/// Draws the index of one of `count` records, each as likely as another;
/// there is none to draw among no records.
pub fn choose_index(count: usize) -> (r: Option<usize>)
    ensures
        count == 0 <==> r is None,
        r matches Some(k) ==> k < count,
{
    if count == 0 {
        None
    } else {
        Some(random_below(count))
    }
}

/// The address of the record that was drawn.
pub fn candidate_at(records: &Vec<ImageRecord>, drawn: Option<usize>) -> (r: Result<
    String,
    ResponseError,
>)
    ensures
        match drawn {
            Some(k) if k < records.len() => r matches Ok(url) && url@ == records[k as int].file_url@,
            _ => r matches Err(ResponseError::NoAccessibleResults),
        },
{
    match drawn {
        Some(k) => {
            if k < records.len() {
                Ok(records[k].file_url.clone())
            } else {
                Err(ResponseError::NoAccessibleResults)
            }
        },
        None => Err(ResponseError::NoAccessibleResults),
    }
}

/// Chooses the image to show: the address of a record drawn at random among
/// all of them.
pub fn grab_random_image(records: &Vec<ImageRecord>) -> (r: Result<String, ResponseError>)
    ensures
        records.len() == 0 ==> r matches Err(ResponseError::NoAccessibleResults),
        records.len() > 0 ==> (r matches Ok(url) && exists|k: int|
            0 <= k < records.len() && url@ == (#[trigger] records[k]).file_url@),
{
    let drawn = choose_index(records.len());
    candidate_at(records, drawn)
}

} // verus!
