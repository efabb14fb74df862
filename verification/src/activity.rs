//! Activity records and their decoding from the search endpoint's answer.

use crate::datetime::{deserialize, parsed_time, FORMAT};
use crate::error::ApiError;
use crate::json::{json_document, parse, Json};
use vstd::prelude::*;

verus! {

/// One recorded activity.
#[derive(Debug, Clone, PartialEq, Eq)]
pub struct Activity {
    id: u64,
    name: String,
    description: Option<String>,
    start_time_gmt: Option<i64>,
}

/// An [`Activity`] over sequences of characters.
pub struct ActivityView {
    /// The identifier that the server assigned.
    pub id: u64,
    pub name: Seq<char>,
    pub description: Option<Seq<char>>,
    /// The start, in seconds since 1970-01-01 00:00:00 UTC.
    pub start_time_gmt: Option<i64>,
}

impl View for Activity {
    type V = ActivityView;

    closed spec fn view(&self) -> ActivityView {
        ActivityView {
            id: self.id,
            name: self.name@,
            description: match self.description {
                Some(text) => Some(text@),
                None => None,
            },
            start_time_gmt: self.start_time_gmt,
        }
    }
}

/// The activities of a list, each by its view.
pub open spec fn activity_views(list: Seq<Activity>) -> Seq<ActivityView> {
    Seq::new(list.len(), |i: int| list[i]@)
}

/// The first member called `name` among those from index `from` on.
pub open spec fn member_from(members: Seq<(String, Json)>, name: Seq<char>, from: int) -> Option<
    Json,
>
    decreases members.len() - from,
{
    if from < 0 || from >= members.len() {
        None
    } else if members[from].0@ == name {
        Some(members[from].1)
    } else {
        member_from(members, name, from + 1)
    }
}

/// The member of an object that is called `name`.
pub open spec fn member(members: Seq<(String, Json)>, name: Seq<char>) -> Option<Json> {
    member_from(members, name, 0)
}

/// The description that a record's member stands for: none where the member
/// is missing or null, and no reading where it is not text.
pub open spec fn description_of(found: Option<Json>) -> Option<Option<Seq<char>>> {
    match found {
        None => Some(None),
        Some(Json::Null) => Some(None),
        Some(Json::Text(text)) => Some(Some(text@)),
        _ => None,
    }
}

/// The start time that a record's member stands for: none where the member is
/// missing or null, and no reading where it is not a time in the layout
/// [`FORMAT`].
pub open spec fn start_of(found: Option<Json>) -> Option<Option<i64>> {
    match found {
        None => Some(None),
        Some(Json::Null) => Some(None),
        Some(Json::Text(text)) => match parsed_time(text@, FORMAT@) {
            Some(seconds) => Some(Some(seconds)),
            None => None,
        },
        _ => None,
    }
}

/// The activity that a JSON record stands for. The record is an object with
/// a whole number `activityId`, a text `activityName`, and optionally a
/// `description` and a `startTimeGMT`; other members are ignored.
pub open spec fn record(json: Json) -> Option<ActivityView> {
    match json {
        Json::Object(members) => match (
            member(members@, "activityId"@),
            member(members@, "activityName"@),
            description_of(member(members@, "description"@)),
            start_of(member(members@, "startTimeGMT"@)),
        ) {
            (
                Some(Json::Number(Some(id))),
                Some(Json::Text(name)),
                Some(description),
                Some(start_time_gmt),
            ) => Some(ActivityView { id, name: name@, description, start_time_gmt }),
            _ => None,
        },
        _ => None,
    }
}

/// The activities that the first `n` of `items` stand for, in their order;
/// `None` where one of them is no activity record.
pub open spec fn records_to(items: Seq<Json>, n: int) -> Option<Seq<ActivityView>>
    decreases n,
{
    if n <= 0 {
        Some(seq![])
    } else {
        match (records_to(items, n - 1), record(items[n - 1])) {
            (Some(before), Some(activity)) => Some(before.push(activity)),
            _ => None,
        }
    }
}

/// The activities that a JSON document lists: the document is an array of
/// activity records.
pub open spec fn listing(document: Option<Json>) -> Option<Seq<ActivityView>> {
    match document {
        Some(Json::List(items)) => records_to(items@, items@.len() as int),
        _ => None,
    }
}

impl Activity {
    /// An activity with the given fields.
    pub fn new(id: u64, name: String, description: Option<String>, start_time_gmt: Option<i64>) -> (activity: Self)
        ensures
            activity@ == (ActivityView {
                id,
                name: name@,
                description: match description {
                    Some(text) => Some(text@),
                    None => None,
                },
                start_time_gmt,
            }),
    {
        Activity { id, name, description, start_time_gmt }
    }

    /// The identifier that the server assigned.
    pub fn id(&self) -> (id: u64)
        ensures
            id == self@.id,
    {
        self.id
    }

    /// The name of the activity.
    pub fn name(&self) -> (name: &str)
        ensures
            name@ == self@.name,
    {
        self.name.as_str()
    }

    /// The description, where the activity has one.
    pub fn description(&self) -> (description: Option<&str>)
        ensures
            match description {
                Some(text) => self@.description == Some(text@),
                None => self@.description is None,
            },
    {
        match &self.description {
            Some(text) => Some(text.as_str()),
            None => None,
        }
    }

    /// The start, in seconds since 1970-01-01 00:00:00 UTC, where it is known.
    pub fn start_time_gmt(&self) -> (seconds: Option<i64>)
        ensures
            seconds == self@.start_time_gmt,
    {
        self.start_time_gmt
    }
}

fn find<'a>(members: &'a Vec<(String, Json)>, name: &str) -> (found: Option<&'a Json>)
    ensures
        match found {
            Some(json) => member(members@, name@) == Some(*json),
            None => member(members@, name@) is None,
        },
{
    let wanted = name.to_owned();
    let mut i: usize = 0;
    while i < members.len()
        invariant
            i <= members.len(),
            wanted@ == name@,
            member(members@, name@) == member_from(members@, name@, i as int),
        decreases members.len() - i,
    {
        if members[i].0 == wanted {
            return Some(&members[i].1);
        }
        i += 1;
    }
    None
}

fn read_description(found: Option<&Json>) -> (read: Option<Option<String>>)
    ensures
        match read {
            Some(Some(text)) => description_of(
                match found { Some(json) => Some(*json), None => None },
            ) == Some(Some(text@)),
            Some(None) => description_of(
                match found { Some(json) => Some(*json), None => None },
            ) == Some(None::<Seq<char>>),
            None => description_of(
                match found { Some(json) => Some(*json), None => None },
            ) is None,
        },
{
    match found {
        None => Some(None),
        Some(Json::Null) => Some(None),
        Some(Json::Text(text)) => Some(Some(text.clone())),
        Some(_) => None,
    }
}

fn read_start(found: Option<&Json>) -> (read: Option<Option<i64>>)
    ensures
        read == start_of(match found { Some(json) => Some(*json), None => None }),
{
    match found {
        None => Some(None),
        Some(Json::Null) => Some(None),
        Some(Json::Text(text)) => match deserialize(text.as_str()) {
            Ok(seconds) => Some(Some(seconds)),
            Err(_) => None,
        },
        Some(_) => None,
    }
}

/// Reads one activity record.
///
/// Succeeds exactly on the records that [`record`] reads.
pub fn activity_from(json: &Json) -> (decoded: Result<Activity, ApiError>)
    ensures
        match decoded {
            Ok(activity) => record(*json) == Some(activity@),
            Err(e) => e == ApiError::DecodeFailed && record(*json) is None,
        },
{
    let members = match json {
        Json::Object(members) => members,
        _ => {
            return Err(ApiError::DecodeFailed);
        },
    };
    let id: u64 = match find(members, "activityId") {
        Some(Json::Number(Some(id))) => *id,
        _ => {
            return Err(ApiError::DecodeFailed);
        },
    };
    let name = match find(members, "activityName") {
        Some(Json::Text(name)) => name.clone(),
        _ => {
            return Err(ApiError::DecodeFailed);
        },
    };
    let description = match read_description(find(members, "description")) {
        Some(description) => description,
        None => {
            return Err(ApiError::DecodeFailed);
        },
    };
    let start_time_gmt = match read_start(find(members, "startTimeGMT")) {
        Some(start) => start,
        None => {
            return Err(ApiError::DecodeFailed);
        },
    };
    Ok(Activity { id, name, description, start_time_gmt })
}

/// Reads a list of activity records, keeping their order.
///
/// Succeeds exactly on the documents that [`listing`] reads.
pub fn activities_from(document: &Json) -> (decoded: Result<Vec<Activity>, ApiError>)
    ensures
        match decoded {
            Ok(list) => listing(Some(*document)) == Some(activity_views(list@)),
            Err(e) => e == ApiError::DecodeFailed && listing(Some(*document)) is None,
        },
{
    let items = match document {
        Json::List(items) => items,
        _ => {
            return Err(ApiError::DecodeFailed);
        },
    };
    let mut list: Vec<Activity> = Vec::new();
    let mut i: usize = 0;
    while i < items.len()
        invariant
            i <= items.len(),
            listing(Some(*document)) == records_to(items@, items@.len() as int),
            records_to(items@, i as int) == Some(activity_views(list@)),
        decreases items.len() - i,
    {
        match activity_from(&items[i]) {
            Ok(activity) => {
                let ghost before = activity_views(list@);
                list.push(activity);
                assert(activity_views(list@) =~= before.push(activity@));
            },
            Err(e) => {
                proof {
                    lemma_records_fail(items@, i as int, items@.len() as int);
                }
                return Err(e);
            },
        }
        i += 1;
    }
    Ok(list)
}

/// A list with an item that is no activity record is no listing.
proof fn lemma_records_fail(items: Seq<Json>, at: int, n: int)
    requires
        0 <= at < n,
        record(items[at]) is None,
    ensures
        records_to(items, n) is None,
    decreases n,
{
    if at < n - 1 {
        lemma_records_fail(items, at, n - 1);
    }
}

/// A listing holds one activity for each item of the document, in the order
/// of the document.
pub proof fn lemma_listing_keeps_order(items: Seq<Json>, n: int)
    requires
        0 <= n <= items.len(),
    ensures
        match records_to(items, n) {
            Some(list) => list.len() == n && forall|i: int|
                0 <= i < n ==> record(items[i]) == Some(#[trigger] list[i]),
            None => exists|i: int| 0 <= i < n && record(items[i]) is None,
        },
    decreases n,
{
    if n > 0 {
        lemma_listing_keeps_order(items, n - 1);
        if records_to(items, n - 1) is None {
            let i = choose|i: int| 0 <= i < n - 1 && record(items[i]) is None;
            assert(0 <= i < n && record(items[i]) is None);
        } else if record(items[n - 1]) is None {
            assert(0 <= n - 1 < n && record(items[n - 1]) is None);
        }
    }
}

/// Decodes the body of the search endpoint's answer.
pub fn decode_activities(body: &[u8]) -> (decoded: Result<Vec<Activity>, ApiError>)
    ensures
        match decoded {
            Ok(list) => listing(json_document(body@)) == Some(activity_views(list@)),
            Err(e) => e == ApiError::DecodeFailed && listing(json_document(body@)) is None,
        },
{
    match parse(body) {
        Some(document) => activities_from(&document),
        None => Err(ApiError::DecodeFailed),
    }
}

/// Decodes a buffer that holds one activity record.
pub fn decode_activity(body: &[u8]) -> (decoded: Result<Activity, ApiError>)
    ensures
        match decoded {
            Ok(activity) => json_document(body@) matches Some(json) && record(json) == Some(
                activity@,
            ),
            Err(e) => e == ApiError::DecodeFailed && !(json_document(body@) matches Some(json)
                && record(json) is Some),
        },
{
    match parse(body) {
        Some(document) => activity_from(&document),
        None => Err(ApiError::DecodeFailed),
    }
}

} // verus!
