use garmin_export::activity::{decode_activities, decode_activity, Activity};
use garmin_export::error::ApiError;

#[test]
fn can_parse_json() {
    let activity_json = r#"
        {
          "activityId": 42,
          "activityName": "some name",
          "description": "some description",
          "startTimeGMT": "2020-08-15 10:03:11"
        }
        "#;

    let activity = Activity::new(
        42,
        "some name".to_string(),
        Some("some description".to_string()),
        Some(1597485791),
    );

    assert_eq!(activity, decode_activity(activity_json.as_bytes()).unwrap());
}

#[test]
fn list_of_one_activity_is_decoded() {
    let body = r#"[{"activityId":42,"activityName":"Run","description":"morning"}]"#;
    assert_eq!(
        decode_activities(body.as_bytes()),
        Ok(vec![Activity::new(42, "Run".to_string(), Some("morning".to_string()), None)])
    );
}

#[test]
fn missing_description_is_none() {
    let body = r#"[{"activityId":42,"activityName":"Run"}]"#;
    let list = decode_activities(body.as_bytes()).unwrap();
    assert_eq!(list.len(), 1);
    assert_eq!(list[0].id(), 42);
    assert_eq!(list[0].name(), "Run");
    assert_eq!(list[0].description(), None);
    assert_eq!(list[0].start_time_gmt(), None);
}

#[test]
fn null_description_is_none() {
    let body = r#"[{"activityId":7,"activityName":"Ride","description":null}]"#;
    let list = decode_activities(body.as_bytes()).unwrap();
    assert_eq!(list[0].description(), None);
}

#[test]
fn unknown_fields_are_ignored() {
    let body = r#"[{"distance":12.5,"activityId":1,"owner":{"id":3},"activityName":"Swim","tags":[1,2]}]"#;
    assert_eq!(
        decode_activities(body.as_bytes()),
        Ok(vec![Activity::new(1, "Swim".to_string(), None, None)])
    );
}

#[test]
fn order_of_the_server_is_kept() {
    let body = r#"[{"activityId":9,"activityName":"b"},{"activityId":3,"activityName":"a"},{"activityId":5,"activityName":"c"}]"#;
    let list = decode_activities(body.as_bytes()).unwrap();
    let ids: Vec<u64> = list.iter().map(|a| a.id()).collect();
    assert_eq!(ids, vec![9, 3, 5]);
}

#[test]
fn decoding_twice_gives_equal_lists() {
    let body = r#"[{"activityId":9,"activityName":"b"},{"activityId":3,"activityName":"a","startTimeGMT":"1970-01-01 00:00:01"}]"#;
    let first = decode_activities(body.as_bytes()).unwrap();
    let second = decode_activities(body.as_bytes()).unwrap();
    assert_eq!(first, second);
    assert_eq!(first[1].start_time_gmt(), Some(1));
}

#[test]
fn malformed_bodies_fail_to_decode() {
    assert_eq!(decode_activities(b"not json"), Err(ApiError::DecodeFailed));
    assert_eq!(decode_activities(b"{}"), Err(ApiError::DecodeFailed));
    assert_eq!(decode_activities(b"[1]"), Err(ApiError::DecodeFailed));
    assert_eq!(
        decode_activities(br#"[{"activityId":"42","activityName":"Run"}]"#),
        Err(ApiError::DecodeFailed)
    );
    assert_eq!(
        decode_activities(br#"[{"activityId":-1,"activityName":"Run"}]"#),
        Err(ApiError::DecodeFailed)
    );
    assert_eq!(
        decode_activities(br#"[{"activityId":1}]"#),
        Err(ApiError::DecodeFailed)
    );
    assert_eq!(
        decode_activities(br#"[{"activityId":1,"activityName":"Run","description":5}]"#),
        Err(ApiError::DecodeFailed)
    );
    assert_eq!(
        decode_activities(br#"[{"activityId":1,"activityName":"Run","startTimeGMT":"yesterday"}]"#),
        Err(ApiError::DecodeFailed)
    );
}

#[test]
fn empty_list_is_decoded() {
    assert_eq!(decode_activities(b"[]"), Ok(vec![]));
}
