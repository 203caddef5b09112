use api0_types::{ReferenceData, UploadReferenceDataResponse, UtcTimestamp};

#[test]
fn reference_data_carries_its_json_and_timestamp() {
    let record = ReferenceData {
        id: "r1".to_string(),
        email: "a@example.com".to_string(),
        name: "rates".to_string(),
        data: serde_json::Value::Bool(true),
        created_at: UtcTimestamp { secs: 1_700_000_000, subsec_nanos: 5 },
    };
    let response = UploadReferenceDataResponse {
        success: true,
        message: "stored".to_string(),
        data: Some(record.clone()),
    };
    assert_eq!(response.data, Some(record));
    let stored = response.data.unwrap();
    assert_eq!(stored.created_at.secs, 1_700_000_000);
    assert_eq!(stored.created_at.subsec_nanos, 5);
    assert_eq!(stored.data, serde_json::Value::Bool(true));
}
