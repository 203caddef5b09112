use api0_types::catalog::{
    accept_lowercased_flag, default_false_string, default_verb, deserialize_flexible_bool,
};
use api0_types::usage::default_action_type;
use api0_types::{
    generate_uuid, ApiGroup, ApiGroupWithEndpoints, Endpoint, FlexibleBool, RequiredFlagError,
};

#[test]
fn required_accepts_bool_and_string() {
    let from_bool = deserialize_flexible_bool(FlexibleBool::Bool(true)).unwrap();
    let from_string = deserialize_flexible_bool(FlexibleBool::Text("TRUE".to_string())).unwrap();
    assert_eq!(from_bool, "true");
    assert_eq!(from_string, "true");
}

#[test]
fn required_flag_normalises_every_spelling() {
    assert_eq!(deserialize_flexible_bool(FlexibleBool::Bool(false)).unwrap(), "false");
    assert_eq!(deserialize_flexible_bool(FlexibleBool::Text("False".to_string())).unwrap(), "false");
    assert_eq!(deserialize_flexible_bool(FlexibleBool::Text("tRuE".to_string())).unwrap(), "true");
    assert_eq!(deserialize_flexible_bool(FlexibleBool::Text("false".to_string())).unwrap(), "false");
}

#[test]
fn required_flag_refuses_other_strings() {
    for bad in ["yes", "1", "", " true", "truee", "no"] {
        let refused = deserialize_flexible_bool(FlexibleBool::Text(bad.to_string()));
        assert_eq!(refused, Err(RequiredFlagError::InvalidBooleanString));
    }
    assert_eq!(
        RequiredFlagError::InvalidBooleanString.message(),
        "Invalid boolean string, must be 'true' or 'false'"
    );
}

#[test]
fn lowercased_flags_are_kept_or_refused() {
    assert_eq!(accept_lowercased_flag("true".to_string()).unwrap(), "true");
    assert_eq!(accept_lowercased_flag("false".to_string()).unwrap(), "false");
    assert_eq!(
        accept_lowercased_flag("TRUE".to_string()),
        Err(RequiredFlagError::InvalidBooleanString)
    );
}

#[test]
fn missing_fields_take_their_defaults() {
    assert_eq!(default_verb(), "GET");
    assert_eq!(default_false_string(), "false");
    assert_eq!(default_action_type(), "unknown");
}

fn is_hyphenated_v4(id: &str) -> bool {
    let chars: Vec<char> = id.chars().collect();
    chars.len() == 36
        && chars.iter().enumerate().all(|(i, c)| {
            if i == 8 || i == 13 || i == 18 || i == 23 {
                *c == '-'
            } else {
                c.is_ascii_digit() || ('a'..='f').contains(c)
            }
        })
        && chars[14] == '4'
        && ['8', '9', 'a', 'b'].contains(&chars[19])
}

#[test]
fn generated_ids_are_random_hyphenated_uuids() {
    let a = generate_uuid();
    let b = generate_uuid();
    assert!(is_hyphenated_v4(&a), "{a}");
    assert!(is_hyphenated_v4(&b), "{b}");
    assert_ne!(a, b);
}

#[test]
fn a_group_wraps_its_endpoints() {
    let wrapped = ApiGroupWithEndpoints {
        group: ApiGroup {
            id: "g1".into(),
            name: "Billing".into(),
            description: String::new(),
            base: String::new(),
            tenant_id: "t1".into(),
            forward_identity: None,
        },
        endpoints: vec![],
    };
    assert_eq!(wrapped.group.name, "Billing");
    assert!(wrapped.endpoints.is_empty());
    assert_eq!(wrapped.clone(), wrapped);
}

fn endpoint(forward_identity: Option<bool>, content_type: Option<&str>) -> Endpoint {
    Endpoint {
        id: String::new(),
        text: "t".to_string(),
        description: String::new(),
        parameters: vec![],
        verb: default_verb(),
        base: String::new(),
        path: String::new(),
        suggested_sentence: String::new(),
        group_id: String::new(),
        content_type: content_type.map(|c| c.to_string()),
        body_template: None,
        forward_identity,
    }
}

fn group(forward_identity: Option<bool>) -> ApiGroup {
    ApiGroup {
        id: "g".to_string(),
        name: "G".to_string(),
        description: String::new(),
        base: String::new(),
        tenant_id: String::new(),
        forward_identity,
    }
}

#[test]
fn an_endpoints_own_identity_setting_wins() {
    for g in [None, Some(true), Some(false)] {
        assert!(endpoint(Some(true), None).forwards_identity(&group(g)));
        assert!(!endpoint(Some(false), None).forwards_identity(&group(g)));
    }
    assert!(!endpoint(None, None).forwards_identity(&group(Some(false))));
    assert!(endpoint(None, None).forwards_identity(&group(Some(true))));
    assert!(endpoint(None, None).forwards_identity(&group(None)));
}

#[test]
fn a_missing_content_type_means_json() {
    assert_eq!(endpoint(None, None).request_content_type(), "application/json");
    assert_eq!(
        endpoint(None, Some("application/json-patch+json")).request_content_type(),
        "application/json-patch+json"
    );
}

#[test]
fn a_normalised_flag_reads_back_unchanged() {
    let raws = [
        FlexibleBool::Bool(true),
        FlexibleBool::Bool(false),
        FlexibleBool::Text("TRUE".to_string()),
        FlexibleBool::Text("False".to_string()),
    ];
    for raw in raws {
        let first = deserialize_flexible_bool(raw).unwrap();
        let again = deserialize_flexible_bool(FlexibleBool::Text(first.clone())).unwrap();
        assert_eq!(again, first);
    }
}

#[test]
fn a_boolean_and_its_spelling_agree() {
    for b in [true, false] {
        assert_eq!(
            deserialize_flexible_bool(FlexibleBool::Bool(b)),
            deserialize_flexible_bool(FlexibleBool::Text(b.to_string().to_uppercase()))
        );
    }
}
