use void_launcher::conf::{
    border_colors_of, conf_value_of, find_field, get_border_color, get_conf_data, parse_conf,
    ConfError, ConfFile, JsonValue,
};

const CONF: &str = r##"[
    {"layer": "top", "fullscreen": "false", "width": "900"},
    {"width": "1200", "columns": 4, "border_color": ["#112233", 5, "#445566"]},
    {"border_color": ["#778899"]}
]"##;

#[test]
fn conf_file_keeps_its_text() {
    let c = ConfFile::new("[]".to_string());
    assert_eq!(c.read(), "[]");
}

#[test]
fn later_entry_overrides_earlier() {
    assert_eq!(get_conf_data(CONF.to_string(), "width"), Ok("1200".to_string()));
    assert_eq!(get_conf_data(CONF.to_string(), "layer"), Ok("top".to_string()));
}

#[test]
fn missing_or_non_string_setting_is_empty() {
    assert_eq!(get_conf_data(CONF.to_string(), "input"), Ok(String::new()));
    assert_eq!(get_conf_data(CONF.to_string(), "columns"), Ok(String::new()));
}

#[test]
fn document_that_is_not_an_array_has_no_settings() {
    assert_eq!(get_conf_data(r#"{"width": "10"}"#.to_string(), "width"), Ok(String::new()));
    assert_eq!(get_border_color(r#""text""#.to_string()), Ok(Vec::new()));
}

#[test]
fn invalid_json_is_an_error() {
    assert_eq!(get_conf_data("[{\"width\": ".to_string(), "width"), Err(ConfError::InvalidJson));
    assert_eq!(get_border_color("not json".to_string()), Err(ConfError::InvalidJson));
    assert!(parse_conf("").is_err());
}

#[test]
fn border_colors_in_order() {
    let colors = get_border_color(CONF.to_string()).unwrap();
    assert_eq!(colors, vec!["#112233".to_string(), "#445566".to_string(), "#778899".to_string()]);
}

#[test]
fn parsed_document_shape() {
    let root = parse_conf(r#"[{"a": "x", "n": 3, "b": [true, null]}]"#).unwrap();
    match &root {
        JsonValue::Array(entries) => {
            assert_eq!(entries.len(), 1);
            match find_field(&entries[0], "n") {
                Some(JsonValue::Number(n)) => assert_eq!(n, "3"),
                other => panic!("unexpected {:?}", other),
            }
            assert!(find_field(&entries[0], "missing").is_none());
        }
        other => panic!("unexpected {:?}", other),
    }
    assert_eq!(conf_value_of(&root, "a"), "x");
    assert!(border_colors_of(&root).is_empty());
}

#[test]
fn duplicate_key_keeps_last_value() {
    assert_eq!(get_conf_data(r#"[{"layer": "top", "layer": "overlay"}]"#.to_string(), "layer"), Ok("overlay".to_string()));
}
