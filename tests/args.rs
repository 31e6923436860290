use favgen::args::{default_output, validate_args, Args, Platform};

#[test]
fn test_assign_default_platforms() {
    let args = Args {
        source: "samples/sample.svg".to_string(),
        platforms: Option::None,
        output: Option::from("here".to_string()),
        template: false,
    };
    let result = validate_args(args, true, "/work");

    assert_eq!(result.is_err(), false);
    assert_eq!(
        result.unwrap().platforms.unwrap(),
        Vec::from([
            Platform::Web,
            Platform::Modern,
            Platform::Android,
            Platform::Apple,
        ])
    );
}

#[test]
fn test_assign_default_output() {
    let args = Args {
        source: "samples/sample.svg".to_string(),
        platforms: Option::from(Vec::from([Platform::Web, Platform::Modern])),
        output: Option::None,
        template: false,
    };
    let result = validate_args(args, true, "/home/user/site");

    assert_eq!(result.is_err(), false);
    let args = result.unwrap();
    assert_eq!(args.output.unwrap(), "/home/user/site/output");
    assert_eq!(args.platforms.unwrap(), vec![Platform::Web, Platform::Modern]);
}

#[test]
fn missing_source_is_rejected_without_defaults() {
    let args = Args {
        source: "nowhere.png".to_string(),
        platforms: None,
        output: None,
        template: true,
    };
    let result = validate_args(args, false, "/work");
    assert_eq!(result.err().unwrap(), "Source file does not exists");
}

#[test]
fn explicit_options_are_kept() {
    let args = Args {
        source: "logo.svg".to_string(),
        platforms: Some(vec![Platform::Apple]),
        output: Some("dist".to_string()),
        template: true,
    };
    let n = validate_args(args, true, "/work").unwrap();
    assert_eq!(n.source, "logo.svg");
    assert_eq!(n.platforms.unwrap(), vec![Platform::Apple]);
    assert_eq!(n.output.unwrap(), "dist");
    assert!(n.template);
}

#[test]
fn normalizing_twice_changes_nothing() {
    let args = Args {
        source: "logo.svg".to_string(),
        platforms: None,
        output: None,
        template: false,
    };
    let once = validate_args(args, true, "/a").unwrap();
    let once_platforms = once.platforms.clone();
    let once_output = once.output.clone();
    let twice = validate_args(once, true, "/b").unwrap();
    assert_eq!(twice.platforms, once_platforms);
    assert_eq!(twice.output, once_output);
    assert_eq!(twice.output.unwrap(), "/a/output");
}

#[test]
fn explicit_empty_platform_list_is_kept() {
    let args = Args {
        source: "logo.svg".to_string(),
        platforms: Some(Vec::new()),
        output: Some("o".to_string()),
        template: false,
    };
    let n = validate_args(args, true, "/work").unwrap();
    assert_eq!(n.platforms.unwrap(), Vec::<Platform>::new());
}

#[test]
fn default_output_adds_a_separator_only_when_needed() {
    assert_eq!(default_output("/work"), "/work/output");
    assert_eq!(default_output("/"), "/output");
    assert_eq!(default_output("/work/"), "/work/output");
    assert_eq!(default_output(""), "output");
}
