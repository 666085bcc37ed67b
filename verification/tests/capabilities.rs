use driver_lifecycle::capabilities::create_headless_capabilities;

#[test]
fn headless_descriptor_has_fixed_flag_set() {
    let d = create_headless_capabilities();
    assert_eq!(d.options_key, "goog:chromeOptions");
    assert_eq!(
        d.args,
        vec![
            "--headless".to_string(),
            "--disable-gpu".to_string(),
            "--no-sandbox".to_string(),
            "--disable-dev-shm-usage".to_string(),
        ]
    );
}

#[test]
fn headless_descriptor_never_varies() {
    let a = create_headless_capabilities();
    let b = create_headless_capabilities();
    assert_eq!(a.options_key, b.options_key);
    assert_eq!(a.args, b.args);
}
