use tray_shell::launch::{
    get_page_content, plan_launch, window_created, AuxWindowConfig, LaunchError, AUX_WINDOW,
    CONTENT_EVENT, RECEIVED_EVENT, USER_AGENT,
};

#[test]
fn event_and_window_names() {
    assert_eq!(AUX_WINDOW, "hidden-webview");
    assert_eq!(CONTENT_EVENT, "page-content");
    assert_eq!(RECEIVED_EVENT, "page-content-received");
    assert_eq!(
        USER_AGENT,
        "Mozilla/5.0 (Macintosh; Intel Mac OS X 10_15_7) AppleWebKit/537.36 (KHTML, like Gecko) Chrome/120.0.0.0 Safari/537.36"
    );
}

#[test]
fn a_good_address_plans_the_hidden_window() {
    let launch = get_page_content("https://example.com/a?b=c").expect("the address parses");
    assert_eq!(
        launch.window,
        AuxWindowConfig {
            label: "hidden-webview",
            url: "https://example.com/a?b=c".to_string(),
            visible: false,
            fullscreen: true,
            decorations: false,
            resizable: false,
            skip_taskbar: true,
            user_agent: USER_AGENT,
        }
    );
    assert_eq!(launch.settle_ms, 2000);
    assert_eq!(launch.extraction.url(), "https://example.com/a?b=c");
    assert_eq!(launch.extraction.attempts(), 0);
}

#[test]
fn the_window_loads_the_address_as_the_parser_writes_it() {
    let launch = get_page_content("HTTPS://Example.COM").expect("the address parses");
    assert_eq!(launch.window.url, "https://example.com/");
    assert_eq!(launch.extraction.url(), "HTTPS://Example.COM");
}

#[test]
fn a_malformed_address_plans_nothing() {
    let refused = get_page_content("not a url").expect_err("the text is no address");
    assert_eq!(refused, LaunchError::UrlParse("relative URL without a base".to_string()));
    assert_eq!(refused.message(), "URL解析失败: relative URL without a base");
}

#[test]
fn each_parse_error_carries_the_parser_s_reason() {
    for (text, reason) in [
        ("", "relative URL without a base"),
        ("/only/a/path", "relative URL without a base"),
        ("https://", "empty host"),
        ("https://example.com:99999/", "invalid port number"),
        ("https://[::1/", "invalid IPv6 address"),
    ] {
        let refused = get_page_content(text).expect_err(text);
        assert_eq!(refused, LaunchError::UrlParse(reason.to_string()));
        assert_eq!(refused.message(), format!("URL解析失败: {}", reason));
    }
}

#[test]
fn plan_launch_follows_the_parser_s_verdict() {
    let launch = plan_launch(Ok("https://example.com/".to_string()), "https://example.com")
        .expect("a parsed address is planned");
    assert_eq!(launch.window.url, "https://example.com/");
    assert_eq!(launch.window.label, "hidden-webview");
    assert!(!launch.window.visible);
    assert_eq!(launch.extraction.url(), "https://example.com");

    let refused = plan_launch(Err("empty host".to_string()), "https://");
    assert_eq!(refused, Err(LaunchError::UrlParse("empty host".to_string())));
}

#[test]
fn window_creation_failure_is_reported_with_its_reason() {
    assert_eq!(window_created(Ok(())), Ok(()));
    let refused = window_created(Err("a webview with label `hidden-webview` already exists".to_string()))
        .expect_err("the window was not created");
    assert_eq!(
        refused,
        LaunchError::WindowCreation(
            "a webview with label `hidden-webview` already exists".to_string()
        )
    );
    assert_eq!(
        refused.message(),
        "创建webview失败: a webview with label `hidden-webview` already exists"
    );
}
