use cerebro_core::router::{
    channel_name, invalid_line_payload, route_line, Channel, RouterAction,
};

#[test]
fn known_tags_route_to_their_channels() {
    let cases = [
        ("chat_token", Channel::ChatToken),
        ("done", Channel::ChatDone),
        ("error", Channel::ChatError),
        ("download_started", Channel::DownloadStarted),
        ("download_progress", Channel::DownloadProgress),
        ("download_done", Channel::DownloadDone),
        ("download_error", Channel::DownloadError),
    ];
    for (tag, channel) in cases {
        let line = format!("{{\"type\":\"{}\",\"generation_id\":\"g\"}}", tag);
        assert_eq!(route_line(&line), RouterAction::Publish(channel));
    }
}

#[test]
fn control_and_unknown_tags_are_dropped() {
    assert_eq!(route_line("{\"type\":\"ready\"}"), RouterAction::Ignore);
    assert_eq!(route_line("{\"type\":\"shutdown\"}"), RouterAction::Ignore);
    assert_eq!(route_line("{\"type\":\"mystery\"}"), RouterAction::Ignore);
}

#[test]
fn missing_or_non_string_type_is_dropped() {
    assert_eq!(route_line("{\"generation_id\":\"g\"}"), RouterAction::Ignore);
    assert_eq!(route_line("{\"type\":3}"), RouterAction::Ignore);
    assert_eq!(route_line("[1,2,3]"), RouterAction::Ignore);
    assert_eq!(route_line("null"), RouterAction::Ignore);
}

#[test]
fn malformed_line_yields_one_synthetic_error_and_loop_continues() {
    assert_eq!(route_line("{not json"), RouterAction::InvalidLine);
    assert_eq!(route_line(""), RouterAction::InvalidLine);
    // A later well-formed line is still classified normally.
    assert_eq!(
        route_line("{\"type\":\"chat_token\",\"generation_id\":\"g\",\"token\":\"t\"}"),
        RouterAction::Publish(Channel::ChatToken)
    );
}

#[test]
fn channel_names_match_the_event_bus_surface() {
    assert_eq!(channel_name(Channel::ChatToken), "cerebro:chat_token");
    assert_eq!(channel_name(Channel::ChatDone), "cerebro:chat_done");
    assert_eq!(channel_name(Channel::ChatError), "cerebro:chat_error");
    assert_eq!(channel_name(Channel::DownloadStarted), "cerebro:model_download_started");
    assert_eq!(channel_name(Channel::DownloadProgress), "cerebro:model_download_progress");
    assert_eq!(channel_name(Channel::DownloadDone), "cerebro:model_download_done");
    assert_eq!(channel_name(Channel::DownloadError), "cerebro:model_download_error");
}

#[test]
fn synthetic_payload_has_null_id_and_fixed_message() {
    let payload = invalid_line_payload();
    let v: serde_json::Value = serde_json::from_str(&payload).unwrap();
    assert!(v.get("generation_id").unwrap().is_null());
    assert_eq!(v.get("message").unwrap().as_str(), Some("Invalid runner JSON"));
}
