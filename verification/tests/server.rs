use status_relay::config::Credentials;
use status_relay::journal::{Level, LogLine};
use status_relay::report::Info;
use status_relay::server::{
    health, malformed_body, notif, receive, route, Response, Route, Step, BAD_REQUEST,
    INTERNAL_SERVER_ERROR, OK,
};

fn washer() -> Info {
    Info::new("Washer".to_string(), "done".to_string())
}

fn credentials() -> Credentials {
    Credentials { id: "123".to_string(), token: "abc".to_string() }
}

fn errors(log: &[LogLine]) -> usize {
    log.iter().filter(|line| line.level == Level::Error).count()
}

#[test]
fn status_numbers() {
    assert_eq!(OK, 200);
    assert_eq!(BAD_REQUEST, 400);
    assert_eq!(INTERNAL_SERVER_ERROR, 500);
}

#[test]
fn get_health_is_the_liveness_check() {
    assert_eq!(route("GET", "/health"), Route::Health);
}

#[test]
fn post_root_is_the_relay() {
    assert_eq!(route("POST", "/"), Route::Relay);
}

#[test]
fn other_methods_are_not_found() {
    assert_eq!(route("POST", "/health"), Route::NotFound);
    assert_eq!(route("GET", "/"), Route::NotFound);
    assert_eq!(route("PUT", "/"), Route::NotFound);
    assert_eq!(route("HEAD", "/health"), Route::NotFound);
    assert_eq!(route("DELETE", "/health"), Route::NotFound);
    assert_eq!(route("", "/"), Route::NotFound);
}

#[test]
fn other_paths_are_not_found() {
    assert_eq!(route("GET", "/healthz"), Route::NotFound);
    assert_eq!(route("GET", "/health/"), Route::NotFound);
    assert_eq!(route("GET", "/health/deep"), Route::NotFound);
    assert_eq!(route("GET", "health"), Route::NotFound);
    assert_eq!(route("POST", ""), Route::NotFound);
    assert_eq!(route("POST", "//"), Route::NotFound);
    assert_eq!(route("POST", "/report"), Route::NotFound);
    assert_eq!(route("GET", "/missing"), Route::NotFound);
}

#[test]
fn methods_are_matched_by_case() {
    assert_eq!(route("get", "/health"), Route::NotFound);
    assert_eq!(route("Post", "/"), Route::NotFound);
    assert_eq!(route("GET", "/Health"), Route::NotFound);
}

#[test]
fn health_replies_with_success() {
    assert_eq!(
        health(),
        Response {
            status: 200,
            body: "Status: 200 OK".to_string(),
            log: vec![LogLine { level: Level::Info, text: "/health".to_string() }],
        }
    );
}

#[test]
fn health_does_not_depend_on_what_came_before() {
    let first = health();
    let relay = notif(&washer(), &credentials());
    let _ = relay.reply(false);
    let _ = malformed_body();
    let _ = relay.reply(true);
    assert_eq!(health(), first);
    assert_eq!(health().status, 200);
}

#[test]
fn malformed_body_is_a_client_error() {
    assert_eq!(malformed_body(), Response { status: 400, body: String::new(), log: vec![] });
}

#[test]
fn valid_report_after_a_malformed_body_is_relayed() {
    assert_eq!(malformed_body().status, 400);
    let relay = notif(&washer(), &credentials());
    assert_eq!(relay.reply(true).status, 200);
    assert_eq!(malformed_body().status, 400);
    assert_eq!(notif(&washer(), &credentials()).reply(true).status, 200);
}

#[test]
fn unreadable_body_is_answered_at_once() {
    assert_eq!(
        receive(None, &credentials()),
        Step::Answer(Response { status: 400, body: String::new(), log: vec![] })
    );
}

#[test]
fn readable_body_is_taken_in() {
    match receive(Some(washer()), &credentials()) {
        Step::Post(relay) => {
            assert_eq!(
                relay.log,
                vec![LogLine {
                    level: Level::Info,
                    text: "applianace: Washer status: done".to_string()
                }]
            );
            assert_eq!(relay.notification.url, "https://discord.com/api/webhooks/123/abc");
            assert_eq!(relay.notification.username, "HomeKit");
            assert!(relay.notification.content.starts_with("Washer : Status: done - "));
            assert!(relay.notification.content.ends_with("M \n@everyone"));
            assert_eq!(relay.reply(true).status, 200);
            assert_eq!(relay.reply(false).status, 500);
        }
        Step::Answer(r) => panic!("answered with {}", r.status),
    }
}

#[test]
fn unreadable_bodies_leave_later_reports_alone() {
    for _ in 0..3 {
        assert!(matches!(receive(None, &credentials()), Step::Answer(_)));
    }
    match receive(Some(washer()), &credentials()) {
        Step::Post(relay) => assert_eq!(relay.reply(true).status, 200),
        Step::Answer(r) => panic!("answered with {}", r.status),
    }
}

#[test]
fn notif_logs_the_report() {
    let relay = notif(&washer(), &credentials());
    assert_eq!(
        relay.log,
        vec![LogLine { level: Level::Info, text: "applianace: Washer status: done".to_string() }]
    );
}

#[test]
fn notif_says_what_to_post() {
    let relay = notif(&washer(), &credentials());
    assert_eq!(relay.notification.url, "https://discord.com/api/webhooks/123/abc");
    assert_eq!(relay.notification.username, "HomeKit");
    assert!(relay.notification.content.starts_with("Washer : Status: done - "));
    assert!(relay.notification.content.ends_with("M \n@everyone"));
}

#[test]
fn delivered_report_replies_with_success() {
    let relay = notif(&washer(), &credentials());
    let r = relay.reply(true);
    assert_eq!(r.status, 200);
    assert_eq!(r.body, "");
    assert_eq!(
        r.log,
        vec![
            LogLine { level: Level::Info, text: "Successfully sent webhook".to_string() },
            LogLine { level: Level::Debug, text: relay.notification.content.clone() },
        ]
    );
    assert_eq!(errors(&r.log), 0);
}

#[test]
fn failed_delivery_replies_with_a_server_error() {
    let relay = notif(&washer(), &credentials());
    let r = relay.reply(false);
    assert_eq!(r.status, 500);
    assert_eq!(r.body, "");
    assert_eq!(
        r.log,
        vec![LogLine {
            level: Level::Error,
            text: "Failed to send webhook notification".to_string()
        }]
    );
    assert_eq!(errors(&r.log), 1);
}

#[test]
fn reports_are_relayed_one_by_one() {
    let first = notif(&washer(), &credentials());
    let other = Info::new("Dryer".to_string(), "running".to_string());
    let second = notif(&other, &credentials());
    let late = first.reply(false);
    let early = second.reply(true);
    assert_eq!(late.status, 500);
    assert_eq!(early.status, 200);
    assert!(second.notification.content.starts_with("Dryer : Status: running - "));
    assert!(first.notification.content.starts_with("Washer : Status: done - "));
    assert_eq!(early.log[1].text, second.notification.content);
}

#[test]
fn report_of_empty_fields_is_relayed() {
    let relay = notif(&Info::new(String::new(), String::new()), &credentials());
    assert_eq!(relay.log[0].text, "applianace:  status: ");
    assert!(relay.notification.content.starts_with(" : Status:  - "));
    assert_eq!(relay.reply(true).status, 200);
}
