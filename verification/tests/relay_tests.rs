use email_sender::auth::{auth_header_value, user_agent};
use email_sender::relay::{
    build_payload, from, plan_send, relay_response, url, EmailRequest, Outcome,
};

#[test]
fn from_prefixes_domain() {
    assert_eq!(from("example.com"), "noreply@example.com");
    assert_eq!(from(""), "noreply@");
}

#[test]
fn url_targets_domain_messages() {
    assert_eq!(
        url("example.com"),
        "https://api.mailgun.net/v3/example.com/messages"
    );
}

#[test]
fn payload_fields_are_verbatim() {
    let request = EmailRequest {
        to: String::from("a@b.com"),
        subject: String::from("Hi"),
        text: String::from("Hello"),
    };
    let payload = build_payload("example.com", &request);
    assert_eq!(payload.from, "noreply@example.com");
    assert_eq!(payload.to, "a@b.com");
    assert_eq!(payload.subject, "Hi");
    assert_eq!(payload.text, "Hello");
}

#[test]
fn payload_is_not_trimmed_or_encoded() {
    let request = EmailRequest {
        to: String::from("  spaced@b.com "),
        subject: String::from("a&b=c"),
        text: String::from("line one\nline two"),
    };
    let payload = build_payload("d.org", &request);
    assert_eq!(payload.from, "noreply@d.org");
    assert_eq!(payload.to, "  spaced@b.com ");
    assert_eq!(payload.subject, "a&b=c");
    assert_eq!(payload.text, "line one\nline two");
}

#[test]
fn form_fields_carry_the_payload_in_order() {
    let request = EmailRequest {
        to: String::from("a@b.com"),
        subject: String::from("Hi"),
        text: String::from("Hello"),
    };
    let payload = build_payload("example.com", &request);
    let fields = payload.form_fields();
    assert_eq!(
        fields,
        vec![
            (String::from("from"), String::from("noreply@example.com")),
            (String::from("to"), String::from("a@b.com")),
            (String::from("subject"), String::from("Hi")),
            (String::from("text"), String::from("Hello")),
        ]
    );
}

#[test]
fn malformed_body_produces_no_outbound_call() {
    assert!(plan_send("example.com", None).is_none());
}

#[test]
fn well_formed_body_produces_the_outbound_call() {
    let request = EmailRequest {
        to: String::from("a@b.com"),
        subject: String::from("Hi"),
        text: String::from("Hello"),
    };
    let out = plan_send("example.com", Some(request)).unwrap();
    assert_eq!(out.url, "https://api.mailgun.net/v3/example.com/messages");
    assert_eq!(out.payload.from, "noreply@example.com");
    assert_eq!(out.payload.to, "a@b.com");
    assert_eq!(out.payload.subject, "Hi");
    assert_eq!(out.payload.text, "Hello");
}

#[test]
fn forwarded_is_ok_whatever_upstream_said() {
    for status in [200u16, 400, 500] {
        let response = relay_response(&Outcome::Forwarded(status));
        assert_eq!(response.status_code, 200);
        assert_eq!(response.body, "{\"status\":\"ok\"}");
    }
}

#[test]
fn transport_failure_is_a_server_error() {
    let response = relay_response(&Outcome::TransportFailed);
    assert_eq!(response.status_code, 500);
    assert!(response.body.is_empty());
    assert_ne!(response.body, "{\"status\":\"ok\"}");
}

#[test]
fn auth_header_is_basic_base64() {
    let header = auth_header_value("bob", "xyz");
    assert_eq!(header, "Basic Ym9iOnh5eg==");
    assert_eq!(header, format!("Basic {}", base64::encode("bob:xyz")));
}

#[test]
fn auth_header_empty_credentials() {
    assert_eq!(
        auth_header_value("", ""),
        format!("Basic {}", base64::encode(":"))
    );
}

#[test]
fn user_agent_is_fixed() {
    assert_eq!(user_agent(), "email-sender");
}

#[test]
fn concrete_relay_scenario() {
    let header = auth_header_value("bob", "xyz");
    assert_eq!(header, format!("Basic {}", base64::encode("bob:xyz")));
    let request = EmailRequest {
        to: String::from("a@b.com"),
        subject: String::from("Hi"),
        text: String::from("Hello"),
    };
    let out = plan_send("example.com", Some(request)).unwrap();
    assert_eq!(out.url, "https://api.mailgun.net/v3/example.com/messages");
    assert_eq!(out.payload.from, "noreply@example.com");
    assert_eq!(out.payload.to, "a@b.com");
    assert_eq!(out.payload.subject, "Hi");
    assert_eq!(out.payload.text, "Hello");
}
