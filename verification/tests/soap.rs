//! Envelopes, faults and tokens.

use base64::engine::general_purpose::STANDARD;
use base64::Engine;
use sha1::{Digest, Sha1};

use neolink::onvif::soap::{
    constant_time_eq, fault_envelope, is_unauth_allowed, parse_envelope, verify_token,
    wrap_envelope, xml_escape, Credential, EnvelopeError, FaultCode, UserTable, UsernameToken,
};
use neolink::time::Timestamp;

fn now() -> Timestamp {
    let now = chrono::Utc::now();
    Timestamp { secs: now.timestamp(), nanos: now.timestamp_subsec_nanos() }
}

#[test]
fn parse_simple_envelope() {
    let xml = r#"<?xml version="1.0"?>
<env:Envelope xmlns:env="http://www.w3.org/2003/05/soap-envelope">
  <env:Header></env:Header>
  <env:Body>
<tds:GetDeviceInformation xmlns:tds="http://www.onvif.org/ver10/device/wsdl"/>
  </env:Body>
</env:Envelope>"#;
    let parsed = parse_envelope(xml).unwrap();
    assert_eq!(parsed.action, "GetDeviceInformation");
    assert!(parsed.auth.is_none());
}

#[test]
fn parse_with_username_plain() {
    let xml = r#"<env:Envelope xmlns:env="http://www.w3.org/2003/05/soap-envelope">
  <env:Header>
<wsse:Security xmlns:wsse="http://docs.oasis-open.org/wss/2004/01/oasis-200401-wss-wssecurity-secext-1.0.xsd">
  <wsse:UsernameToken>
    <wsse:Username>me</wsse:Username>
    <wsse:Password Type="http://docs.oasis-open.org/wss/2004/01/oasis-200401-wss-username-token-profile-1.0#PasswordText">mepass</wsse:Password>
  </wsse:UsernameToken>
</wsse:Security>
  </env:Header>
  <env:Body>
<tds:GetDeviceInformation xmlns:tds="http://www.onvif.org/ver10/device/wsdl"/>
  </env:Body>
</env:Envelope>"#;
    let parsed = parse_envelope(xml).unwrap();
    assert_eq!(parsed.action, "GetDeviceInformation");
    let tok = parsed.auth.expect("token");
    assert_eq!(tok.username, "me");
    match tok.credential {
        Credential::Plain(p) => assert_eq!(p, "mepass"),
        _ => panic!("expected plain"),
    }
}

#[test]
fn fault_round_trip() {
    let f = fault_envelope(FaultCode::NotAuthorized, "Auth required", None);
    assert!(f.contains("ter:NotAuthorized"));
    assert!(f.contains("env:Sender"));
}

#[test]
fn body_xml_extracted() {
    let xml = r#"<env:Envelope xmlns:env="http://www.w3.org/2003/05/soap-envelope">
  <env:Body>
<trt:GetProfiles xmlns:trt="http://www.onvif.org/ver10/media/wsdl">
  <trt:Token>foo</trt:Token>
</trt:GetProfiles>
  </env:Body>
</env:Envelope>"#;
    let parsed = parse_envelope(xml).unwrap();
    assert_eq!(parsed.action, "GetProfiles");
    assert!(parsed.body_xml.contains("GetProfiles"));
    assert!(parsed.body_xml.contains("foo"));
}

#[test]
fn empty_body_element() {
    let xml = r#"<env:Envelope xmlns:env="http://www.w3.org/2003/05/soap-envelope">
  <env:Body>
<trt:GetProfiles xmlns:trt="http://www.onvif.org/ver10/media/wsdl"/>
  </env:Body>
</env:Envelope>"#;
    let parsed = parse_envelope(xml).unwrap();
    assert_eq!(parsed.action, "GetProfiles");
}

/// The digest SHA1 must use the verbatim `Created` text the
/// client sent. Real clients (python-onvif, gsoap, ONVIF Device Manager,
/// Frigate) commonly omit fractional seconds: `2026-05-23T12:34:56Z` —
/// so any reformatting of the timestamp breaks digest verification.
#[test]
fn digest_uses_verbatim_created_text() {
    let password = "mepass";
    let nonce = b"some-random-nonce";
    let created_text = chrono::Utc::now().format("%Y-%m-%dT%H:%M:%SZ").to_string();
    let nonce_b64 = STANDARD.encode(nonce);

    let mut hasher = Sha1::new();
    hasher.update(nonce);
    hasher.update(created_text.as_bytes());
    hasher.update(password.as_bytes());
    let digest = STANDARD.encode(hasher.finalize());

    let xml = format!(
        r#"<env:Envelope xmlns:env="http://www.w3.org/2003/05/soap-envelope">
  <env:Header>
<wsse:Security xmlns:wsse="http://docs.oasis-open.org/wss/2004/01/oasis-200401-wss-wssecurity-secext-1.0.xsd">
  <wsse:UsernameToken>
    <wsse:Username>me</wsse:Username>
    <wsse:Password Type="http://docs.oasis-open.org/wss/2004/01/oasis-200401-wss-username-token-profile-1.0#PasswordDigest">{digest}</wsse:Password>
    <wsse:Nonce>{nonce_b64}</wsse:Nonce>
    <wsu:Created xmlns:wsu="http://docs.oasis-open.org/wss/2004/01/oasis-200401-wss-wssecurity-utility-1.0.xsd">{created_text}</wsu:Created>
  </wsse:UsernameToken>
</wsse:Security>
  </env:Header>
  <env:Body><tds:GetDeviceInformation xmlns:tds="http://www.onvif.org/ver10/device/wsdl"/></env:Body>
</env:Envelope>"#
    );
    let parsed = parse_envelope(&xml).unwrap();
    let tok = parsed.auth.expect("token");
    let mut users = UserTable::new();
    users.insert("me".to_string(), password.to_string());
    assert!(verify_token(&tok, &users, now()), "digest should verify");
}

#[test]
fn digest_rejects_wrong_password() {
    let nonce = b"some-random-nonce";
    let created_text = chrono::Utc::now().format("%Y-%m-%dT%H:%M:%SZ").to_string();
    let nonce_b64 = STANDARD.encode(nonce);
    let mut hasher = Sha1::new();
    hasher.update(nonce);
    hasher.update(created_text.as_bytes());
    hasher.update(b"wrongpass");
    let digest = STANDARD.encode(hasher.finalize());

    let xml = format!(
        r#"<env:Envelope xmlns:env="http://www.w3.org/2003/05/soap-envelope">
  <env:Header><wsse:Security xmlns:wsse="x"><wsse:UsernameToken>
<wsse:Username>me</wsse:Username>
<wsse:Password Type="http://docs.oasis-open.org/wss/2004/01/oasis-200401-wss-username-token-profile-1.0#PasswordDigest">{digest}</wsse:Password>
<wsse:Nonce>{nonce_b64}</wsse:Nonce>
<wsu:Created xmlns:wsu="y">{created_text}</wsu:Created>
  </wsse:UsernameToken></wsse:Security></env:Header>
  <env:Body><tds:Foo xmlns:tds="x"/></env:Body>
</env:Envelope>"#
    );
    let parsed = parse_envelope(&xml).unwrap();
    let tok = parsed.auth.expect("token");
    let mut users = UserTable::new();
    users.insert("me".to_string(), "mepass".to_string());
    assert!(!verify_token(&tok, &users, now()), "digest should reject bad pw");
}

fn token(created: &str, password: &str) -> UsernameToken {
    let mut hasher = Sha1::new();
    hasher.update(b"nonce");
    hasher.update(created.as_bytes());
    hasher.update(password.as_bytes());
    let xml = format!(
        r#"<Envelope><Header><Security><UsernameToken><Username>me</Username>
<Password Type="x#PasswordDigest">{}</Password><Nonce>{}</Nonce><Created>{created}</Created>
</UsernameToken></Security></Header><Body><Foo/></Body></Envelope>"#,
        STANDARD.encode(hasher.finalize()),
        STANDARD.encode(b"nonce"),
    );
    parse_envelope(&xml).unwrap().auth.expect("token")
}

/// A digest is good for a while, and only for a while.
#[test]
fn a_stale_digest_is_refused() {
    let mut users = UserTable::new();
    users.insert("me".to_string(), "mepass".to_string());
    // 2026-08-09 07:30:05 UTC.
    let made = Timestamp { secs: 1_786_260_605, nanos: 0 };
    for (text, fine) in [
        ("2026-08-09T07:30:05Z", true),
        ("2026-08-09T07:30:05.250Z", true),
        ("2026-08-09T09:30:05+02:00", true),
        ("2026-08-09T07:20:05Z", false),
        ("2026-08-09T07:40:05Z", false),
        ("yesterday", false),
    ] {
        assert_eq!(verify_token(&token(text, "mepass"), &users, made), fine, "{text}");
    }
    assert!(!verify_token(&token("2026-08-09T07:30:05Z", "mepass"), &UserTable::new(), made));
}

#[test]
fn broken_documents_are_refused() {
    match parse_envelope("<Envelope><Body><Foo></Bar></Body></Envelope>") {
        Err(EnvelopeError::BadXml { .. }) => {}
        other => panic!("not refused: {other:?}"),
    }
    let nothing = parse_envelope("<Envelope><Body></Body></Envelope>").unwrap_err();
    assert!(matches!(nothing, EnvelopeError::NoOperation));
    assert!(!nothing.message().is_empty());
}

#[test]
fn text_cannot_break_out() {
    assert_eq!(xml_escape("<a href=\"x\">&'</a>"), "&lt;a href=&quot;x&quot;&gt;&amp;&apos;&lt;/a&gt;");
    assert_ne!(xml_escape("&lt;"), xml_escape("<"));
    assert_ne!(xml_escape("&amp;"), xml_escape("&"));
    let hostile = "</env:Reason><x/>";
    let fault = fault_envelope(FaultCode::Other, hostile, Some(hostile));
    assert!(!fault.contains("<x/>"));
    assert!(wrap_envelope("<a/>", "").contains("<a/>"));
}

#[test]
fn users_have_one_password_each() {
    let mut users = UserTable::new();
    users.insert("me".to_string(), "one".to_string());
    users.insert("me".to_string(), "two".to_string());
    assert_eq!(users.get("me"), Some("two"));
    assert_eq!(users.get("you"), None);
    assert_eq!(users.entries.len(), 1);
}

#[test]
fn bytes_are_compared_whole() {
    assert!(constant_time_eq(b"abc", b"abc"));
    assert!(!constant_time_eq(b"abc", b"abd"));
    assert!(!constant_time_eq(b"abc", b"ab"));
    assert!(constant_time_eq(b"", b""));
}

#[test]
fn little_is_open_to_everyone() {
    assert!(is_unauth_allowed("GetSystemDateAndTime"));
    assert!(!is_unauth_allowed("GetProfiles"));
}

#[test]
fn the_operation_is_the_first_child_of_the_body() {
    let first = |body: &str| {
        let xml = format!("<e:Envelope><e:Body>{body}</e:Body></e:Envelope>");
        let parsed = parse_envelope(&xml).unwrap();
        (parsed.action, parsed.body_xml.to_string())
    };
    let expected = ("First".to_string(), "<t:First/>".to_string());
    assert_eq!(first("<t:First/><t:Second/>"), expected);
    assert_eq!(first("<t:First/><t:Second><t:Third/></t:Second>"), expected);
    assert_eq!(
        first("<t:First>1</t:First><t:Second>2</t:Second>"),
        ("First".to_string(), "<t:First>1</t:First>".to_string())
    );
    assert_eq!(
        first("<t:First><t:Inner/></t:First><t:Second/>"),
        ("First".to_string(), "<t:First><t:Inner/></t:First>".to_string())
    );
}

#[test]
fn credentials_come_from_the_header_only() {
    let token = "<Header><Security><UsernameToken><Username>me</Username>\
<Password>pw</Password></UsernameToken></Security></Header>";
    let inside = format!("<Envelope><Body><A>{token}</A></Body></Envelope>");
    assert!(parse_envelope(&inside).unwrap().auth.is_none());
    let behind = format!("<Envelope><Body><A></A>{token}</Body></Envelope>");
    assert!(parse_envelope(&behind).unwrap().auth.is_none());
    let ahead = format!("<Envelope>{token}<Body><A></A></Body></Envelope>");
    assert_eq!(parse_envelope(&ahead).unwrap().auth.unwrap().username, "me");
}

#[test]
fn a_wrapped_operation_comes_back() {
    for (name, body) in [
        ("Ping", "<t:Ping/>"),
        ("Grüße", "<t:Grüße a=\"ä\">öß</t:Grüße>"),
        (
            "Set",
            "<Set><Security><UsernameToken><Username>me</Username><Password>pw</Password>\
</UsernameToken></Security><Set/></Set>",
        ),
    ] {
        for ns in ["", "xmlns:t=\"http://example.com\""] {
            let xml = wrap_envelope(body, ns);
            let parsed = parse_envelope(&xml).unwrap();
            assert_eq!(parsed.action, name);
            assert_eq!(parsed.body_xml, body);
            assert!(parsed.auth.is_none());
        }
    }
}
