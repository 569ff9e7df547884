//! SOAP envelopes and WS-UsernameToken authentication.
//!
//! ONVIF uses SOAP 1.2. Outgoing envelopes are built by concatenation, so that
//! the namespace prefixes are the ones that clients expect. Incoming envelopes
//! are scanned for the first child element of `Body`, whose local name is the
//! operation, and for a UsernameToken in the header.

use vstd::prelude::*;
use vstd::string::*;
use crate::bytes_util;
use crate::codec;
use crate::text;
use crate::time;
use crate::time::Timestamp;
use crate::xml;
use crate::xml::{XmlEvent, XmlItem, XmlTag};

verus! {

/// Result of parsing an incoming SOAP request.
#[derive(Debug)]
pub struct ParsedRequest<'a> {
    /// Local name of the body's first child element (the operation).
    pub action: String,
    /// Optional UsernameToken extracted from the WS-Security header.
    pub auth: Option<UsernameToken>,
    /// The raw XML of the body element (the input parameters).
    pub body_xml: &'a str,
}

/// How a client says who it is.
#[derive(Debug)]
pub struct UsernameToken {
    pub username: String,
    /// Either the plain password or the SHA1 digest.
    pub credential: Credential,
    /// The `Created` timestamp, for the freshness check on digest tokens.
    pub created: Option<Timestamp>,
    /// The verbatim text of `Created`, white space around it aside. This goes
    /// into the digest, not a reformatted version, because the client's digest
    /// used its own.
    pub created_text: Option<String>,
    /// The bytes of the `Nonce`.
    pub nonce: Option<Vec<u8>>,
}

/// A password, or the digest of one.
#[derive(Debug)]
pub enum Credential {
    Plain(String),
    Digest(String),
}

/// A credential as a sequence, and whether it is a digest.
pub open spec fn credential_view(c: Credential) -> (Seq<char>, bool) {
    match c {
        Credential::Plain(p) => (p@, false),
        Credential::Digest(d) => (d@, true),
    }
}

/// A token, its texts as sequences.
pub struct TokenView {
    pub username: Seq<char>,
    pub credential: (Seq<char>, bool),
    pub created: Option<Timestamp>,
    pub created_text: Option<Seq<char>>,
    pub nonce: Option<Seq<u8>>,
}

/// The bytes that an optional list holds.
pub open spec fn bytes_view(bytes: Option<Vec<u8>>) -> Option<Seq<u8>> {
    match bytes {
        Some(b) => Some(b@),
        None => None,
    }
}

impl View for UsernameToken {
    type V = TokenView;

    open spec fn view(&self) -> TokenView {
        TokenView {
            username: self.username@,
            credential: credential_view(self.credential),
            created: self.created,
            created_text: text::opt_view(self.created_text),
            nonce: bytes_view(self.nonce),
        }
    }
}

/// The field of a token whose text is being read.
#[derive(Clone, Copy, PartialEq, Eq, Structural, Debug)]
pub enum Field {
    Username,
    PasswordText,
    PasswordDigest,
    Nonce,
    Created,
}

/// What has been seen of an envelope.
pub struct ScanView {
    pub in_header: bool,
    pub in_security: bool,
    pub in_token: bool,
    /// The field that is open, if one is.
    pub field: Option<Field>,
    /// The fields of the token so far.
    pub user: Option<Seq<char>>,
    pub password: Option<(Seq<char>, bool)>,
    pub created: Option<Timestamp>,
    pub created_text: Option<Seq<char>>,
    pub nonce: Option<Seq<u8>>,
    /// The last token that was complete.
    pub token: Option<TokenView>,
    /// Whether the body is open.
    pub in_body: bool,
    /// How many elements inside the body are open.
    pub depth: nat,
    /// Where the operation starts.
    pub start: Option<nat>,
    pub action: Option<Seq<char>>,
    /// Where the operation starts and ends.
    pub span: Option<(nat, nat)>,
}

/// Nothing seen yet.
pub open spec fn scan_start() -> ScanView {
    ScanView {
        in_header: false,
        in_security: false,
        in_token: false,
        field: None,
        user: None,
        password: None,
        created: None,
        created_text: None,
        nonce: None,
        token: None,
        in_body: false,
        depth: 0,
        start: None,
        action: None,
        span: None,
    }
}

/// Whether attributes mark a password as a digest.
pub open spec fn marks_digest(attributes: Seq<(Seq<u8>, Option<Seq<char>>)>) -> bool {
    exists|i: int|
        0 <= i < attributes.len() && xml::local_part((#[trigger] attributes[i]).0) == "Type"@
            && text::has(xml::text_of_event(attributes[i].1), "#PasswordDigest"@)
}

/// A tag opens outside the body: the header, the parts of a token inside it, or
/// the body.
pub open spec fn open_outside(s: ScanView, name: Seq<char>, digest: bool) -> ScanView {
    if name == "Header"@ {
        ScanView { in_header: true, ..s }
    } else if name == "Security"@ && s.in_header {
        ScanView { in_security: true, ..s }
    } else if name == "UsernameToken"@ && s.in_security {
        ScanView { in_token: true, ..s }
    } else if name == "Username"@ && s.in_token {
        ScanView { field: Some(Field::Username), ..s }
    } else if name == "Password"@ && s.in_token {
        ScanView {
            field: Some(
                if digest {
                    Field::PasswordDigest
                } else {
                    Field::PasswordText
                },
            ),
            ..s
        }
    } else if name == "Nonce"@ && s.in_token {
        ScanView { field: Some(Field::Nonce), ..s }
    } else if name == "Created"@ && s.in_token {
        ScanView { field: Some(Field::Created), ..s }
    } else if name == "Body"@ {
        ScanView { in_body: true, ..s }
    } else {
        s
    }
}

/// A tag opens inside the body: the first is the operation.
pub open spec fn open_inside(s: ScanView, name: Seq<char>, from: nat) -> ScanView {
    if s.action is None {
        ScanView { action: Some(name), start: Some(from), depth: 1, ..s }
    } else {
        ScanView { depth: s.depth + 1, ..s }
    }
}

/// A tag closes inside the body: the operation ends with its own tag, and the
/// body with its own.
pub open spec fn close_inside(s: ScanView, to: nat) -> ScanView {
    if s.depth > 1 {
        ScanView { depth: (s.depth - 1) as nat, ..s }
    } else if s.depth == 1 {
        ScanView {
            depth: 0,
            span: match (s.span, s.start) {
                (None, Some(start)) => Some((start, to)),
                _ => s.span,
            },
            ..s
        }
    } else {
        ScanView { in_body: false, ..s }
    }
}

/// A tag closes outside the body. A token that has a user and a password is
/// complete with its own closing tag.
pub open spec fn close_outside(s: ScanView, name: Seq<char>) -> ScanView {
    if name == "Header"@ {
        ScanView { in_header: false, ..s }
    } else if name == "Security"@ {
        ScanView { in_security: false, ..s }
    } else if name == "UsernameToken"@ {
        match (s.user, s.password) {
            (Some(username), Some(credential)) => ScanView {
                in_token: false,
                token: Some(
                    TokenView {
                        username,
                        credential,
                        created: s.created,
                        created_text: s.created_text,
                        nonce: s.nonce,
                    },
                ),
                user: None,
                password: None,
                created: None,
                created_text: None,
                nonce: None,
                ..s
            },
            _ => ScanView { in_token: false, user: None, password: None, ..s },
        }
    } else if name == "Username"@ || name == "Password"@ || name == "Nonce"@ || name
        == "Created"@ {
        ScanView { field: None, ..s }
    } else {
        s
    }
}

/// Text goes to the field that is open.
pub open spec fn take_text(s: ScanView, said: Seq<char>) -> ScanView {
    match s.field {
        Some(Field::Username) => ScanView { user: Some(said), ..s },
        Some(Field::PasswordText) => ScanView { password: Some((said, false)), ..s },
        Some(Field::PasswordDigest) => ScanView { password: Some((said, true)), ..s },
        Some(Field::Nonce) => ScanView {
            nonce: codec::base64_bytes(vstd::utf8::encode_utf8(said)),
            ..s
        },
        Some(Field::Created) => ScanView {
            created: time::rfc3339_time(text::trimmed(said)),
            created_text: Some(text::trimmed(said)),
            ..s
        },
        None => s,
    }
}

/// What has been seen of an envelope after one more event.
pub open spec fn scan_step(s: ScanView, item: xml::XmlItemView) -> ScanView {
    match item.event {
        xml::XmlView::Start(content, name_len) => {
            let name = xml::local_part(xml::tag_name(content, name_len));
            if s.in_body {
                open_inside(s, name, item.from)
            } else {
                open_outside(s, name, marks_digest(xml::attributes_of(content, name_len)))
            }
        },
        xml::XmlView::End(qname) => if s.in_body {
            close_inside(s, item.to)
        } else {
            close_outside(s, xml::local_part(qname))
        },
        xml::XmlView::Text(t) => take_text(s, xml::text_of_event(t)),
        xml::XmlView::Empty(content, name_len) => if s.in_body && s.action is None {
            ScanView {
                action: Some(xml::local_part(xml::tag_name(content, name_len))),
                span: Some((item.from, item.to)),
                ..s
            }
        } else {
            s
        },
        _ => s,
    }
}

/// What has been seen of an envelope after a run of events.
pub open spec fn scan(items: Seq<xml::XmlItemView>) -> ScanView
    decreases items.len(),
{
    if items.len() == 0 {
        scan_start()
    } else {
        scan_step(scan(items.drop_last()), items.last())
    }
}

/// The part of a text between two byte positions, or nothing where they are not
/// positions of characters.
pub open spec fn span_text(document: Seq<char>, from: nat, to: nat) -> Seq<char> {
    let bytes = vstd::utf8::encode_utf8(document);
    if from <= to <= bytes.len() && vstd::utf8::is_char_boundary(bytes, from as int)
        && vstd::utf8::is_char_boundary(bytes.skip(from as int), to - from) {
        vstd::utf8::decode_utf8(bytes.subrange(from as int, to as int))
    } else {
        Seq::empty()
    }
}

/// What a request is refused for.
#[derive(Debug)]
pub enum EnvelopeError {
    /// The document is broken.
    BadXml { offset: u64, error: String },
    /// The body holds no operation.
    NoOperation,
}

/// What each refusal says.
pub open spec fn envelope_error_text(error: EnvelopeError) -> Seq<char> {
    match error {
        EnvelopeError::BadXml { offset, error } => "Bad SOAP XML at offset "@ + text::decimal(
            offset as nat,
        ) + ": "@ + error@,
        EnvelopeError::NoOperation => "SOAP body has no operation element"@,
    }
}

impl EnvelopeError {
    /// What the refusal says.
    pub fn message(&self) -> (said: String)
        ensures
            said@ == envelope_error_text(*self),
    {
        match self {
            EnvelopeError::BadXml { offset, error } => {
                let mut said = "Bad SOAP XML at offset ".to_owned();
                text::append_decimal(&mut said, *offset);
                said.append(": ");
                said.append(error.as_str());
                said
            },
            EnvelopeError::NoOperation => "SOAP body has no operation element".to_owned(),
        }
    }
}

/// Whether a parsed request is what the events of a document make of it.
pub open spec fn request_of(
    items: Seq<xml::XmlItemView>,
    document: Seq<char>,
    result: Result<ParsedRequest<'_>, EnvelopeError>,
) -> bool {
    let seen = scan(items.drop_last());
    match items.last().event {
        xml::XmlView::Bad(error) => result matches Err(EnvelopeError::BadXml {
            offset,
            error: said,
        }) && offset == items.last().from && said@ == error,
        _ => match seen.action {
            None => result matches Err(EnvelopeError::NoOperation),
            Some(action) => result matches Ok(request) && request.action@ == action
                && token_view(request.auth) == seen.token && request.body_xml@ == (match seen.span {
                Some((from, to)) => span_text(document, from, to),
                None => Seq::empty(),
            }),
        },
    }
}

/// The token that a request carries, its texts as sequences.
pub open spec fn token_view(token: Option<UsernameToken>) -> Option<TokenView> {
    match token {
        Some(t) => Some(t@),
        None => None,
    }
}

/// What has been seen of an envelope.
struct Scan {
    in_header: bool,
    in_security: bool,
    in_token: bool,
    field: Option<Field>,
    user: Option<String>,
    password: Option<Credential>,
    created: Option<Timestamp>,
    created_text: Option<String>,
    nonce: Option<Vec<u8>>,
    token: Option<UsernameToken>,
    in_body: bool,
    depth: usize,
    start: Option<u64>,
    action: Option<String>,
    span: Option<(u64, u64)>,
}

impl View for Scan {
    type V = ScanView;

    closed spec fn view(&self) -> ScanView {
        ScanView {
            in_header: self.in_header,
            in_security: self.in_security,
            in_token: self.in_token,
            field: self.field,
            user: text::opt_view(self.user),
            password: match self.password {
                Some(c) => Some(credential_view(c)),
                None => None,
            },
            created: self.created,
            created_text: text::opt_view(self.created_text),
            nonce: bytes_view(self.nonce),
            token: token_view(self.token),
            in_body: self.in_body,
            depth: self.depth as nat,
            start: match self.start {
                Some(at) => Some(at as nat),
                None => None,
            },
            action: text::opt_view(self.action),
            span: match self.span {
                Some((from, to)) => Some((from as nat, to as nat)),
                None => None,
            },
        }
    }
}

/// Whether the attributes of a tag mark a password as a digest.
fn is_digest(tag: &XmlTag) -> (yes: bool)
    requires
        tag.name_len <= tag.content@.len(),
    ensures
        yes == marks_digest(xml::attributes_of(tag.content@, tag.name_len as nat)),
{
    let list = xml::read_attributes(tag);
    let ghost all = xml::attributes_view(list@);
    let mut i: usize = 0;
    while i < list.len()
        invariant
            i <= list@.len(),
            all == xml::attributes_view(list@),
            all == xml::attributes_of(tag.content@, tag.name_len as nat),
            forall|j: int|
                0 <= j < i ==> !(xml::local_part((#[trigger] all[j]).0) == "Type"@ && text::has(
                    xml::text_of_event(all[j].1),
                    "#PasswordDigest"@,
                )),
        decreases list@.len() - i,
    {
        assert(all[i as int] == (list@[i as int].key@, text::opt_view(list@[i as int].value)));
        let key = xml::local_name(list[i].key.as_slice());
        if text::same(key.as_str(), "Type") && text::contains(
            xml::event_text(&list[i].value).as_str(),
            "#PasswordDigest",
        ) {
            return true;
        }
        i += 1;
    }
    false
}

impl Scan {
    fn new() -> (scan: Self)
        ensures
            scan@ == scan_start(),
    {
        Scan {
            in_header: false,
            in_security: false,
            in_token: false,
            field: None,
            user: None,
            password: None,
            created: None,
            created_text: None,
            nonce: None,
            token: None,
            in_body: false,
            depth: 0,
            start: None,
            action: None,
            span: None,
        }
    }

    fn open_outside(&mut self, tag: &XmlTag, name: String)
        requires
            tag.name_len <= tag.content@.len(),
        ensures
            final(self)@ == open_outside(
                old(self)@,
                name@,
                marks_digest(xml::attributes_of(tag.content@, tag.name_len as nat)),
            ),
            final(self).depth == old(self).depth,
    {
        let name = name.as_str();
        if text::same(name, "Header") {
            self.in_header = true;
        } else if text::same(name, "Security") && self.in_header {
            self.in_security = true;
        } else if text::same(name, "UsernameToken") && self.in_security {
            self.in_token = true;
        } else if text::same(name, "Username") && self.in_token {
            self.field = Some(Field::Username);
        } else if text::same(name, "Password") && self.in_token {
            self.field = Some(
                if is_digest(tag) {
                    Field::PasswordDigest
                } else {
                    Field::PasswordText
                },
            );
        } else if text::same(name, "Nonce") && self.in_token {
            self.field = Some(Field::Nonce);
        } else if text::same(name, "Created") && self.in_token {
            self.field = Some(Field::Created);
        } else if text::same(name, "Body") {
            self.in_body = true;
        }
    }

    fn open_inside(&mut self, name: String, from: u64)
        requires
            old(self).depth < usize::MAX,
        ensures
            final(self)@ == open_inside(old(self)@, name@, from as nat),
            final(self).depth <= old(self).depth + 1,
    {
        if self.action.is_none() {
            self.action = Some(name);
            self.start = Some(from);
            self.depth = 1;
        } else {
            self.depth += 1;
        }
    }

    fn close_inside(&mut self, to: u64)
        ensures
            final(self)@ == close_inside(old(self)@, to as nat),
            final(self).depth <= old(self).depth,
    {
        if self.depth > 1 {
            self.depth -= 1;
        } else if self.depth == 1 {
            self.depth = 0;
            if self.span.is_none() {
                if let Some(start) = self.start {
                    self.span = Some((start, to));
                }
            }
        } else {
            self.in_body = false;
        }
    }

    fn close_outside(&mut self, name: String)
        ensures
            final(self)@ == close_outside(old(self)@, name@),
            final(self).depth == old(self).depth,
    {
        let name = name.as_str();
        if text::same(name, "Header") {
            self.in_header = false;
        } else if text::same(name, "Security") {
            self.in_security = false;
        } else if text::same(name, "UsernameToken") {
            self.in_token = false;
            let user = self.user.take();
            let password = self.password.take();
            if let (Some(username), Some(credential)) = (user, password) {
                self.token = Some(
                    UsernameToken {
                        username,
                        credential,
                        created: self.created.take(),
                        created_text: self.created_text.take(),
                        nonce: self.nonce.take(),
                    },
                );
            }
        } else if text::same(name, "Username") || text::same(name, "Password") || text::same(
            name,
            "Nonce",
        ) || text::same(name, "Created") {
            self.field = None;
        }
    }

    fn take_text(&mut self, said: String)
        ensures
            final(self)@ == take_text(old(self)@, said@),
            final(self).depth == old(self).depth,
    {
        match self.field {
            Some(Field::Username) => {
                self.user = Some(said);
            },
            Some(Field::PasswordText) => {
                self.password = Some(Credential::Plain(said));
            },
            Some(Field::PasswordDigest) => {
                self.password = Some(Credential::Digest(said));
            },
            Some(Field::Nonce) => {
                self.nonce = codec::base64_decode(said.as_str().as_bytes());
            },
            Some(Field::Created) => {
                let trimmed = text::trim(said.as_str());
                self.created = time::parse_rfc3339(trimmed.as_str());
                self.created_text = Some(trimmed);
            },
            None => {},
        }
    }

    fn step(&mut self, item: &XmlItem)
        requires
            xml::name_fits(item@),
            old(self).depth < usize::MAX,
        ensures
            final(self)@ == scan_step(old(self)@, item@),
            final(self).depth <= old(self).depth + 1,
    {
        match &item.event {
            XmlEvent::Start(tag) => {
                let name = xml::tag_local_name(tag);
                if self.in_body {
                    self.open_inside(name, item.from);
                } else {
                    self.open_outside(tag, name);
                }
            },
            XmlEvent::End(qname) => {
                if self.in_body {
                    self.close_inside(item.to);
                } else {
                    self.close_outside(xml::local_name(qname.as_slice()));
                }
            },
            XmlEvent::Text(t) => {
                self.take_text(xml::event_text(t));
            },
            XmlEvent::Empty(tag) => {
                if self.in_body && self.action.is_none() {
                    self.action = Some(xml::tag_local_name(tag));
                    self.span = Some((item.from, item.to));
                }
            },
            _ => {},
        }
    }
}

/// The part of a text between two byte positions.
fn text_between(document: &str, from: u64, to: u64) -> (part: &str)
    ensures
        part@ == span_text(document@, from as nat, to as nat),
{
    let ghost bytes = document.spec_bytes();
    let size: usize = document.as_bytes().len();
    if from <= to && to <= size as u64 {
        let start: usize = from as usize;
        let len: usize = (to - from) as usize;
        if document.is_char_boundary(start) {
            let (_, tail) = document.split_at(start);
            assert(tail.spec_bytes() =~= bytes.skip(start as int));
            if tail.is_char_boundary(len) {
                let (part, _) = tail.split_at(len);
                proof {
                    assert(part.spec_bytes() =~= bytes.subrange(from as int, to as int));
                    vstd::utf8::encode_utf8_decode_utf8(part@);
                }
                return part;
            }
        }
    }
    let part = "";
    proof {
        reveal_strlit("");
        assert(part@ =~= Seq::empty());
    }
    part
}

/// Parse a request from the events of its document.
pub fn parse_events<'a>(items: &Vec<XmlItem>, document: &'a str) -> (result: Result<
    ParsedRequest<'a>,
    EnvelopeError,
>)
    requires
        xml::whole(xml::items_view(items@)),
        forall|i: int| 0 <= i < items@.len() ==> xml::name_fits((#[trigger] items@[i])@),
    ensures
        request_of(xml::items_view(items@), document@, result),
{
    let ghost all = xml::items_view(items@);
    let last: usize = items.len() - 1;
    let mut seen = Scan::new();
    let mut i: usize = 0;
    assert(all.take(0) =~= Seq::empty());
    while i < last
        invariant
            i <= last,
            last == items@.len() - 1,
            last < usize::MAX,
            all == xml::items_view(items@),
            forall|j: int| 0 <= j < items@.len() ==> xml::name_fits((#[trigger] items@[j])@),
            seen.depth <= i,
            seen@ == scan(all.take(i as int)),
        decreases last - i,
    {
        assert(all.take(i + 1).drop_last() =~= all.take(i as int));
        assert(all.take(i + 1).last() == items@[i as int]@);
        seen.step(&items[i]);
        i += 1;
    }
    assert(all.take(last as int) =~= all.drop_last());
    assert(all.last() == items@[last as int]@);
    if let XmlEvent::Bad(error) = &items[last].event {
        return Err(EnvelopeError::BadXml { offset: items[last].from, error: error.clone() });
    }
    match seen.action {
        None => Err(EnvelopeError::NoOperation),
        Some(action) => {
            let body_xml = match seen.span {
                Some((from, to)) => text_between(document, from, to),
                None => {
                    let nothing = "";
                    proof {
                        reveal_strlit("");
                        assert(nothing@ =~= Seq::empty());
                    }
                    nothing
                },
            };
            Ok(ParsedRequest { action, auth: seen.token, body_xml })
        },
    }
}

/// Parse a request: its operation, who asks, and the operation's own XML.
pub fn parse_envelope(xml: &str) -> (result: Result<ParsedRequest<'_>, EnvelopeError>)
    ensures
        request_of(xml::xml_events(xml@), xml@, result),
{
    let items = xml::read_events(xml);
    parse_events(&items, xml)
}

/// A table of users and their passwords. No name occurs twice.
#[derive(Clone, Debug)]
pub struct UserTable {
    pub entries: Vec<(String, String)>,
}

/// The password of a user.
pub open spec fn password_in(entries: Seq<(String, String)>, name: Seq<char>) -> Option<Seq<char>>
    decreases entries.len(),
{
    if entries.len() == 0 {
        None
    } else if entries.last().0@ == name {
        Some(entries.last().1@)
    } else {
        password_in(entries.drop_last(), name)
    }
}

impl UserTable {
    /// No name occurs twice.
    pub open spec fn wf(&self) -> bool {
        forall|i: int, j: int|
            0 <= i < j < self.entries@.len() ==> (#[trigger] self.entries@[i]).0@ != (
            #[trigger] self.entries@[j]).0@
    }

    /// The password of a user.
    pub open spec fn password(&self, name: Seq<char>) -> Option<Seq<char>> {
        password_in(self.entries@, name)
    }

    pub fn new() -> (table: Self)
        ensures
            table.wf(),
            forall|name: Seq<char>| #[trigger] table.password(name) is None,
    {
        UserTable { entries: Vec::new() }
    }

    /// The index of a user.
    fn find(&self, name: &str) -> (found: Option<usize>)
        ensures
            match found {
                Some(i) => i < self.entries@.len() && self.entries@[i as int].0@ == name@
                    && self.password(name@) == Some(self.entries@[i as int].1@) && forall|j: int|
                    i < j < self.entries@.len() ==> (#[trigger] self.entries@[j]).0@ != name@,
                None => self.password(name@) is None && forall|j: int|
                    0 <= j < self.entries@.len() ==> (#[trigger] self.entries@[j]).0@ != name@,
            },
    {
        let mut i: usize = self.entries.len();
        assert(self.entries@.take(i as int) =~= self.entries@);
        while i > 0
            invariant
                i <= self.entries@.len(),
                self.password(name@) == password_in(self.entries@.take(i as int), name@),
                forall|j: int|
                    i <= j < self.entries@.len() ==> (#[trigger] self.entries@[j]).0@ != name@,
            decreases i,
        {
            assert(self.entries@.take(i as int).drop_last() =~= self.entries@.take(i - 1));
            assert(self.entries@.take(i as int).last() == self.entries@[i - 1]);
            i -= 1;
            if text::same(self.entries[i].0.as_str(), name) {
                return Some(i);
            }
        }
        None
    }

    /// The password of a user.
    pub fn get(&self, name: &str) -> (found: Option<&str>)
        ensures
            (match found {
                Some(p) => Some(p@),
                None => None,
            }) == self.password(name@),
    {
        match self.find(name) {
            Some(i) => Some(self.entries[i].1.as_str()),
            None => None,
        }
    }

    /// Set the password of a user, replacing any they had.
    pub fn insert(&mut self, name: String, password: String)
        requires
            old(self).wf(),
        ensures
            final(self).wf(),
            final(self).password(name@) == Some(password@),
            forall|other: Seq<char>|
                other != name@ ==> #[trigger] final(self).password(other) == old(self).password(
                    other,
                ),
    {
        let ghost before = self.entries@;
        let ghost n = name@;
        let ghost p = password@;
        match self.find(name.as_str()) {
            Some(i) => {
                self.entries.set(i, (name, password));
                let ghost after = self.entries@;
                assert forall|other: Seq<char>| #[trigger]
                    password_in(after, other) == (if other == n {
                        Some(p)
                    } else {
                        password_in(before, other)
                    }) by {
                    lemma_password_after_update(before, i as int, after, other);
                }
            },
            None => {
                self.entries.push((name, password));
                let ghost after = self.entries@;
                assert(after.drop_last() =~= before);
            },
        }
    }
}

proof fn lemma_password_after_update(
    before: Seq<(String, String)>,
    i: int,
    after: Seq<(String, String)>,
    other: Seq<char>,
)
    requires
        0 <= i < before.len(),
        after.len() == before.len(),
        forall|j: int| 0 <= j < before.len() && j != i ==> #[trigger] after[j] == before[j],
        after[i].0@ == before[i].0@,
        forall|j: int|
            0 <= j < before.len() && j != i ==> (#[trigger] before[j]).0@ != before[i].0@,
    ensures
        password_in(after, other) == (if other == before[i].0@ {
            Some(after[i].1@)
        } else {
            password_in(before, other)
        }),
    decreases before.len(),
{
    let last = before.len() - 1;
    if i == last {
        assert(after.drop_last() =~= before.drop_last());
    } else {
        assert(after[last] == before[last]);
        assert(before[last].0@ != before[i].0@);
        lemma_password_after_update(before.drop_last(), i, after.drop_last(), other);
    }
}

/// Whether two runs of bytes are the same, in a time that depends on their
/// length alone.
pub fn constant_time_eq(a: &[u8], b: &[u8]) -> (equal: bool)
    ensures
        equal == (a@ == b@),
{
    if a.len() != b.len() {
        return false;
    }
    let mut acc: u8 = 0;
    let mut i: usize = 0;
    while i < a.len()
        invariant
            a@.len() == b@.len(),
            i <= a@.len(),
            acc == 0 <==> (forall|j: int| 0 <= j < i ==> a@[j] == b@[j]),
        decreases a@.len() - i,
    {
        let x: u8 = a[i];
        let y: u8 = b[i];
        let ghost before = acc;
        acc = acc | (x ^ y);
        assert((before | (x ^ y)) == 0 <==> (before == 0 && x == y)) by (bit_vector);
        i += 1;
    }
    assert(acc == 0 <==> a@ =~= b@);
    acc == 0
}

/// How old, or how far ahead, a digest token may not be, in seconds.
pub const MAX_DRIFT_SECS: u32 = 360;

/// The digest a token must carry: over the nonce, the verbatim creation time and
/// the password, in that order.
pub open spec fn expected_digest(nonce: Seq<u8>, created: Seq<char>, password: Seq<char>) -> Seq<
    char,
> {
    codec::base64_text(
        codec::sha1_digest(
            nonce + vstd::utf8::encode_utf8(created) + vstd::utf8::encode_utf8(password),
        ),
    )
}

/// Whether a token proves that it is from a user with this password.
///
/// A plain password must be the password. A digest must have a nonce and a
/// creation time less than six minutes from now, and be the one expected.
pub open spec fn token_proves(token: TokenView, password: Seq<char>, now: Timestamp) -> bool {
    if token.credential.1 {
        match (token.nonce, token.created, token.created_text) {
            (Some(nonce), Some(created), Some(created_text)) => !time::apart_by(
                now,
                created,
                MAX_DRIFT_SECS,
            ) && token.credential.0 == expected_digest(nonce, created_text, password),
            _ => false,
        }
    } else {
        token.credential.0 == password
    }
}

/// Whether two texts are the same, in a time that depends on their length alone.
fn constant_time_same(a: &str, b: &str) -> (equal: bool)
    ensures
        equal == (a@ == b@),
{
    proof {
        vstd::utf8::encode_utf8_decode_utf8(a@);
        vstd::utf8::encode_utf8_decode_utf8(b@);
    }
    constant_time_eq(a.as_bytes(), b.as_bytes())
}

/// Whether a digest is the one expected and was created less than six minutes
/// from now.
pub fn digest_matches(
    given: &str,
    expected: &str,
    created: Timestamp,
    now: Timestamp,
) -> (ok: bool)
    ensures
        ok == (!time::apart_by(now, created, MAX_DRIFT_SECS) && given@ == expected@),
{
    // The timestamp must be within a few minutes.
    if time::are_apart_by(now, created, MAX_DRIFT_SECS) {
        return false;
    }
    constant_time_same(given, expected)
}

/// Verifies a UsernameToken against the configured user table, at a point in
/// time.
pub fn verify_token(token: &UsernameToken, users: &UserTable, now: Timestamp) -> (ok: bool)
    ensures
        ok == match users.password(token.username@) {
            Some(password) => token_proves(token@, password, now),
            None => false,
        },
{
    let stored: &str = match users.get(token.username.as_str()) {
        Some(password) => password,
        None => {
            return false;
        },
    };
    match &token.credential {
        Credential::Plain(p) => constant_time_same(p.as_str(), stored),
        Credential::Digest(d) => {
            let nonce = match &token.nonce {
                Some(nonce) => nonce,
                None => {
                    return false;
                },
            };
            let created: Timestamp = match token.created {
                Some(created) => created,
                None => {
                    return false;
                },
            };
            let created_text = match &token.created_text {
                Some(created_text) => created_text,
                None => {
                    return false;
                },
            };
            let mut message: Vec<u8> = Vec::new();
            bytes_util::append_bytes(&mut message, nonce.as_slice());
            bytes_util::append_bytes(&mut message, created_text.as_str().as_bytes());
            bytes_util::append_bytes(&mut message, stored.as_bytes());
            assert(message@ =~= nonce@ + vstd::utf8::encode_utf8(created_text@)
                + vstd::utf8::encode_utf8(stored@));
            let computed = codec::base64_encode(codec::sha1(message.as_slice()).as_slice());
            digest_matches(d.as_str(), computed.as_str(), created, now)
        },
    }
}

/// A token with a fresh time and the digest over its nonce, its verbatim
/// creation time and the password is accepted.
pub proof fn law_digest_verifies(
    nonce: Seq<u8>,
    created: Timestamp,
    created_text: Seq<char>,
    password: Seq<char>,
    username: Seq<char>,
    now: Timestamp,
)
    requires
        !time::apart_by(now, created, MAX_DRIFT_SECS),
    ensures
        token_proves(
            TokenView {
                username,
                credential: (expected_digest(nonce, created_text, password), true),
                created: Some(created),
                created_text: Some(created_text),
                nonce: Some(nonce),
            },
            password,
            now,
        ),
{
}

/// A digest token that lacks its nonce or its creation time, or is too old,
/// proves nothing, whatever the password.
pub proof fn law_stale_digest_is_refused(token: TokenView, password: Seq<char>, now: Timestamp)
    requires
        token.credential.1,
        token.nonce is None || token.created is None || token.created_text is None || (token.created
            matches Some(created) && time::apart_by(now, created, MAX_DRIFT_SECS)),
    ensures
        !token_proves(token, password, now),
{
}

/// The escaped form of a character.
pub open spec fn escaped_char(c: char) -> Seq<char> {
    if c == '&' {
        "&amp;"@
    } else if c == '<' {
        "&lt;"@
    } else if c == '>' {
        "&gt;"@
    } else if c == '"' {
        "&quot;"@
    } else if c == '\'' {
        "&apos;"@
    } else {
        seq![c]
    }
}

/// The escaped form of a text.
pub open spec fn escaped(s: Seq<char>) -> Seq<char>
    decreases s.len(),
{
    if s.len() == 0 {
        Seq::empty()
    } else {
        escaped(s.drop_last()) + escaped_char(s.last())
    }
}

/// XML text escaping of `&`, `<`, `>` and both quotes.
pub fn xml_escape(s: &str) -> (out: String)
    ensures
        out@ == escaped(s@),
{
    let chars = text::chars_of(s);
    let mut out = String::new();
    let mut i: usize = 0;
    assert(s@.take(0) =~= Seq::empty());
    while i < chars.len()
        invariant
            chars@ == s@,
            i <= chars@.len(),
            out@ == escaped(s@.take(i as int)),
        decreases chars@.len() - i,
    {
        let c: char = chars[i];
        let ghost before = out@;
        assert(s@.take(i + 1).drop_last() =~= s@.take(i as int));
        assert(s@.take(i + 1).last() == c);
        if c == '&' {
            out.append("&amp;");
        } else if c == '<' {
            out.append("&lt;");
        } else if c == '>' {
            out.append("&gt;");
        } else if c == '"' {
            out.append("&quot;");
        } else if c == '\'' {
            out.append("&apos;");
        } else {
            out.push(c);
            assert(out@ =~= before + seq![c]);
        }
        i += 1;
    }
    assert(s@.take(i as int) =~= s@);
    out
}

/// Nothing that could open or close markup, or end an attribute, is left in an
/// escaped text.
pub proof fn law_escaped_text_is_inert(s: Seq<char>, i: int)
    requires
        0 <= i < escaped(s).len(),
    ensures
        escaped(s)[i] != '<',
        escaped(s)[i] != '>',
        escaped(s)[i] != '"',
        escaped(s)[i] != '\'',
    decreases s.len(),
{
    reveal_strlit("&amp;");
    reveal_strlit("&lt;");
    reveal_strlit("&gt;");
    reveal_strlit("&quot;");
    reveal_strlit("&apos;");
    if s.len() > 0 {
        let before = escaped(s.drop_last());
        if i < before.len() {
            law_escaped_text_is_inert(s.drop_last(), i);
        } else {
            assert(escaped(s)[i] == escaped_char(s.last())[i - before.len()]);
        }
    }
}

proof fn lemma_escaped_front(s: Seq<char>)
    requires
        s.len() > 0,
    ensures
        escaped(s) == escaped_char(s[0]) + escaped(s.drop_first()),
        escaped_char(s[0]).len() > 0,
        escaped(s).len() > 0,
    decreases s.len(),
{
    reveal_strlit("&amp;");
    reveal_strlit("&lt;");
    reveal_strlit("&gt;");
    reveal_strlit("&quot;");
    reveal_strlit("&apos;");
    let rest = s.drop_first();
    if rest.len() == 0 {
        assert(escaped(s.drop_last()) =~= Seq::empty());
        assert(escaped(rest) =~= Seq::empty());
        assert(escaped(s) =~= escaped_char(s[0]) + escaped(rest));
    } else {
        lemma_escaped_front(s.drop_last());
        assert(s.drop_last().drop_first() =~= rest.drop_last());
        assert(escaped(s) =~= escaped_char(s[0]) + escaped(rest));
    }
}

/// Escaping can be undone: no two texts have the same escaped form.
pub proof fn law_escaping_can_be_undone(a: Seq<char>, b: Seq<char>)
    requires
        escaped(a) == escaped(b),
    ensures
        a == b,
    decreases a.len(),
{
    reveal_strlit("&amp;");
    reveal_strlit("&lt;");
    reveal_strlit("&gt;");
    reveal_strlit("&quot;");
    reveal_strlit("&apos;");
    if a.len() > 0 {
        lemma_escaped_front(a);
    } else {
        assert(escaped(a) =~= Seq::empty());
    }
    if b.len() > 0 {
        lemma_escaped_front(b);
    } else {
        assert(escaped(b) =~= Seq::empty());
    }
    if a.len() > 0 && b.len() > 0 {
        let x = escaped_char(a[0]);
        let y = escaped_char(b[0]);
        let ra = escaped(a.drop_first());
        let rb = escaped(b.drop_first());
        let whole = x + ra;
        assert(whole == y + rb);
        assert forall|k: int| 0 <= k < x.len() && k < y.len() implies #[trigger] x[k] == y[k] by {
            assert(whole[k] == x[k]);
            assert((y + rb)[k] == y[k]);
        }
        assert(x[0] == y[0]);
        if x.len() > 2 && y.len() > 2 {
            assert(x[1] == y[1]);
            assert(x[2] == y[2]);
        }
        assert(a[0] == b[0]);
        assert(ra =~= whole.skip(x.len() as int));
        assert(rb =~= whole.skip(x.len() as int));
        law_escaping_can_be_undone(a.drop_first(), b.drop_first());
        assert(a =~= seq![a[0]] + a.drop_first());
        assert(b =~= seq![b[0]] + b.drop_first());
    } else {
        assert(a.len() == 0 && b.len() == 0);
        assert(a =~= b);
    }
}

/// How many more tags open than close among events.
pub open spec fn open_tags(items: Seq<xml::XmlItemView>) -> int
    decreases items.len(),
{
    if items.len() == 0 {
        0
    } else {
        open_tags(items.drop_last()) + (if items.last().event is Start {
            1int
        } else if items.last().event is End {
            -1int
        } else {
            0int
        })
    }
}

/// Whether events are those of one element: a tag that closes itself, or an
/// opening tag up to the closing tag that belongs to it.
pub open spec fn is_element(items: Seq<xml::XmlItemView>) -> bool {
    &&& items.len() > 0
    &&& forall|i: int| 0 <= i < items.len() ==> !xml::is_end(#[trigger] items[i])
    &&& if items[0].event is Empty {
        items.len() == 1
    } else {
        &&& items[0].event is Start
        &&& open_tags(items) == 0
        &&& forall|k: int| 0 < k < items.len() ==> open_tags(#[trigger] items.take(k)) > 0
    }
}

/// The local name of the element that starts with an event.
pub open spec fn element_name(item: xml::XmlItemView) -> Seq<char> {
    match item.event {
        xml::XmlView::Start(content, name_len) => xml::local_part(xml::tag_name(content, name_len)),
        xml::XmlView::Empty(content, name_len) => xml::local_part(xml::tag_name(content, name_len)),
        _ => Seq::empty(),
    }
}

/// Whether events are those of an envelope whose body holds this operation: a
/// declaration, the tags that open the envelope and its body, the operation,
/// the tags that close them, and the end.
pub open spec fn wraps(items: Seq<xml::XmlItemView>, operation: Seq<xml::XmlItemView>) -> bool {
    let n = operation.len() as int;
    &&& items.len() == n + 6
    &&& items[0].event is Other
    &&& items[1].event is Start && element_name(items[1]) == "Envelope"@
    &&& items[2].event is Start && element_name(items[2]) == "Body"@
    &&& items.subrange(3, n + 3) == operation
    &&& items[n + 3].event is End
    &&& items[n + 4].event is End
    &&& items[n + 5].event is Eof
}

/// What has been seen of an envelope inside its operation.
spec fn within(operation: Seq<xml::XmlItemView>, k: int) -> ScanView {
    let name = element_name(operation[0]);
    let from = operation[0].from;
    let span = if k == operation.len() {
        Some((from, operation.last().to))
    } else {
        None
    };
    if k == 0 {
        ScanView { in_body: true, ..scan_start() }
    } else if operation[0].event is Empty {
        ScanView { in_body: true, action: Some(name), span, ..scan_start() }
    } else {
        ScanView {
            in_body: true,
            depth: open_tags(operation.take(k)) as nat,
            start: Some(from),
            action: Some(name),
            span,
            ..scan_start()
        }
    }
}

proof fn lemma_scan_next(items: Seq<xml::XmlItemView>, k: int)
    requires
        0 <= k < items.len(),
    ensures
        scan(items.take(k + 1)) == scan_step(scan(items.take(k)), items[k]),
{
    assert(items.take(k + 1).drop_last() =~= items.take(k));
    assert(items.take(k + 1).last() == items[k]);
}

proof fn lemma_scan_within(items: Seq<xml::XmlItemView>, operation: Seq<xml::XmlItemView>, k: int)
    requires
        wraps(items, operation),
        is_element(operation),
        0 <= k <= operation.len(),
    ensures
        scan(items.take(k + 3)) == within(operation, k),
    decreases k,
{
    if k == 0 {
        reveal_strlit("Envelope");
        reveal_strlit("Header");
        reveal_strlit("Body");
        assert("Envelope"@.len() == 8 && "Header"@.len() == 6 && "Body"@.len() == 4);
        assert(items.take(0) =~= Seq::empty());
        lemma_scan_next(items, 0);
        lemma_scan_next(items, 1);
        lemma_scan_next(items, 2);
    } else {
        lemma_scan_within(items, operation, k - 1);
        lemma_scan_next(items, k + 2);
        assert(items[k + 2] == items.subrange(3, operation.len() as int + 3)[k - 1]);
        let item = operation[k - 1];
        assert(!xml::is_end(item));
        if operation[0].event is Start {
            assert(operation.take(k).drop_last() =~= operation.take(k - 1));
            assert(operation.take(k).last() == item);
            assert(operation.take(0) =~= Seq::empty());
            assert(operation.take(operation.len() as int) =~= operation);
            if k > 1 {
                assert(open_tags(operation.take(k - 1)) > 0);
            }
            if k < operation.len() {
                assert(open_tags(operation.take(k)) > 0);
            }
        }
    }
}

proof fn lemma_encode_concat(a: Seq<char>, b: Seq<char>)
    ensures
        vstd::utf8::encode_utf8(a + b) == vstd::utf8::encode_utf8(a) + vstd::utf8::encode_utf8(b),
    decreases a.len(),
{
    if a.len() == 0 {
        assert(a + b =~= b);
        assert(vstd::utf8::encode_utf8(a) + vstd::utf8::encode_utf8(b)
            =~= vstd::utf8::encode_utf8(b));
    } else {
        lemma_encode_concat(a.drop_first(), b);
        assert((a + b).drop_first() =~= a.drop_first() + b);
        assert((a + b)[0] == a[0]);
        assert(vstd::utf8::encode_utf8(a + b) =~= vstd::utf8::encode_utf8(a)
            + vstd::utf8::encode_utf8(b));
    }
}

proof fn lemma_boundary_between(a: Seq<char>, b: Seq<char>)
    ensures
        vstd::utf8::is_char_boundary(
            vstd::utf8::encode_utf8(a) + vstd::utf8::encode_utf8(b),
            vstd::utf8::encode_utf8(a).len() as int,
        ),
{
    let x = vstd::utf8::encode_utf8(a);
    let y = vstd::utf8::encode_utf8(b);
    vstd::utf8::encode_utf8_valid_utf8(a);
    vstd::utf8::encode_utf8_valid_utf8(b);
    vstd::utf8::valid_utf8_concat(x, y);
    if y.len() == 0 {
        assert(x + y =~= x);
        vstd::utf8::is_char_boundary_start_end_of_seq(x);
    } else {
        vstd::utf8::is_char_boundary_start_end_of_seq(y);
        vstd::utf8::is_char_boundary_iff_not_is_continuation_byte(y, 0);
        assert((x + y)[x.len() as int] == y[0]);
        vstd::utf8::is_char_boundary_iff_not_is_continuation_byte(x + y, x.len() as int);
    }
}

proof fn lemma_span_between(before: Seq<char>, part: Seq<char>, behind: Seq<char>)
    ensures
        span_text(
            before + part + behind,
            vstd::utf8::encode_utf8(before).len(),
            vstd::utf8::encode_utf8(before).len() + vstd::utf8::encode_utf8(part).len(),
        ) == part,
{
    let x = vstd::utf8::encode_utf8(before);
    let y = vstd::utf8::encode_utf8(part);
    let z = vstd::utf8::encode_utf8(behind);
    let all = vstd::utf8::encode_utf8(before + part + behind);
    lemma_encode_concat(part, behind);
    lemma_encode_concat(before, part + behind);
    assert(before + part + behind =~= before + (part + behind));
    lemma_boundary_between(before, part + behind);
    lemma_boundary_between(part, behind);
    assert(all =~= x + (y + z));
    assert(all.skip(x.len() as int) =~= y + z);
    assert(all.subrange(x.len() as int, (x.len() + y.len()) as int) =~= y);
    vstd::utf8::encode_utf8_decode_utf8(part);
}

/// The part of an envelope in front of its body's content.
pub open spec fn envelope_head(namespaces: Seq<char>) -> Seq<char> {
    "<?xml version=\"1.0\" encoding=\"UTF-8\"?><env:Envelope xmlns:env=\"http://www.w3.org/2003/05/soap-envelope\" "@
        + namespaces + "><env:Body>"@
}

/// An operation that was wrapped in an envelope is parsed back: its name, and
/// its own text. It carries no credentials, whatever it holds, since those are
/// read from the header.
pub proof fn law_wrapped_operation_comes_back(
    body: Seq<char>,
    namespaces: Seq<char>,
    items: Seq<xml::XmlItemView>,
    operation: Seq<xml::XmlItemView>,
    result: Result<ParsedRequest<'_>, EnvelopeError>,
)
    requires
        is_element(operation),
        operation.first().from == vstd::utf8::encode_utf8(envelope_head(namespaces)).len(),
        operation.last().to == operation.first().from + vstd::utf8::encode_utf8(body).len(),
        wraps(items, operation),
        request_of(items, envelope(body, namespaces), result),
    ensures
        result matches Ok(request) && request.action@ == element_name(operation[0])
            && request.body_xml@ == body && request.auth is None,
{
    let n = operation.len() as int;
    lemma_scan_within(items, operation, n);
    lemma_scan_next(items, n + 3);
    lemma_scan_next(items, n + 4);
    assert(items.take(n + 5) =~= items.drop_last());
    assert(operation.take(n) =~= operation);
    lemma_span_between(envelope_head(namespaces), body, "</env:Body></env:Envelope>"@);
}

/// Standard SOAP namespace declaration set used by every ONVIF service.
pub const NS_ALL: &'static str = "xmlns:tt=\"http://www.onvif.org/ver10/schema\" xmlns:tds=\"http://www.onvif.org/ver10/device/wsdl\" xmlns:trt=\"http://www.onvif.org/ver10/media/wsdl\" xmlns:tptz=\"http://www.onvif.org/ver20/ptz/wsdl\" xmlns:wsa=\"http://www.w3.org/2005/08/addressing\" xmlns:tns=\"http://www.onvif.org/ver10/topics\" xmlns:dn=\"http://www.onvif.org/ver10/network/wsdl\" xmlns:xsd=\"http://www.w3.org/2001/XMLSchema\"";

/// An envelope around a body.
pub open spec fn envelope(body: Seq<char>, namespaces: Seq<char>) -> Seq<char> {
    "<?xml version=\"1.0\" encoding=\"UTF-8\"?><env:Envelope xmlns:env=\"http://www.w3.org/2003/05/soap-envelope\" "@
        + namespaces + "><env:Body>"@ + body + "</env:Body></env:Envelope>"@
}

/// Build the outgoing SOAP envelope around an already-rendered body XML
/// fragment. `xmlns_extra` is appended to the Envelope element to provide
/// namespace prefixes used by the body.
pub fn wrap_envelope(body_xml: &str, xmlns_extra: &str) -> (out: String)
    ensures
        out@ == envelope(body_xml@, xmlns_extra@),
{
    let mut out =
        "<?xml version=\"1.0\" encoding=\"UTF-8\"?><env:Envelope xmlns:env=\"http://www.w3.org/2003/05/soap-envelope\" ".to_owned();
    out.append(xmlns_extra);
    out.append("><env:Body>");
    out.append(body_xml);
    out.append("</env:Body></env:Envelope>");
    out
}

/// What a request is refused for.
#[derive(Clone, Copy, PartialEq, Eq, Structural, Debug)]
pub enum FaultCode {
    NotAuthorized,
    ActionNotSupported,
    InvalidArgs,
    NoAbsolutePtzSpace,
    NoContinuousPanTiltSpace,
    NoContinuousZoomSpace,
    NoRelativePanTiltSpace,
    NoRelativeZoomSpace,
    NoAbsoluteZoomSpace,
    CannotOverwriteHome,
    NoHomePosition,
    TooManyPresets,
    Other,
}

/// Whose fault it is.
pub open spec fn fault_primary(code: FaultCode) -> Seq<char> {
    match code {
        FaultCode::ActionNotSupported => "Receiver"@,
        FaultCode::CannotOverwriteHome => "Receiver"@,
        FaultCode::NoHomePosition => "Receiver"@,
        FaultCode::TooManyPresets => "Receiver"@,
        FaultCode::Other => "Receiver"@,
        _ => "Sender"@,
    }
}

/// What exactly it is.
pub open spec fn fault_subcode(code: FaultCode) -> Seq<char> {
    match code {
        FaultCode::NotAuthorized => "NotAuthorized"@,
        FaultCode::ActionNotSupported => "ActionNotSupported"@,
        FaultCode::InvalidArgs => "InvalidArgs"@,
        FaultCode::NoAbsolutePtzSpace => "NoAbsolutePTZSpace"@,
        FaultCode::NoContinuousPanTiltSpace => "NoContinuousPanTiltSpace"@,
        FaultCode::NoContinuousZoomSpace => "NoContinuousZoomSpace"@,
        FaultCode::NoRelativePanTiltSpace => "NoRelativePanTiltSpace"@,
        FaultCode::NoRelativeZoomSpace => "NoRelativeZoomSpace"@,
        FaultCode::NoAbsoluteZoomSpace => "NoAbsoluteZoomSpace"@,
        FaultCode::CannotOverwriteHome => "CannotOverwriteHome"@,
        FaultCode::NoHomePosition => "NoHomePosition"@,
        FaultCode::TooManyPresets => "TooManyPresets"@,
        FaultCode::Other => "Action"@,
    }
}

impl FaultCode {
    /// Whose fault it is: the sender's or the receiver's.
    pub fn primary(&self) -> (word: &'static str)
        ensures
            word@ == fault_primary(*self),
    {
        match self {
            FaultCode::ActionNotSupported => "Receiver",
            FaultCode::CannotOverwriteHome => "Receiver",
            FaultCode::NoHomePosition => "Receiver",
            FaultCode::TooManyPresets => "Receiver",
            FaultCode::Other => "Receiver",
            _ => "Sender",
        }
    }

    /// What exactly it is.
    pub fn subcode(&self) -> (word: &'static str)
        ensures
            word@ == fault_subcode(*self),
    {
        match self {
            FaultCode::NotAuthorized => "NotAuthorized",
            FaultCode::ActionNotSupported => "ActionNotSupported",
            FaultCode::InvalidArgs => "InvalidArgs",
            FaultCode::NoAbsolutePtzSpace => "NoAbsolutePTZSpace",
            FaultCode::NoContinuousPanTiltSpace => "NoContinuousPanTiltSpace",
            FaultCode::NoContinuousZoomSpace => "NoContinuousZoomSpace",
            FaultCode::NoRelativePanTiltSpace => "NoRelativePanTiltSpace",
            FaultCode::NoRelativeZoomSpace => "NoRelativeZoomSpace",
            FaultCode::NoAbsoluteZoomSpace => "NoAbsoluteZoomSpace",
            FaultCode::CannotOverwriteHome => "CannotOverwriteHome",
            FaultCode::NoHomePosition => "NoHomePosition",
            FaultCode::TooManyPresets => "TooManyPresets",
            FaultCode::Other => "Action",
        }
    }
}

/// The body of a fault.
pub open spec fn fault_body(code: FaultCode, reason: Seq<char>, detail: Option<Seq<char>>) -> Seq<
    char,
> {
    "<env:Fault><env:Code><env:Value>env:"@ + fault_primary(code)
        + "</env:Value><env:Subcode><env:Value>ter:"@ + fault_subcode(code)
        + "</env:Value></env:Subcode></env:Code><env:Reason><env:Text xml:lang=\"en\">"@ + escaped(
        reason,
    ) + "</env:Text></env:Reason>"@ + (match detail {
        Some(d) => "<env:Detail><tt:Text>"@ + escaped(d) + "</tt:Text></env:Detail>"@,
        None => Seq::empty(),
    }) + "</env:Fault>"@
}

/// Build a SOAP Fault envelope.
pub fn fault_envelope(code: FaultCode, reason: &str, detail: Option<&str>) -> (out: String)
    ensures
        out@ == envelope(
            fault_body(
                code,
                reason@,
                match detail {
                    Some(d) => Some(d@),
                    None => None,
                },
            ),
            NS_ALL@ + " xmlns:ter=\"http://www.onvif.org/ver10/error\""@,
        ),
{
    let mut body = "<env:Fault><env:Code><env:Value>env:".to_owned();
    body.append(code.primary());
    body.append("</env:Value><env:Subcode><env:Value>ter:");
    body.append(code.subcode());
    body.append("</env:Value></env:Subcode></env:Code><env:Reason><env:Text xml:lang=\"en\">");
    body.append(xml_escape(reason).as_str());
    body.append("</env:Text></env:Reason>");
    let mut extra = String::new();
    if let Some(d) = detail {
        extra = "<env:Detail><tt:Text>".to_owned();
        extra.append(xml_escape(d).as_str());
        extra.append("</tt:Text></env:Detail>");
    }
    body.append(extra.as_str());
    body.append("</env:Fault>");
    let mut namespaces = NS_ALL.to_owned();
    namespaces.append(" xmlns:ter=\"http://www.onvif.org/ver10/error\"");
    wrap_envelope(body.as_str(), namespaces.as_str())
}

/// The operations that ONVIF mandates be reachable without authentication.
pub open spec fn open_to_all(action: Seq<char>) -> bool {
    ||| action == "GetSystemDateAndTime"@
    ||| action == "GetCapabilities"@
    ||| action == "GetServices"@
    ||| action == "GetServiceCapabilities"@
}

/// Operations that ONVIF mandates be reachable without authentication.
pub fn is_unauth_allowed(action: &str) -> (allowed: bool)
    ensures
        allowed == open_to_all(action@),
{
    text::same(action, "GetSystemDateAndTime") || text::same(action, "GetCapabilities")
        || text::same(action, "GetServices") || text::same(action, "GetServiceCapabilities")
}

/// A fault names the side that is to blame and what is wrong, each kind by its
/// own words, and gives its reason.
pub proof fn law_faults_say_what_is_wrong(
    code: FaultCode,
    reason: Seq<char>,
    detail: Option<Seq<char>>,
)
    ensures
        ({
            let (side, kind) = match code {
                FaultCode::NotAuthorized => ("Sender"@, "NotAuthorized"@),
                FaultCode::ActionNotSupported => ("Receiver"@, "ActionNotSupported"@),
                FaultCode::InvalidArgs => ("Sender"@, "InvalidArgs"@),
                FaultCode::NoAbsolutePtzSpace => ("Sender"@, "NoAbsolutePTZSpace"@),
                FaultCode::NoContinuousPanTiltSpace => ("Sender"@, "NoContinuousPanTiltSpace"@),
                FaultCode::NoContinuousZoomSpace => ("Sender"@, "NoContinuousZoomSpace"@),
                FaultCode::NoRelativePanTiltSpace => ("Sender"@, "NoRelativePanTiltSpace"@),
                FaultCode::NoRelativeZoomSpace => ("Sender"@, "NoRelativeZoomSpace"@),
                FaultCode::NoAbsoluteZoomSpace => ("Sender"@, "NoAbsoluteZoomSpace"@),
                FaultCode::CannotOverwriteHome => ("Receiver"@, "CannotOverwriteHome"@),
                FaultCode::NoHomePosition => ("Receiver"@, "NoHomePosition"@),
                FaultCode::TooManyPresets => ("Receiver"@, "TooManyPresets"@),
                FaultCode::Other => ("Receiver"@, "Action"@),
            };
            &&& text::has(
                fault_body(code, reason, detail),
                "<env:Code><env:Value>env:"@ + side + "</env:Value>"@,
            )
            &&& text::has(
                fault_body(code, reason, detail),
                "<env:Subcode><env:Value>ter:"@ + kind + "</env:Value></env:Subcode>"@,
            )
            &&& text::has(
                fault_body(code, reason, detail),
                "<env:Reason><env:Text xml:lang=\"en\">"@ + escaped(reason)
                    + "</env:Text></env:Reason>"@,
            )
        }),
{
    {
        reveal_strlit("<env:Fault><env:Code><env:Value>env:");
        reveal_strlit("<env:Code><env:Value>env:");
        reveal_strlit("</env:Value><env:Subcode><env:Value>ter:");
        reveal_strlit("</env:Value>");
        assert("<env:Fault><env:Code><env:Value>env:"@.skip(11) =~= "<env:Code><env:Value>env:"@);
        assert("</env:Value><env:Subcode><env:Value>ter:"@.take(12) =~= "</env:Value>"@);
        let head = Seq::<char>::empty();
        let tail = fault_subcode(code) + "</env:Value></env:Subcode></env:Code><env:Reason><env:Text xml:lang=\"en\">"@ + escaped(
        reason,
    ) + "</env:Text></env:Reason>"@ + ((match detail {
        Some(d) => "<env:Detail><tt:Text>"@ + escaped(d) + "</tt:Text></env:Detail>"@,
        None => Seq::empty(),
    })) + "</env:Fault>"@;
        let value = fault_primary(code);
        assert(fault_body(code, reason, detail) =~= head + "<env:Fault><env:Code><env:Value>env:"@ + value + "</env:Value><env:Subcode><env:Value>ter:"@ + tail);
        text::lemma_has_tagged(head, "<env:Fault><env:Code><env:Value>env:"@, value, "</env:Value><env:Subcode><env:Value>ter:"@, tail, "<env:Code><env:Value>env:"@, "</env:Value>"@);
    }
    {
        reveal_strlit("<env:Subcode><env:Value>ter:");
        reveal_strlit("</env:Value></env:Subcode>");
        reveal_strlit("</env:Value><env:Subcode><env:Value>ter:");
        reveal_strlit("</env:Value></env:Subcode></env:Code><env:Reason><env:Text xml:lang=\"en\">");
        assert("</env:Value><env:Subcode><env:Value>ter:"@.skip(12) =~= "<env:Subcode><env:Value>ter:"@);
        assert("</env:Value></env:Subcode></env:Code><env:Reason><env:Text xml:lang=\"en\">"@.take(26) =~= "</env:Value></env:Subcode>"@);
        let head = "<env:Fault><env:Code><env:Value>env:"@ + fault_primary(code);
        let tail = escaped(
        reason,
    ) + "</env:Text></env:Reason>"@ + ((match detail {
        Some(d) => "<env:Detail><tt:Text>"@ + escaped(d) + "</tt:Text></env:Detail>"@,
        None => Seq::empty(),
    })) + "</env:Fault>"@;
        let value = fault_subcode(code);
        assert(fault_body(code, reason, detail) =~= head + "</env:Value><env:Subcode><env:Value>ter:"@ + value + "</env:Value></env:Subcode></env:Code><env:Reason><env:Text xml:lang=\"en\">"@ + tail);
        text::lemma_has_tagged(head, "</env:Value><env:Subcode><env:Value>ter:"@, value, "</env:Value></env:Subcode></env:Code><env:Reason><env:Text xml:lang=\"en\">"@, tail, "<env:Subcode><env:Value>ter:"@, "</env:Value></env:Subcode>"@);
    }
    {
        reveal_strlit("<env:Reason><env:Text xml:lang=\"en\">");
        reveal_strlit("</env:Text></env:Reason>");
        reveal_strlit("</env:Value></env:Subcode></env:Code><env:Reason><env:Text xml:lang=\"en\">");
        assert("</env:Value></env:Subcode></env:Code><env:Reason><env:Text xml:lang=\"en\">"@.skip(37) =~= "<env:Reason><env:Text xml:lang=\"en\">"@);
        assert("</env:Text></env:Reason>"@.take(24) =~= "</env:Text></env:Reason>"@);
        let head = "<env:Fault><env:Code><env:Value>env:"@ + fault_primary(code) + "</env:Value><env:Subcode><env:Value>ter:"@ + fault_subcode(code);
        let tail = ((match detail {
        Some(d) => "<env:Detail><tt:Text>"@ + escaped(d) + "</tt:Text></env:Detail>"@,
        None => Seq::empty(),
    })) + "</env:Fault>"@;
        let value = escaped(
        reason,
    );
        assert(fault_body(code, reason, detail) =~= head + "</env:Value></env:Subcode></env:Code><env:Reason><env:Text xml:lang=\"en\">"@ + value + "</env:Text></env:Reason>"@ + tail);
        text::lemma_has_tagged(head, "</env:Value></env:Subcode></env:Code><env:Reason><env:Text xml:lang=\"en\">"@, value, "</env:Text></env:Reason>"@, tail, "<env:Reason><env:Text xml:lang=\"en\">"@, "</env:Text></env:Reason>"@);
    }
}

proof fn lemma_escaped_concat(a: Seq<char>, b: Seq<char>)
    ensures
        escaped(a + b) == escaped(a) + escaped(b),
    decreases b.len(),
{
    if b.len() == 0 {
        assert(a + b =~= a);
        assert(escaped(a) + escaped(b) =~= escaped(a));
    } else {
        lemma_escaped_concat(a, b.drop_last());
        assert((a + b).drop_last() =~= a + b.drop_last());
        assert((a + b).last() == b.last());
        assert(escaped(a + b) =~= escaped(a) + escaped(b));
    }
}

/// Escaping goes character by character: the five that mean something in XML
/// turn into the entities XML defines for them, and every other one stays.
pub proof fn law_escaping_uses_the_entities(before: Seq<char>, c: char, behind: Seq<char>)
    ensures
        c == '&' ==> escaped(before + seq![c] + behind) == escaped(before) + "&amp;"@ + escaped(
            behind,
        ),
        c == '<' ==> escaped(before + seq![c] + behind) == escaped(before) + "&lt;"@ + escaped(
            behind,
        ),
        c == '>' ==> escaped(before + seq![c] + behind) == escaped(before) + "&gt;"@ + escaped(
            behind,
        ),
        c == '"' ==> escaped(before + seq![c] + behind) == escaped(before) + "&quot;"@ + escaped(
            behind,
        ),
        c == '\'' ==> escaped(before + seq![c] + behind) == escaped(before) + "&apos;"@ + escaped(
            behind,
        ),
        c != '&' && c != '<' && c != '>' && c != '"' && c != '\'' ==> escaped(
            before + seq![c] + behind,
        ) == escaped(before) + seq![c] + escaped(behind),
        escaped(Seq::empty()) == Seq::<char>::empty(),
{
    lemma_escaped_concat(before + seq![c], behind);
    assert((before + seq![c]).drop_last() =~= before);
    assert((before + seq![c]).last() == c);
}

/// A plain password proves a user only by being their password. A digest does so
/// only with a nonce and a creation time less than 360 seconds from now, and by
/// being the digest over the nonce, that time as written and the password.
pub proof fn law_credentials_prove_the_password(
    token: TokenView,
    password: Seq<char>,
    now: Timestamp,
)
    ensures
        !token.credential.1 ==> (token_proves(token, password, now) <==> token.credential.0
            == password),
        token.credential.1 ==> (token_proves(token, password, now) <==> (token.nonce is Some
            && token.created is Some && token.created_text is Some && -360_000_000_000
            < time::elapsed(now, token.created->0) < 360_000_000_000 && token.credential.0
            == codec::base64_text(
            codec::sha1_digest(
                token.nonce->0 + vstd::utf8::encode_utf8(token.created_text->0)
                    + vstd::utf8::encode_utf8(password),
            ),
        ))),
{
}

/// Credentials are seen as what they are: a plain password and a digest are told
/// apart, and their text is kept.
pub proof fn law_credentials_are_seen_as_they_are(token: UsernameToken)
    ensures
        token@.username == token.username@,
        token@.created == token.created,
        token.credential matches Credential::Plain(said) ==> token@.credential == (said@, false),
        token.credential matches Credential::Digest(said) ==> token@.credential == (said@, true),
        token@.created_text == (match token.created_text {
            Some(said) => Some(said@),
            None => None,
        }),
        token@.nonce == (match token.nonce {
            Some(bytes) => Some(bytes@),
            None => None,
        }),
{
}

/// In a table where no name occurs twice, every user has the password that
/// stands beside their name, and nobody else has any.
pub proof fn law_passwords_stand_beside_their_names(table: UserTable, i: int, name: Seq<char>)
    requires
        table.wf(),
        0 <= i < table.entries@.len(),
    ensures
        table.password(table.entries@[i].0@) == Some(table.entries@[i].1@),
        (forall|j: int| 0 <= j < table.entries@.len() ==> (#[trigger] table.entries@[j]).0@ != name)
            ==> table.password(name) is None,
{
    lemma_password_beside(table.entries@, i);
    if forall|j: int| 0 <= j < table.entries@.len() ==> (#[trigger] table.entries@[j]).0@ != name {
        lemma_no_password(table.entries@, name);
    }
}

proof fn lemma_password_beside(entries: Seq<(String, String)>, i: int)
    requires
        forall|a: int, b: int|
            0 <= a < b < entries.len() ==> (#[trigger] entries[a]).0@ != (#[trigger] entries[b]).0@,
        0 <= i < entries.len(),
    ensures
        password_in(entries, entries[i].0@) == Some(entries[i].1@),
    decreases entries.len(),
{
    let last = entries.len() - 1;
    if i < last {
        assert(entries[i].0@ != entries[last].0@);
        lemma_password_beside(entries.drop_last(), i);
    }
}

proof fn lemma_no_password(entries: Seq<(String, String)>, name: Seq<char>)
    requires
        forall|j: int| 0 <= j < entries.len() ==> (#[trigger] entries[j]).0@ != name,
    ensures
        password_in(entries, name) is None,
    decreases entries.len(),
{
    if entries.len() > 0 {
        assert(entries[entries.len() - 1].0@ != name);
        lemma_no_password(entries.drop_last(), name);
    }
}

proof fn lemma_tags()
    ensures
        "Header"@.len() == 6,
        "Security"@.len() == 8,
        "UsernameToken"@.len() == 13,
        "Username"@.len() == 8,
        "Password"@.len() == 8,
        "Nonce"@.len() == 5,
        "Created"@.len() == 7,
        "Body"@.len() == 4,
        "Security"@ != "Username"@,
        "Security"@ != "Password"@,
        "Username"@ != "Password"@,
{
    reveal_strlit("Header");
    reveal_strlit("Security");
    reveal_strlit("UsernameToken");
    reveal_strlit("Username");
    reveal_strlit("Password");
    reveal_strlit("Nonce");
    reveal_strlit("Created");
    reveal_strlit("Body");
    assert("Security"@[0] != "Username"@[0]);
    assert("Security"@[0] != "Password"@[0]);
    assert("Username"@[0] != "Password"@[0]);
}

/// Inside a token, the text of each element goes to the part of the token that
/// the element is named after. A password counts as a digest only where its
/// `Type` says so.
pub proof fn law_token_parts_are_read_by_name(
    s: ScanView,
    tag: xml::XmlItemView,
    said: xml::XmlItemView,
    content: Seq<u8>,
    name_len: nat,
    t: Seq<char>,
)
    requires
        s.in_token,
        !s.in_body,
        tag.event == xml::XmlView::Start(content, name_len),
        said.event == xml::XmlView::Text(Some(t)),
    ensures
        ({
            let name = xml::local_part(xml::tag_name(content, name_len));
            let after = scan_step(scan_step(s, tag), said);
            let digest = exists|i: int|
                0 <= i < xml::attributes_of(content, name_len).len() && xml::local_part(
                    (#[trigger] xml::attributes_of(content, name_len)[i]).0,
                ) == "Type"@ && text::has(
                    xml::text_of_event(xml::attributes_of(content, name_len)[i].1),
                    "#PasswordDigest"@,
                );
            &&& name == "Username"@ ==> after.user == Some(t)
            &&& name == "Password"@ ==> after.password == Some((t, digest))
            &&& name == "Nonce"@ ==> after.nonce == codec::base64_bytes(
                vstd::utf8::encode_utf8(t),
            )
            &&& name == "Created"@ ==> after.created_text == Some(text::trimmed(t)) && after.created
                == time::rfc3339_time(text::trimmed(t))
            &&& name != "Username"@ && s.field != Some(Field::Username) ==> after.user == s.user
            &&& name == "Username"@ ==> after.password == s.password
        }),
{
    lemma_tags();
}

/// A token is complete with its own closing tag if it has a user and a password,
/// and then holds what was read of it.
pub proof fn law_tokens_hold_what_was_read(s: ScanView, end: xml::XmlItemView, qname: Seq<u8>)
    requires
        !s.in_body,
        end.event == xml::XmlView::End(qname),
        xml::local_part(qname) == "UsernameToken"@,
    ensures
        s.user is Some && s.password is Some ==> scan_step(s, end).token == Some(
            TokenView {
                username: s.user->0,
                credential: s.password->0,
                created: s.created,
                created_text: s.created_text,
                nonce: s.nonce,
            },
        ),
        s.user is None || s.password is None ==> scan_step(s, end).token == s.token,
        scan_step(s, end).user is None,
        scan_step(s, end).password is None,
        !scan_step(s, end).in_token,
{
    lemma_tags();
}

/// A refusal says what is wrong with an envelope, and where.
pub proof fn law_refusals_say_where(offset: u64, error: String)
    ensures
        envelope_error_text(EnvelopeError::BadXml { offset, error }) == "Bad SOAP XML at offset "@
            + text::decimal(offset as nat) + ": "@ + error@,
        envelope_error_text(EnvelopeError::NoOperation) == "SOAP body has no operation element"@,
{
}

/// The operation is the first element of the body, and ends with its own closing tag; the
/// body ends with the tag that closes it, and from there on nothing is an operation.
pub proof fn law_the_first_element_of_the_body_is_the_operation(
    s: ScanView,
    item: xml::XmlItemView,
    content: Seq<u8>,
    name_len: nat,
)
    requires
        s.in_body,
    ensures
        item.event == xml::XmlView::Start(content, name_len) && s.action is None ==> scan_step(
            s,
            item,
        ).action == Some(xml::local_part(xml::tag_name(content, name_len))) && scan_step(
            s,
            item,
        ).start == Some(item.from) && scan_step(s, item).depth == 1,
        item.event == xml::XmlView::Start(content, name_len) && s.action is Some ==> scan_step(
            s,
            item,
        ).action == s.action && scan_step(s, item).depth == s.depth + 1,
        item.event is End && s.depth > 1 ==> scan_step(s, item).depth == s.depth - 1 && scan_step(
            s,
            item,
        ).in_body && scan_step(s, item).span == s.span,
        item.event is End && s.depth == 1 && s.span is None && s.start is Some ==> scan_step(
            s,
            item,
        ).span == Some((s.start->0, item.to)) && scan_step(s, item).in_body,
        item.event is End && s.depth == 0 ==> !scan_step(s, item).in_body,
        item.event == xml::XmlView::Empty(content, name_len) && s.action is None ==> scan_step(
            s,
            item,
        ).action == Some(xml::local_part(xml::tag_name(content, name_len))) && scan_step(
            s,
            item,
        ).span == Some((item.from, item.to)),
        item.event == xml::XmlView::Empty(content, name_len) && s.action is Some ==> scan_step(
            s,
            item,
        ) == s,
{
}

} // verus!
