//! The mailbox listener: from a raw message to an alarm.
use std::collections::VecDeque;
use std::hash::{Hash, Hasher};
use vstd::prelude::*;
use vstd::string::StringExecFns;
use crate::alarm::{empty_alarm, Alarm, AlarmView};
use crate::config::alarm_sources::MailConfig;
use crate::mail_parser::mock_parser::MockParser;
use crate::mail_parser::plaintext_parser::PlaintextParser;
use crate::mail_parser::sl_secur_cad::SecurCadParser;
use crate::mail_parser::{MailParser, ParseError, Reading};
use crate::text::{first_group, first_group_match, same_but_case, same_text, same_text_but_case};

verus! {

/// One part of a mail: its media type, its body as text where it can be read
/// as text, and the parts inside it.
#[derive(Debug)]
pub struct MailPart {
    pub mimetype: String,
    pub body: Option<String>,
    pub subparts: Vec<MailPart>,
}

/// The plain and the HTML text gathered so far.
pub ghost struct Bodies {
    pub text: Seq<char>,
    pub html: Seq<char>,
}

/// `bodies` with the body `body` of a part of the type `mimetype` appended
/// where the type is plain text or HTML.
pub open spec fn with_body(bodies: Bodies, mimetype: Seq<char>, body: Seq<char>) -> Bodies {
    if mimetype == "text/plain"@ {
        Bodies { text: bodies.text + body, html: bodies.html }
    } else if mimetype == "text/html"@ {
        Bodies { text: bodies.text, html: bodies.html + body }
    } else {
        bodies
    }
}

/// `bodies` after the first `n` of `parts` were walked in order: each part
/// whose body can be read adds its body and is then walked itself; a part
/// whose body cannot be read is passed over with all that is inside it.
pub open spec fn walked(parts: Seq<MailPart>, n: int, bodies: Bodies) -> Bodies
    decreases parts, n,
{
    if n <= 0 || n > parts.len() {
        bodies
    } else {
        let before = walked(parts, n - 1, bodies);
        let part = parts[n - 1];
        match part.body {
            Some(body) => walked(
                part.subparts@,
                part.subparts@.len() as int,
                with_body(before, part.mimetype@, body@),
            ),
            None => before,
        }
    }
}

/// The bodies of a whole mail: the body of the mail itself where it is plain
/// text or HTML and can be read, then what the walk through its parts adds.
pub open spec fn bodies_of(mail: MailPart) -> Bodies {
    let own = match mail.body {
        Some(body) => with_body(
            Bodies { text: Seq::empty(), html: Seq::empty() },
            mail.mimetype@,
            body@,
        ),
        None => Bodies { text: Seq::empty(), html: Seq::empty() },
    };
    walked(mail.subparts@, mail.subparts@.len() as int, own)
}

fn add_body(part: &MailPart, body: &String, text_body: &mut String, html_body: &mut String)
    ensures
        (Bodies { text: final(text_body)@, html: final(html_body)@ }) == with_body(
            Bodies { text: old(text_body)@, html: old(html_body)@ },
            part.mimetype@,
            body@,
        ),
{
    if same_text(part.mimetype.as_str(), "text/plain") {
        text_body.append(body.as_str());
    } else if same_text(part.mimetype.as_str(), "text/html") {
        html_body.append(body.as_str());
    }
}

fn traverse_parts(parts: &Vec<MailPart>, text_body: &mut String, html_body: &mut String)
    ensures
        (Bodies { text: final(text_body)@, html: final(html_body)@ }) == walked(
            parts@,
            parts@.len() as int,
            Bodies { text: old(text_body)@, html: old(html_body)@ },
        ),
    decreases parts,
{
    let ghost start = Bodies { text: text_body@, html: html_body@ };
    let mut i: usize = 0;
    while i < parts.len()
        invariant
            i <= parts.len(),
            (Bodies { text: text_body@, html: html_body@ }) == walked(parts@, i as int, start),
        decreases parts.len() - i,
    {
        let part = &parts[i];
        match &part.body {
            Some(body) => {
                add_body(part, body, text_body, html_body);
                traverse_parts(&part.subparts, text_body, html_body);
            },
            None => {},
        }
        i += 1;
    }
}

/// The plain and the HTML text of a mail.
pub fn extract_bodies(parsed_mail: &MailPart) -> (bodies: (String, String))
    ensures
        (Bodies { text: bodies.0@, html: bodies.1@ }) == bodies_of(*parsed_mail),
{
    let mut text_body = String::new();
    let mut html_body = String::new();
    match &parsed_mail.body {
        Some(body) => {
            add_body(parsed_mail, body, &mut text_body, &mut html_body);
        },
        None => {},
    }
    traverse_parts(&parsed_mail.subparts, &mut text_body, &mut html_body);
    (text_body, html_body)
}

/// A mail as it was parsed: its headers, each with its name and its value,
/// in their order, and its parts.
#[derive(Debug)]
pub struct RawMail {
    pub headers: Vec<(String, String)>,
    pub root: MailPart,
}

/// `mailparse::ParsedMail`: a message, or a part of one, as the crate
/// holds it after parsing.
#[verifier::external_type_specification]
#[verifier::external_body]
pub struct ExParsedMail<'a>(mailparse::ParsedMail<'a>);

/// What the bytes of a message are as a mail; none where they are no mail.
pub uninterp spec fn mime_parsed(raw: Seq<u8>) -> Option<RawMail>;

/// Copies a part as `mailparse` holds it: the media type of its content
/// type, what `ParsedMail::get_body` gives where it succeeds, and its
/// subparts, copied in the same way.
#[verifier::external_body]
fn part_of(parsed: &mailparse::ParsedMail) -> (part: MailPart) {
    MailPart {
        mimetype: parsed.ctype.mimetype.clone(),
        body: parsed.get_body().ok(),
        subparts: parsed.subparts.iter().map(part_of).collect(),
    }
}

/// `mailparse::parse_mail` parses the bytes of a message; of the result this
/// keeps what `get_key` and `get_value` give for each header, and the parts.
#[verifier::external_body]
fn parse_mime(raw: &[u8]) -> (mail: Option<RawMail>)
    ensures
        mail == mime_parsed(raw@),
{
    let parsed = mailparse::parse_mail(raw).ok()?;
    Some(
        RawMail {
            headers: parsed.headers.iter().map(|header| (header.get_key(), header.get_value()))
                .collect(),
            root: part_of(&parsed),
        },
    )
}

/// The moment that a date in the form of RFC 2822 names, in seconds since
/// the start of 1970; none where the text is no such date.
pub uninterp spec fn rfc2822_seconds(date: Seq<char>) -> Option<i64>;

/// `chrono::DateTime::parse_from_rfc2822` reads the date and `timestamp`
/// gives its seconds since the start of 1970.
#[verifier::external_body]
fn parse_date(date: &str) -> (seconds: Option<i64>)
    ensures
        seconds == rfc2822_seconds(date@),
{
    chrono::DateTime::parse_from_rfc2822(date).ok().map(|moment| moment.timestamp())
}

/// The 64-bit xxHash, with seed zero, of the four texts fed to it in this
/// order as strings are hashed.
pub uninterp spec fn xxhash64_of(
    subject: Seq<char>,
    sender: Seq<char>,
    text_body: Seq<char>,
    html_body: Seq<char>,
) -> u64;

/// `twox_hash::XxHash64::default` starts a hasher with seed zero; each text
/// is fed to it through `Hash::hash`, and `Hasher::finish` gives the hash.
#[verifier::external_body]
fn xxhash64(subject: &str, sender: &str, text_body: &str, html_body: &str) -> (hash: u64)
    ensures
        hash == xxhash64_of(subject@, sender@, text_body@, html_body@),
{
    let mut hasher = twox_hash::XxHash64::default();
    subject.hash(&mut hasher);
    sender.hash(&mut hasher);
    text_body.hash(&mut hasher);
    html_body.hash(&mut hasher);
    hasher.finish()
}

/// What the listener keeps of a mail. `date` counts seconds since the start
/// of 1970.
#[derive(Debug)]
pub struct MailData {
    pub subject: String,
    pub sender: String,
    pub date: i64,
    pub text_body: String,
    pub html_body: String,
}

/// The mathematical value of [`MailData`].
pub ghost struct MailDataView {
    pub subject: Seq<char>,
    pub sender: Seq<char>,
    pub date: i64,
    pub text_body: Seq<char>,
    pub html_body: Seq<char>,
}

impl DeepView for MailData {
    type V = MailDataView;

    open spec fn deep_view(&self) -> MailDataView {
        MailDataView {
            subject: self.subject@,
            sender: self.sender@,
            date: self.date,
            text_body: self.text_body@,
            html_body: self.html_body@,
        }
    }
}

impl MailData {
    /// The fingerprint of the mail: a hash of its subject, sender, plain text
    /// and HTML text, in this order.
    pub fn calculate_hash(&self) -> (hash: u64)
        ensures
            hash == fingerprint(self.deep_view()),
    {
        xxhash64(
            self.subject.as_str(),
            self.sender.as_str(),
            self.text_body.as_str(),
            self.html_body.as_str(),
        )
    }
}

/// The pattern that finds an address in angle brackets.
pub open spec fn sender_pattern() -> Seq<char> {
    "<(.*?)>"@
}

/// The value of the first of `headers` with the name `name`, whatever the
/// case of its letters; none where no header has the name.
pub open spec fn header_value(headers: Seq<(Seq<char>, Seq<char>)>, name: Seq<char>) -> Option<
    Seq<char>,
>
    decreases headers.len(),
{
    if headers.len() == 0 {
        None
    } else if same_but_case(headers[0].0, name) {
        Some(headers[0].1)
    } else {
        header_value(headers.drop_first(), name)
    }
}

/// The value of the first of `headers` with the name `name`.
pub fn get_first_value(headers: &Vec<(String, String)>, name: &str) -> (value: Option<String>)
    ensures
        value.deep_view() == header_value(headers.deep_view(), name@),
{
    let ghost all = headers.deep_view();
    let mut i: usize = 0;
    assert(all.subrange(0, all.len() as int) =~= all);
    while i < headers.len()
        invariant
            i <= headers.len(),
            all == headers.deep_view(),
            header_value(all, name@) == header_value(
                all.subrange(i as int, all.len() as int),
                name@,
            ),
        decreases headers.len() - i,
    {
        let ghost rest = all.subrange(i as int, all.len() as int);
        assert(rest[0] == all[i as int]);
        assert(all[i as int] == (headers[i as int].0@, headers[i as int].1@));
        assert(rest.drop_first() =~= all.subrange(i + 1, all.len() as int));
        if same_text_but_case(headers[i].0.as_str(), name) {
            return Some(headers[i].1.clone());
        }
        i += 1;
    }
    None
}

/// A header's value, or `fallback` where the mail has no such header.
pub open spec fn header_or(value: Option<Seq<char>>, fallback: Seq<char>) -> Seq<char> {
    match value {
        Some(v) => v,
        None => fallback,
    }
}

/// The sender of a mail: the address in angle brackets where the From header
/// holds one, else the header as it stands.
pub open spec fn sender_of(from: Seq<char>, bracketed: Option<Seq<char>>) -> Seq<char> {
    match bracketed {
        Some(address) => address,
        None => from,
    }
}

/// The From header of a mail as the sender is read from it.
pub open spec fn from_header(mail: RawMail) -> Seq<char> {
    header_or(header_value(mail.headers.deep_view(), "From"@), "No sender"@)
}

/// What the listener keeps of the mail `mail`, where `bracketed` is the
/// address found in angle brackets in its From header, `date` the moment that
/// its Date header names and `received` the moment of receipt, which stands
/// in for a date that is missing or cannot be read.
pub open spec fn mail_data_of(
    mail: RawMail,
    bracketed: Option<Seq<char>>,
    date: Option<i64>,
    received: i64,
) -> MailDataView {
    MailDataView {
        subject: header_or(header_value(mail.headers.deep_view(), "Subject"@), "No subject"@),
        sender: sender_of(from_header(mail), bracketed),
        date: match date {
            Some(seconds) => seconds,
            None => received,
        },
        text_body: bodies_of(mail.root).text,
        html_body: bodies_of(mail.root).html,
    }
}

/// What the listener keeps of the message with the bytes `raw`, received at
/// `received`; nothing where the bytes are no mail.
pub open spec fn forwarded(raw: Seq<u8>, received: i64) -> Option<MailDataView> {
    match mime_parsed(raw) {
        Some(mail) => Some(
            mail_data_of(
                mail,
                first_group_match(sender_pattern(), from_header(mail)),
                match header_value(mail.headers.deep_view(), "Date"@) {
                    Some(date) => rfc2822_seconds(date),
                    None => None,
                },
                received,
            ),
        ),
        None => None,
    }
}

/// Puts together what the listener keeps of a parsed mail.
pub fn assemble_mail(
    mail: RawMail,
    bracketed: Option<String>,
    date: Option<i64>,
    received: i64,
) -> (data: MailData)
    ensures
        data.deep_view() == mail_data_of(mail, bracketed.deep_view(), date, received),
{
    let (text_body, html_body) = extract_bodies(&mail.root);
    let subject = match get_first_value(&mail.headers, "Subject") {
        Some(subject) => subject,
        None => "No subject".to_string(),
    };
    let sender = match bracketed {
        Some(address) => address,
        None => match get_first_value(&mail.headers, "From") {
            Some(from) => from,
            None => "No sender".to_string(),
        },
    };
    let date = match date {
        Some(seconds) => seconds,
        None => received,
    };
    MailData { subject, sender, date, text_body, html_body }
}

/// Reads the raw message `raw`, received at `received`, and gives what the
/// listener keeps of it.
pub fn parse_forward_mail(raw: &[u8], received: i64) -> (data: Option<MailData>)
    ensures
        data.deep_view() == forwarded(raw@, received),
{
    let mail = match parse_mime(raw) {
        Some(mail) => mail,
        None => {
            return None;
        },
    };
    let bracketed = match get_first_value(&mail.headers, "From") {
        Some(from) => first_group("<(.*?)>", from.as_str()),
        None => first_group("<(.*?)>", "No sender"),
    };
    let date = match get_first_value(&mail.headers, "Date") {
        Some(date) => parse_date(date.as_str()),
        None => None,
    };
    Some(assemble_mail(mail, bracketed, date, received))
}

/// The number of fingerprints that the listener remembers.
pub const SEEN_WINDOW: usize = 3;

/// The remembered fingerprints after `hash` was seen: a known one changes
/// nothing; a new one goes to the end, and the oldest leaves where there
/// would be more than three.
pub open spec fn remembered(seen: Seq<u64>, hash: u64) -> Seq<u64> {
    if seen.contains(hash) {
        seen
    } else if seen.len() + 1 > SEEN_WINDOW {
        seen.push(hash).drop_first()
    } else {
        seen.push(hash)
    }
}

/// The fingerprints of the mails seen last, oldest first.
pub struct SeenMails {
    hashes: VecDeque<u64>,
}

impl View for SeenMails {
    type V = Seq<u64>;

    closed spec fn view(&self) -> Seq<u64> {
        self.hashes@
    }
}

impl SeenMails {
    /// The window holds at most three fingerprints. Every window made by
    /// `new` and `observe` is well formed.
    pub open spec fn wf(&self) -> bool {
        self@.len() <= SEEN_WINDOW
    }

    /// No mail seen yet.
    pub fn new() -> (seen: Self)
        ensures
            seen@ == Seq::<u64>::empty(),
            seen.wf(),
    {
        SeenMails { hashes: VecDeque::with_capacity(3) }
    }

    /// Whether `hash` is among the remembered fingerprints.
    pub fn contains(&self, hash: u64) -> (found: bool)
        ensures
            found == self@.contains(hash),
    {
        let mut i: usize = 0;
        while i < self.hashes.len()
            invariant
                i <= self.hashes.len(),
                forall|j: int| 0 <= j < i ==> self.hashes@[j] != hash,
            decreases self.hashes.len() - i,
        {
            if self.hashes[i] == hash {
                return true;
            }
            i += 1;
        }
        false
    }

    /// Takes note of a mail with the fingerprint `hash`, and says whether it
    /// is new: whether no remembered mail has the same fingerprint.
    pub fn observe(&mut self, hash: u64) -> (fresh: bool)
        ensures
            fresh == !old(self)@.contains(hash),
            final(self)@ == remembered(old(self)@, hash),
            old(self).wf() ==> final(self).wf(),
    {
        if self.contains(hash) {
            return false;
        }
        self.hashes.push_back(hash);
        if self.hashes.len() > SEEN_WINDOW {
            let _ = self.hashes.pop_front();
        }
        assert(self@ =~= remembered(old(self)@, hash));
        true
    }
}

/// The window never grows beyond three fingerprints.
pub proof fn lemma_window_bounded(seen: Seq<u64>, hash: u64)
    requires
        seen.len() <= SEEN_WINDOW,
    ensures
        remembered(seen, hash).len() <= SEEN_WINDOW,
{
}

/// A mail is known again while it is among the last three seen: once the
/// fingerprint of a new mail was remembered, it is still remembered after up
/// to two other mails, so a second mail with the same content is not new.
pub proof fn lemma_repeat_is_known(seen: Seq<u64>, hash: u64, second: u64, third: u64)
    requires
        seen.len() <= SEEN_WINDOW,
        !seen.contains(hash),
    ensures
        remembered(seen, hash).contains(hash),
        remembered(remembered(seen, hash), second).contains(hash),
        remembered(remembered(remembered(seen, hash), second), third).contains(hash),
{
    let one = remembered(seen, hash);
    assert(one[one.len() - 1] == hash);
    assert(in_last(one, hash, 1));
    lemma_one_further_back(one, hash, second, 1);
    lemma_one_further_back(remembered(one, second), hash, third, 2);
}

/// A fingerprint among the last `count` of the window is among the last
/// `count + 1` after one more mail was seen.
proof fn lemma_one_further_back(seen: Seq<u64>, hash: u64, next: u64, count: int)
    requires
        seen.len() <= SEEN_WINDOW,
        1 <= count <= 2,
        in_last(seen, hash, count),
    ensures
        remembered(seen, next).len() <= SEEN_WINDOW,
        in_last(remembered(seen, next), hash, count + 1),
        remembered(seen, next).contains(hash),
{
    let after = remembered(seen, next);
    let i = choose|i: int| seen.len() - count <= i < seen.len() && 0 <= i && seen[i] == hash;
    if seen.contains(next) {
        assert(after[i] == hash);
    } else if seen.len() + 1 > SEEN_WINDOW {
        assert(after[i - 1] == hash);
    } else {
        assert(after[i] == hash);
    }
}

/// `hash` is among the last `count` entries of `seen`.
pub open spec fn in_last(seen: Seq<u64>, hash: u64, count: int) -> bool {
    exists|i: int| seen.len() - count <= i < seen.len() && 0 <= i && seen[i] == hash
}

/// A fourth mail pushes the oldest fingerprint out: after four mails that
/// differ from each other and from all that was remembered, the window holds
/// the last three of them and the first is new again.
pub proof fn lemma_fourth_evicts_oldest(seen: Seq<u64>, a: u64, b: u64, c: u64, d: u64)
    requires
        seen.len() <= SEEN_WINDOW,
        !seen.contains(a) && !seen.contains(b) && !seen.contains(c) && !seen.contains(d),
        a != b && a != c && a != d && b != c && b != d && c != d,
    ensures
        remembered(remembered(remembered(remembered(seen, a), b), c), d) == seq![b, c, d],
        !remembered(remembered(remembered(remembered(seen, a), b), c), d).contains(a),
{
    let one = remembered(seen, a);
    lemma_tail_after(seen, a);
    let two = remembered(one, b);
    assert(!one.contains(b)) by {
        lemma_members_after(seen, a, b);
    }
    lemma_tail_after(one, b);
    assert(!two.contains(c)) by {
        lemma_members_after(seen, a, c);
        lemma_members_after(one, b, c);
    }
    let three = remembered(two, c);
    lemma_tail_after(two, c);
    assert(!three.contains(d)) by {
        lemma_members_after(seen, a, d);
        lemma_members_after(one, b, d);
        lemma_members_after(two, c, d);
    }
    let four = remembered(three, d);
    lemma_tail_after(three, d);
    assert(one.len() >= 1 && one.last() == a);
    assert(two.len() >= 2 && two[two.len() - 2] == a && two.last() == b);
    assert(three.len() == 3 && three[0] == a && three[1] == b && three[2] == c);
    assert(four =~= seq![b, c, d]);
}

/// After a new fingerprint was seen it is the last one, and the ones before
/// it are the last of those remembered before, in their order.
proof fn lemma_tail_after(seen: Seq<u64>, hash: u64)
    requires
        seen.len() <= SEEN_WINDOW,
        !seen.contains(hash),
    ensures
        seen.len() == SEEN_WINDOW ==> remembered(seen, hash).len() == SEEN_WINDOW,
        seen.len() < SEEN_WINDOW ==> remembered(seen, hash).len() == seen.len() + 1,
        remembered(seen, hash).last() == hash,
        forall|k: int|
            1 <= k < remembered(seen, hash).len() ==> #[trigger] remembered(
                seen,
                hash,
            )[remembered(seen, hash).len() - 1 - k] == seen[seen.len() - k],
{
}

/// Whatever is remembered after a mail was seen was remembered before or is
/// that mail's fingerprint.
proof fn lemma_members_after(seen: Seq<u64>, hash: u64, other: u64)
    requires
        !seen.contains(other),
        other != hash,
    ensures
        !remembered(seen, hash).contains(other),
{
    let after = remembered(seen, hash);
    if after.contains(other) {
        let i = choose|i: int| 0 <= i < after.len() && after[i] == other;
        if seen.contains(hash) {
        } else if seen.len() + 1 > SEEN_WINDOW {
            assert(seen.push(hash)[i + 1] == other);
            assert(seen[i + 1] == other);
        } else {
            assert(seen[i] == other);
        }
    }
}

/// The reader that a mailbox is configured with.
#[derive(Debug)]
pub enum SchemaParser {
    SecurCad(SecurCadParser),
    Plaintext(PlaintextParser),
    Mock(MockParser),
}

impl MailParser for SchemaParser {
    open spec fn reading(
        &self,
        text_body: Seq<char>,
        html_body: Seq<char>,
        alarm: AlarmView,
        config: MailConfig,
    ) -> Reading {
        match self {
            SchemaParser::SecurCad(parser) => parser.reading(text_body, html_body, alarm, config),
            SchemaParser::Plaintext(parser) => parser.reading(text_body, html_body, alarm, config),
            SchemaParser::Mock(parser) => parser.reading(text_body, html_body, alarm, config),
        }
    }

    fn parse(&self, text_body: &str, html_body: &str, alarm: &mut Alarm, config: &MailConfig) -> (result:
        Result<String, ParseError>) {
        match self {
            SchemaParser::SecurCad(parser) => parser.parse(text_body, html_body, alarm, config),
            SchemaParser::Plaintext(parser) => parser.parse(text_body, html_body, alarm, config),
            SchemaParser::Mock(parser) => parser.parse(text_body, html_body, alarm, config),
        }
    }
}

/// The reader for the format with the name `schema`; an unknown name gets
/// the reader that reads nothing.
pub open spec fn parser_for(schema: Seq<char>) -> SchemaParser {
    if schema == "SL-securCAD"@ {
        SchemaParser::SecurCad(SecurCadParser)
    } else if schema == "Plaintext"@ {
        SchemaParser::Plaintext(PlaintextParser)
    } else {
        SchemaParser::Mock(MockParser)
    }
}

/// Whether a text passes a filter: the filter is `*` or the text itself.
pub open spec fn passes(filter: Seq<char>, text: Seq<char>) -> bool {
    filter == "*"@ || text == filter
}

/// Whether a mail of the date `date` is older at `now` than `max_age`
/// seconds allow; a limit of zero allows every age.
pub open spec fn too_old(max_age: u64, date: i64, now: i64) -> bool {
    max_age > 0 && now - date > max_age
}

/// Whether the mailbox takes a mail for an alarm: subject and sender pass
/// their filters and the mail is not too old.
pub open spec fn accepted(config: MailConfig, mail: MailDataView, now: i64) -> bool {
    &&& passes(config.alarm_subject@, mail.subject)
    &&& passes(config.alarm_sender@, mail.sender)
    &&& !too_old(config.max_age, mail.date, now)
}

/// The alarm that a mailbox starts from: raised at `time`, with the mailbox
/// as its origin and its only source.
pub open spec fn alarm_from(name: Seq<char>, time: u64) -> AlarmView {
    AlarmView { origin: name, alarm_sources: seq![name], ..empty_alarm(time) }
}

/// The alarm that the mailbox publishes for a mail, if any: none for a mail
/// that is not accepted or that the reader cannot read.
pub open spec fn alarm_of_mail(
    parser: SchemaParser,
    config: MailConfig,
    mail: MailDataView,
    now: i64,
    time: u64,
) -> Option<AlarmView> {
    let reading = parser.reading(
        mail.text_body,
        mail.html_body,
        alarm_from(config.name@, time),
        config,
    );
    if accepted(config, mail, now) && reading.summary is Ok {
        Some(reading.alarm)
    } else {
        None
    }
}

/// One mailbox: its configuration, its reader and the mails seen last.
pub struct MailHandler {
    pub config: MailConfig,
    pub debug: bool,
    pub mailparser: SchemaParser,
    pub seen_mails: SeenMails,
}

/// The fingerprint of a mail.
pub open spec fn fingerprint(mail: MailDataView) -> u64 {
    xxhash64_of(mail.subject, mail.sender, mail.text_body, mail.html_body)
}

/// The alarm that a listener publishes for a mail that reaches it, if any:
/// none for a mail whose fingerprint it remembers, else what the mailbox
/// makes of the mail.
pub open spec fn published(handler: MailHandler, mail: MailDataView, now: i64, time: u64)
    -> Option<AlarmView> {
    if handler.seen_mails@.contains(fingerprint(mail)) {
        None
    } else {
        alarm_of_mail(handler.mailparser, handler.config, mail, now, time)
    }
}

fn passes_filter(filter: &str, text: &str) -> (ok: bool)
    ensures
        ok == passes(filter@, text@),
{
    same_text(filter, "*") || same_text(text, filter)
}

fn is_too_old(max_age: u64, date: i64, now: i64) -> (old: bool)
    ensures
        old == too_old(max_age, date, now),
{
    if max_age == 0 {
        return false;
    }
    let age: i128 = (now as i128) - (date as i128);
    age > max_age as i128
}

impl MailHandler {
    /// A listener for the mailbox that `config` describes, with the reader
    /// that its format calls for and no mail seen yet.
    pub fn new(config: MailConfig, debug: bool) -> (handler: MailHandler)
        ensures
            handler.config == config,
            handler.debug == debug,
            handler.mailparser == parser_for(config.mail_schema@),
            handler.seen_mails@ == Seq::<u64>::empty(),
            handler.seen_mails.wf(),
    {
        let mailparser = if same_text(config.mail_schema.as_str(), "SL-securCAD") {
            SchemaParser::SecurCad(SecurCadParser)
        } else if same_text(config.mail_schema.as_str(), "Plaintext") {
            SchemaParser::Plaintext(PlaintextParser)
        } else {
            SchemaParser::Mock(MockParser)
        };
        MailHandler { config, debug, mailparser, seen_mails: SeenMails::new() }
    }

    /// Checks a mail against the filters of the mailbox and reads it. Gives
    /// the alarm to publish, raised at `time`; none where the mail is
    /// rejected at `now` or cannot be read.
    pub fn handle_mail(&self, mail_data: &MailData, now: i64, time: u64) -> (alarm: Option<Alarm>)
        ensures
            alarm matches Some(a) ==> a.receiver.wf(),
            match alarm {
                Some(a) => alarm_of_mail(
                    self.mailparser,
                    self.config,
                    mail_data.deep_view(),
                    now,
                    time,
                ) == Some(a@),
                None => alarm_of_mail(
                    self.mailparser,
                    self.config,
                    mail_data.deep_view(),
                    now,
                    time,
                ) is None,
            },
    {
        if !passes_filter(self.config.alarm_subject.as_str(), mail_data.subject.as_str()) {
            return None;
        }
        if !passes_filter(self.config.alarm_sender.as_str(), mail_data.sender.as_str()) {
            return None;
        }
        if is_too_old(self.config.max_age, mail_data.date, now) {
            return None;
        }
        let mut alarm = Alarm::new(time);
        alarm.alarm_source(self.config.name.clone());
        alarm.set_origin(self.config.name.clone());
        assert(alarm@.alarm_sources =~= seq![self.config.name@]);
        assert(alarm@ == alarm_from(self.config.name@, time));
        match self.mailparser.parse(
            mail_data.text_body.as_str(),
            mail_data.html_body.as_str(),
            &mut alarm,
            &self.config,
        ) {
            Ok(_) => Some(alarm),
            Err(_) => None,
        }
    }

    /// Takes one mail from the mailbox: a mail whose fingerprint is among
    /// those seen last is passed over; any other is remembered and handled.
    pub fn process_mail(&mut self, mail_data: &MailData, now: i64, time: u64) -> (alarm: Option<
        Alarm,
    >)
        ensures
            final(self).config == old(self).config,
            final(self).mailparser == old(self).mailparser,
            final(self).debug == old(self).debug,
            final(self).seen_mails@ == remembered(
                old(self).seen_mails@,
                fingerprint(mail_data.deep_view()),
            ),
            old(self).seen_mails.wf() ==> final(self).seen_mails.wf(),
            alarm matches Some(a) ==> a.receiver.wf(),
            match alarm {
                Some(a) => published(*old(self), mail_data.deep_view(), now, time) == Some(a@),
                None => published(*old(self), mail_data.deep_view(), now, time) is None,
            },
    {
        let hash = mail_data.calculate_hash();
        if !self.seen_mails.observe(hash) {
            return None;
        }
        self.handle_mail(mail_data, now, time)
    }
}

/// Of two mails with the same subject, sender and texts, whatever their
/// dates, that reach a listener with at most two other mails between them,
/// only the first is published: a listener that took the first as a new mail
/// and then up to two others publishes nothing for the second.
pub proof fn lemma_duplicate_not_published(
    handler: MailHandler,
    seen: Seq<u64>,
    mail: MailDataView,
    copy: MailDataView,
    second: u64,
    third: u64,
    now: i64,
    time: u64,
)
    requires
        seen.len() <= SEEN_WINDOW,
        !seen.contains(fingerprint(mail)),
        copy.subject == mail.subject,
        copy.sender == mail.sender,
        copy.text_body == mail.text_body,
        copy.html_body == mail.html_body,
        handler.seen_mails@ == remembered(seen, fingerprint(mail)) || handler.seen_mails@
            == remembered(remembered(seen, fingerprint(mail)), second) || handler.seen_mails@
            == remembered(remembered(remembered(seen, fingerprint(mail)), second), third),
    ensures
        fingerprint(copy) == fingerprint(mail),
        published(handler, copy, now, time) is None,
{
    lemma_repeat_is_known(seen, fingerprint(mail), second, third);
}

/// What the push loop does once its wait has ended.
#[derive(Debug, Clone, Copy, PartialEq, Eq, Structural)]
pub enum IdleAction {
    /// Wait again.
    Rearm,
    /// Fetch the message with this number, then wait again.
    Fetch(u32),
}

/// The push loop's note of the message that the server announced during
/// the running wait.
pub struct IdleWatch {
    pub new_mail_id: Option<u32>,
}

impl IdleWatch {
    /// The note at the start of a wait: nothing announced.
    pub fn new() -> (watch: Self)
        ensures
            watch.new_mail_id is None,
    {
        IdleWatch { new_mail_id: None }
    }

    /// Takes one response of the server during the wait: `announced` holds
    /// the number of the message where the response announces one. Says
    /// whether to go on waiting: the announcement of a message ends the wait
    /// and is noted, any other response changes nothing.
    pub fn on_response(&mut self, announced: Option<u32>) -> (keep_waiting: bool)
        ensures
            keep_waiting == (announced is None),
            final(self).new_mail_id == match announced {
                Some(id) => Some(id),
                None => old(self).new_mail_id,
            },
    {
        match announced {
            Some(id) => {
                self.new_mail_id = Some(id);
                false
            },
            None => true,
        }
    }

    /// What to do after the wait has ended, successfully or not: the
    /// announced message is fetched where the wait ended well; in every
    /// other case the loop waits again.
    pub fn after_wait(&self, wait_ok: bool) -> (action: IdleAction)
        ensures
            action == match self.new_mail_id {
                Some(id) => if wait_ok {
                    IdleAction::Fetch(id)
                } else {
                    IdleAction::Rearm
                },
                None => IdleAction::Rearm,
            },
    {
        match self.new_mail_id {
            Some(id) => {
                if wait_ok {
                    IdleAction::Fetch(id)
                } else {
                    IdleAction::Rearm
                }
            },
            None => IdleAction::Rearm,
        }
    }
}

/// The identifiers among the first `n` of `unseen` that are to be fetched:
/// those that are not in `processed` and did not occur earlier in `unseen`.
pub open spec fn to_fetch(unseen: Seq<u32>, processed: Seq<u32>, n: int) -> Seq<u32>
    decreases n,
{
    if n <= 0 {
        Seq::empty()
    } else {
        let before = to_fetch(unseen, processed, n - 1);
        if processed.contains(unseen[n - 1]) || before.contains(unseen[n - 1]) {
            before
        } else {
            before.push(unseen[n - 1])
        }
    }
}

fn holds(list: &Vec<u32>, id: u32) -> (found: bool)
    ensures
        found == list@.contains(id),
{
    let mut i: usize = 0;
    while i < list.len()
        invariant
            i <= list.len(),
            forall|j: int| 0 <= j < i ==> list@[j] != id,
        decreases list.len() - i,
    {
        if list[i] == id {
            return true;
        }
        i += 1;
    }
    false
}

/// The poll loop's memory of the messages that it has fetched.
pub struct PollState {
    pub processed: Vec<u32>,
}

impl PollState {
    /// Nothing fetched yet.
    pub fn new() -> (state: Self)
        ensures
            state.processed@ == Seq::<u32>::empty(),
    {
        PollState { processed: Vec::new() }
    }

    /// Of the unseen messages that the mailbox lists, those to fetch now:
    /// each one that was not fetched before, once, in the listed order.
    pub fn pending(&self, unseen: &Vec<u32>) -> (ids: Vec<u32>)
        ensures
            ids@ == to_fetch(unseen@, self.processed@, unseen@.len() as int),
    {
        let mut ids: Vec<u32> = Vec::new();
        let mut i: usize = 0;
        while i < unseen.len()
            invariant
                i <= unseen.len(),
                ids@ == to_fetch(unseen@, self.processed@, i as int),
            decreases unseen.len() - i,
        {
            let id = unseen[i];
            if !holds(&self.processed, id) && !holds(&ids, id) {
                ids.push(id);
            }
            i += 1;
        }
        ids
    }

    /// Notes that the message `id` was fetched.
    pub fn mark_processed(&mut self, id: u32)
        ensures
            final(self).processed@ == if old(self).processed@.contains(id) {
                old(self).processed@
            } else {
                old(self).processed@.push(id)
            },
    {
        if !holds(&self.processed, id) {
            self.processed.push(id);
        }
    }
}

/// A list with one more entry holds what it held before and that entry.
proof fn lemma_push_contains(list: Seq<u32>, added: u32, id: u32)
    ensures
        list.push(added).contains(id) <==> (list.contains(id) || id == added),
{
    let longer = list.push(added);
    if list.contains(id) {
        let k = choose|k: int| 0 <= k < list.len() && list[k] == id;
        assert(longer[k] == id);
    }
    if id == added {
        assert(longer[list.len() as int] == id);
    }
}

/// No message is fetched twice: what is to be fetched holds no message that
/// was fetched before and no message twice, and every listed message that
/// was not fetched before is among it.
pub proof fn lemma_to_fetch(unseen: Seq<u32>, processed: Seq<u32>, n: int)
    requires
        0 <= n <= unseen.len(),
    ensures
        to_fetch(unseen, processed, n).no_duplicates(),
        forall|id: u32|
            #[trigger] to_fetch(unseen, processed, n).contains(id) <==> (unseen.subrange(
                0,
                n,
            ).contains(id) && !processed.contains(id)),
    decreases n,
{
    if n > 0 {
        lemma_to_fetch(unseen, processed, n - 1);
        let before = to_fetch(unseen, processed, n - 1);
        let after = to_fetch(unseen, processed, n);
        let last = unseen[n - 1];
        let listed = unseen.subrange(0, n - 1);
        assert(unseen.subrange(0, n) =~= listed.push(last));
        assert forall|id: u32|
            #[trigger] after.contains(id) <==> (unseen.subrange(0, n).contains(id)
                && !processed.contains(id)) by {
            lemma_push_contains(listed, last, id);
            lemma_push_contains(before, last, id);
            assert(before.contains(id) <==> (listed.contains(id) && !processed.contains(id)));
            assert(before.contains(last) <==> (listed.contains(last) && !processed.contains(
                last,
            )));
        }
    } else {
        assert(unseen.subrange(0, 0) =~= Seq::<u32>::empty());
    }
}

} // verus!
