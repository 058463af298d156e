//! Messages to members through a chat bot.
use vstd::prelude::*;
use vstd::string::StringExecFns;
use vstd::utf8::encode_utf8;
use crate::alarm::{receivers_of, Alarm, AlarmView};
use crate::apis::{append_location, location_suffix, Request, RequestView};
use crate::text::chars_of;

verus! {

/// The characters that the chat's markup gives a meaning to.
pub open spec fn is_markup(c: char) -> bool {
    c == '\\' || c == '*' || c == '_' || c == '[' || c == ']' || c == '(' || c == ')' || c == '~'
        || c == '`' || c == '>' || c == '#' || c == '+' || c == '-' || c == '=' || c == '|' || c
        == '{' || c == '}' || c == '.' || c == '!'
}

/// `text` with a backslash before each character that the markup gives a
/// meaning to.
pub open spec fn escaped_markdown(text: Seq<char>) -> Seq<char>
    decreases text.len(),
{
    if text.len() == 0 {
        Seq::empty()
    } else if is_markup(text.last()) {
        escaped_markdown(text.drop_last()).push('\\').push(text.last())
    } else {
        escaped_markdown(text.drop_last()).push(text.last())
    }
}

fn markup(c: char) -> (r: bool)
    ensures
        r == is_markup(c),
{
    c == '\\' || c == '*' || c == '_' || c == '[' || c == ']' || c == '(' || c == ')' || c == '~'
        || c == '`' || c == '>' || c == '#' || c == '+' || c == '-' || c == '=' || c == '|' || c
        == '{' || c == '}' || c == '.' || c == '!'
}

/// Escapes `text` for the chat's markup.
pub fn escape_markdown_v2(text: &str) -> (out: String)
    ensures
        out@ == escaped_markdown(text@),
{
    let chars = chars_of(text);
    let mut out = String::new();
    let mut i: usize = 0;
    while i < chars.len()
        invariant
            i <= chars.len(),
            chars@ == text@,
            out@ == escaped_markdown(chars@.subrange(0, i as int)),
        decreases chars.len() - i,
    {
        let c = chars[i];
        proof {
            let next = chars@.subrange(0, i + 1);
            assert(next.drop_last() =~= chars@.subrange(0, i as int));
            assert(next.last() == c);
        }
        if markup(c) {
            out.push('\\');
        }
        out.push(c);
        i += 1;
    }
    assert(chars@.subrange(0, chars.len() as int) =~= chars@);
    out
}

/// The bytes that stand for themselves in an address: letters, digits and
/// `-`, `.`, `_`, `~`.
pub open spec fn is_unreserved(b: u8) -> bool {
    (0x30 <= b <= 0x39) || (0x41 <= b <= 0x5a) || (0x61 <= b <= 0x7a) || b == 0x2d || b == 0x2e
        || b == 0x5f || b == 0x7e
}

/// The upper-case hexadecimal digit of a value below sixteen.
pub open spec fn hex_digit(d: u8) -> char {
    if d < 10 {
        ((0x30 + d) as u8) as char
    } else {
        ((0x41 - 10 + d) as u8) as char
    }
}

/// One byte as it stands in an address: itself, or a percent sign and its two
/// hexadecimal digits.
pub open spec fn percent_byte(b: u8) -> Seq<char> {
    if is_unreserved(b) {
        seq![b as char]
    } else {
        seq!['%', hex_digit(b >> 4), hex_digit(b & 15)]
    }
}

/// Bytes as they stand in an address.
pub open spec fn percent_encoded(bytes: Seq<u8>) -> Seq<char>
    decreases bytes.len(),
{
    if bytes.len() == 0 {
        Seq::empty()
    } else {
        percent_encoded(bytes.drop_last()) + percent_byte(bytes.last())
    }
}

/// `urlencoding::encode` percent-encodes every byte of the text's UTF-8 form
/// except letters, digits and `-`, `.`, `_`, `~`, with upper-case digits.
#[verifier::external_body]
fn url_encode(text: &str) -> (out: String)
    ensures
        out@ == percent_encoded(encode_utf8(text@)),
{
    urlencoding::encode(text).into_owned()
}

/// A chat bot that writes to each member of its receivers.
#[derive(Debug)]
pub struct Telegram {
    pub name: String,
    pub bot_token: String,
}

/// The message that the bot sends for `alarm`: the title in bold, the text
/// and the place, escaped as a whole.
pub open spec fn message_text(alarm: AlarmView) -> Seq<char> {
    escaped_markdown(
        "*"@ + escaped_markdown(alarm.title) + "*\n"@ + alarm.text + location_suffix(alarm.address),
    )
}

/// The address that sends `text` to the chat `chat` with the bot of `token`.
pub open spec fn send_message_url(token: Seq<char>, chat: Seq<char>, text: Seq<char>) -> Seq<
    char,
> {
    "https://api.telegram.org/bot"@ + token + "/sendMessage?chat_id="@ + chat + "&text="@
        + percent_encoded(encode_utf8(text)) + "&parse_mode=MarkdownV2"@
}

impl Telegram {
    /// The message for `alarm`.
    pub fn message(&self, alarm: &Alarm) -> (text: String)
        ensures
            text@ == message_text(alarm@),
    {
        let mut text = String::new();
        text.append("*");
        let title = escape_markdown_v2(alarm.title.as_str());
        text.append(title.as_str());
        text.append("*\n");
        text.append(alarm.text.as_str());
        assert(text@ =~= "*"@ + escaped_markdown(alarm@.title) + "*\n"@ + alarm@.text);
        append_location(&mut text, &alarm.address);
        escape_markdown_v2(text.as_str())
    }

    /// The address that sends `text` to `chat`.
    pub fn url(&self, chat: &str, text: &str) -> (url: String)
        ensures
            url@ == send_message_url(self.bot_token@, chat@, text@),
    {
        let mut url = String::new();
        url.append("https://api.telegram.org/bot");
        url.append(self.bot_token.as_str());
        url.append("/sendMessage?chat_id=");
        url.append(chat);
        url.append("&text=");
        let encoded = url_encode(text);
        url.append(encoded.as_str());
        url.append("&parse_mode=MarkdownV2");
        assert(url@ =~= send_message_url(self.bot_token@, chat@, text@));
        url
    }

    /// What is sent for a first alarm: the message, once to each member that
    /// the alarm has resolved for this bot, in their order.
    pub fn trigger_alarm(&self, alarm: &Alarm) -> (requests: Vec<Request>)
        ensures
            requests.deep_view() == Seq::new(
                receivers_of(alarm@, self.name@).members.len(),
                |i: int|
                    RequestView::Get(
                        send_message_url(
                            self.bot_token@,
                            receivers_of(alarm@, self.name@).members[i],
                            message_text(alarm@),
                        ),
                    ),
            ),
    {
        let receivers = alarm.get_receivers(self.name.as_str());
        let text = self.message(alarm);
        let mut requests: Vec<Request> = Vec::new();
        let mut i: usize = 0;
        while i < receivers.members.len()
            invariant
                i <= receivers.members.len(),
                receivers.deep_view() == receivers_of(alarm@, self.name@),
                text@ == message_text(alarm@),
                requests.len() == i,
                forall|j: int|
                    0 <= j < i ==> #[trigger] requests[j].deep_view() == RequestView::Get(
                        send_message_url(
                            self.bot_token@,
                            receivers.members.deep_view()[j],
                            text@,
                        ),
                    ),
            decreases receivers.members.len() - i,
        {
            let url = self.url(receivers.members[i].as_str(), text.as_str());
            requests.push(Request::Get(url));
            i += 1;
        }
        assert(requests.deep_view() =~= Seq::new(
            receivers_of(alarm@, self.name@).members.len(),
            |i: int|
                RequestView::Get(
                    send_message_url(
                        self.bot_token@,
                        receivers_of(alarm@, self.name@).members[i],
                        message_text(alarm@),
                    ),
                ),
        ));
        requests
    }

    /// What is sent for an update: nothing.
    pub fn update_alarm(&self, _alarm: &Alarm) -> (requests: Vec<Request>)
        ensures
            requests.deep_view() == Seq::<RequestView>::empty(),
    {
        let requests: Vec<Request> = Vec::new();
        assert(requests.deep_view() =~= Seq::<RequestView>::empty());
        requests
    }
}

} // verus!
