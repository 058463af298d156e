//! The pager listener: from the bytes of a serial device to an alarm.
use vstd::prelude::*;
use vstd::string::StrSliceExecFns;
use vstd::utf8::encode_utf8;
use crate::alarm::{empty_alarm, Alarm, AlarmView, DmeData, DmeDataView};
use crate::config::alarm_sources::SerialConfig;
use crate::text::{chars_of, contains_text, has_part, text_lines, trimmed_lines};

verus! {

/// The text that bytes stand for in ISO 8859-2, as a decoder reads them that
/// takes a byte order mark at the start for a sign of Unicode.
pub uninterp spec fn iso_8859_2_text(bytes: Seq<u8>) -> Seq<char>;

/// The greatest number of bytes that a frame can have.
pub const MAX_FRAME: usize = usize::MAX / 4;

/// `encoding_rs::ISO_8859_2.decode` decodes the whole input; it panics only
/// where three times the length does not fit the machine's word.
#[verifier::external_body]
fn decode_iso_8859_2(bytes: &[u8]) -> (text: String)
    requires
        bytes@.len() <= MAX_FRAME,
    ensures
        text@ == iso_8859_2_text(bytes@),
{
    encoding_rs::ISO_8859_2.decode(bytes).0.into_owned()
}

/// `s` with every pair of the characters `first`, `second` replaced by the
/// character `by`, from the left, each character taken once.
pub open spec fn with_pair_replaced(s: Seq<char>, first: char, second: char, by: char) -> Seq<char>
    decreases s.len(),
{
    if s.len() == 0 {
        Seq::empty()
    } else if s.len() >= 2 && s[0] == first && s[1] == second {
        seq![by] + with_pair_replaced(s.skip(2), first, second, by)
    } else {
        seq![s[0]] + with_pair_replaced(s.drop_first(), first, second, by)
    }
}

/// A delimiter as it is meant: with `\r` read as a carriage return, then `\n`
/// as a line feed, then `\0` as the character zero.
pub open spec fn unescaped(s: Seq<char>) -> Seq<char> {
    with_pair_replaced(
        with_pair_replaced(with_pair_replaced(s, '\\', 'r', '\r'), '\\', 'n', '\n'),
        '\\',
        '0',
        '\0',
    )
}

fn replace_pair(chars: &Vec<char>, first: char, second: char, by: char) -> (out: Vec<char>)
    ensures
        out@ == with_pair_replaced(chars@, first, second, by),
{
    let n = chars.len();
    let mut out: Vec<char> = Vec::new();
    let mut i: usize = 0;
    assert(chars@.subrange(0, n as int) =~= chars@);
    while i < n
        invariant
            i <= n,
            n == chars.len(),
            with_pair_replaced(chars@, first, second, by) == out@ + with_pair_replaced(
                chars@.subrange(i as int, n as int),
                first,
                second,
                by,
            ),
        decreases n - i,
    {
        let ghost rest = chars@.subrange(i as int, n as int);
        let ghost before = out@;
        assert(rest[0] == chars@[i as int]);
        if i + 1 < n && chars[i] == first && chars[i + 1] == second {
            assert(rest[1] == chars@[i + 1]);
            assert(rest.skip(2) =~= chars@.subrange(i + 2, n as int));
            out.push(by);
            i += 2;
            assert(out@ + with_pair_replaced(chars@.subrange(i as int, n as int), first, second, by)
                =~= before + (seq![by] + with_pair_replaced(rest.skip(2), first, second, by)));
        } else {
            proof {
                if rest.len() >= 2 {
                    assert(rest[1] == chars@[i + 1]);
                }
            }
            assert(rest.drop_first() =~= chars@.subrange(i + 1, n as int));
            out.push(chars[i]);
            i += 1;
            assert(out@ + with_pair_replaced(chars@.subrange(i as int, n as int), first, second, by)
                =~= before + (seq![rest[0]] + with_pair_replaced(
                rest.drop_first(),
                first,
                second,
                by,
            )));
        }
    }
    assert(chars@.subrange(n as int, n as int) =~= Seq::<char>::empty());
    assert(out@ + Seq::<char>::empty() =~= out@);
    out
}

/// Reads a delimiter as it is meant.
pub fn decode_delimiter(delimiter: &str) -> (out: String)
    ensures
        out@ == unescaped(delimiter@),
{
    let chars = chars_of(delimiter);
    let first = replace_pair(&chars, '\\', 'r', '\r');
    let second = replace_pair(&first, '\\', 'n', '\n');
    let third = replace_pair(&second, '\\', '0', '\0');
    crate::text::string_of(&third)
}

/// Whether `buffer` ends with `end`.
pub open spec fn ends_with(buffer: Seq<u8>, end: Seq<u8>) -> bool {
    end.len() <= buffer.len() && buffer.subrange(buffer.len() - end.len(), buffer.len() as int)
        == end
}

fn buffer_ends_with(buffer: &Vec<u8>, end: &Vec<u8>) -> (found: bool)
    ensures
        found == ends_with(buffer@, end@),
{
    if end.len() > buffer.len() {
        return false;
    }
    let start = buffer.len() - end.len();
    let mut k: usize = 0;
    while k < end.len()
        invariant
            k <= end.len(),
            start + end.len() == buffer.len(),
            forall|j: int| 0 <= j < k ==> buffer@[start + j] == end@[j],
        decreases end.len() - k,
    {
        if buffer[start + k] != end[k] {
            assert(buffer@.subrange(start as int, buffer.len() as int)[k as int] != end@[k as int]);
            return false;
        }
        k += 1;
    }
    assert(buffer@.subrange(start as int, buffer.len() as int) =~= end@);
    true
}

/// The title that the keywords give a content line: the first keyword that
/// stands in the line, or nothing.
pub open spec fn title_for(keywords: Seq<Seq<char>>, content: Seq<char>) -> Seq<char>
    decreases keywords.len(),
{
    if keywords.len() == 0 {
        Seq::empty()
    } else if has_part(content, keywords[0]) {
        keywords[0]
    } else {
        title_for(keywords.drop_first(), content)
    }
}

/// The alarm that a frame with the text `data` makes at the source with
/// the name `name`, raised at `time`; none where the frame has fewer than
/// three lines. The source is the alarm's origin. The first three lines are
/// the date, the radio identifier and the content; the content is the
/// alarm's text.
pub open spec fn alarm_of_frame(
    name: Seq<char>,
    data: Seq<char>,
    keywords: Seq<Seq<char>>,
    time: u64,
) -> Option<AlarmView> {
    let lines = text_lines(data);
    if lines.len() < 3 {
        None
    } else {
        Some(
            AlarmView {
                origin: name,
                dme_data: DmeDataView { date: lines[0], ric: lines[1], content: lines[2] },
                text: lines[2],
                title: title_for(keywords, lines[2]),
                ..empty_alarm(time)
            },
        )
    }
}

/// What the listener does with what it has buffered, `buffer`, when `bytes`
/// arrive: nothing on no bytes; else the bytes join the buffer, and where it
/// then ends with the delimiter the whole is decoded as a frame and the
/// buffer starts anew.
pub open spec fn fed(buffer: Seq<u8>, bytes: Seq<u8>, delimiter: Seq<u8>) -> (Seq<u8>, Option<
    Seq<char>,
>) {
    if bytes.len() == 0 {
        (buffer, None)
    } else if ends_with(buffer + bytes, delimiter) {
        (Seq::empty(), Some(iso_8859_2_text(buffer + bytes)))
    } else {
        (buffer + bytes, None)
    }
}

/// What came of one attempt to read from the device.
#[derive(Debug)]
pub enum ReadEvent {
    /// The bytes that were read.
    Bytes(Vec<u8>),
    /// The read timed out before any byte came.
    TimedOut,
    /// The read failed for another reason.
    Failed,
}

/// What the listener does after one attempt to read.
pub enum SerialAction {
    /// Read again.
    Continue,
    /// Publish the alarm, then read again.
    Publish(Alarm),
    /// Stop listening.
    Stop,
}

/// One serial device: its configuration, the delimiter as bytes and the
/// bytes of the frame that is arriving.
pub struct SerialHandler {
    pub config: SerialConfig,
    pub debug: bool,
    pub delimiter: Vec<u8>,
    pub buffer: Vec<u8>,
}

impl SerialHandler {
    /// A listener for the device that `config` describes, with nothing
    /// buffered.
    pub fn new(config: SerialConfig, debug: bool) -> (handler: Self)
        ensures
            handler.config == config,
            handler.debug == debug,
            handler.delimiter@ == encode_utf8(unescaped(config.delimiter@)),
            handler.buffer@ == Seq::<u8>::empty(),
    {
        let delimiter = decode_delimiter(config.delimiter.as_str()).as_str().as_bytes_vec();
        SerialHandler { config, debug, delimiter, buffer: Vec::new() }
    }

    /// Takes bytes read from the device and gives the text of the frame that
    /// they complete, if they complete one.
    pub fn feed(&mut self, bytes: &Vec<u8>) -> (frame: Option<String>)
        requires
            old(self).buffer@.len() + bytes@.len() <= MAX_FRAME,
        ensures
            final(self).config == old(self).config,
            final(self).debug == old(self).debug,
            final(self).delimiter == old(self).delimiter,
            final(self).buffer@ == fed(old(self).buffer@, bytes@, old(self).delimiter@).0,
            frame.deep_view() == fed(old(self).buffer@, bytes@, old(self).delimiter@).1,
    {
        if bytes.len() == 0 {
            return None;
        }
        let ghost before = self.buffer@;
        let mut i: usize = 0;
        while i < bytes.len()
            invariant
                i <= bytes.len(),
                self.buffer@ == before + bytes@.subrange(0, i as int),
                self.config == old(self).config,
                self.debug == old(self).debug,
                self.delimiter == old(self).delimiter,
            decreases bytes.len() - i,
        {
            self.buffer.push(bytes[i]);
            i += 1;
            assert(self.buffer@ =~= before + bytes@.subrange(0, i as int));
        }
        assert(bytes@.subrange(0, bytes.len() as int) =~= bytes@);
        if buffer_ends_with(&self.buffer, &self.delimiter) {
            let text = decode_iso_8859_2(self.buffer.as_slice());
            self.buffer.clear();
            Some(text)
        } else {
            None
        }
    }

    /// Makes an alarm of this source, raised at `time`, of the text of a
    /// frame; none where the frame has fewer than three lines.
    pub fn handle_dme_data(&self, data: &str, time: u64) -> (alarm: Option<Alarm>)
        ensures
            alarm matches Some(a) ==> a.receiver.wf(),
            match alarm {
                Some(a) => alarm_of_frame(
                    self.config.name@,
                    data@,
                    self.config.alarm_list.deep_view(),
                    time,
                ) == Some(a@),
                None => alarm_of_frame(
                    self.config.name@,
                    data@,
                    self.config.alarm_list.deep_view(),
                    time,
                ) is None,
            },
    {
        let lines = trimmed_lines(data);
        if lines.len() < 3 {
            return None;
        }
        assert(lines.deep_view()[0] == lines[0]@);
        assert(lines.deep_view()[1] == lines[1]@);
        assert(lines.deep_view()[2] == lines[2]@);
        let content = lines[2].clone();
        let mut alarm = Alarm::new(time);
        alarm.set_origin(self.config.name.clone());
        alarm.set_dme_data(
            DmeData { date: lines[0].clone(), ric: lines[1].clone(), content: lines[2].clone() },
        );
        alarm.set_text(lines[2].clone());
        let ghost untitled = alarm@;
        let keywords = &self.config.alarm_list;
        let ghost all = keywords.deep_view();
        let mut i: usize = 0;
        assert(all.subrange(0, all.len() as int) =~= all);
        while i < keywords.len()
            invariant
                i <= keywords.len(),
                all == keywords.deep_view(),
                all == self.config.alarm_list.deep_view(),
                alarm@ == untitled,
                alarm.receiver.wf(),
                alarm_of_frame(self.config.name@, data@, all, time) == Some(
                    AlarmView { title: title_for(all, content@), ..untitled },
                ),
                title_for(all, content@) == title_for(
                    all.subrange(i as int, all.len() as int),
                    content@,
                ),
            decreases keywords.len() - i,
        {
            let ghost rest = all.subrange(i as int, all.len() as int);
            assert(rest[0] == keywords[i as int]@);
            assert(rest.drop_first() =~= all.subrange(i + 1, all.len() as int));
            if contains_text(content.as_str(), keywords[i].as_str()) {
                alarm.set_title(keywords[i].clone());
                assert(title_for(rest, content@) == rest[0]);
                assert(alarm@.title == title_for(all, content@));
                return Some(alarm);
            }
            i += 1;
        }
        assert(all.subrange(all.len() as int, all.len() as int) =~= Seq::<Seq<char>>::empty());
        Some(alarm)
    }

    /// Takes the outcome of one attempt to read and says how to go on: bytes
    /// that complete a well-formed frame give an alarm to publish, a failure
    /// stops the listener, and everything else means to read again.
    pub fn on_read(&mut self, event: ReadEvent, time: u64) -> (action: SerialAction)
        requires
            event matches ReadEvent::Bytes(bytes) ==> old(self).buffer@.len() + bytes@.len()
                <= MAX_FRAME,
        ensures
            final(self).config == old(self).config,
            final(self).debug == old(self).debug,
            final(self).delimiter == old(self).delimiter,
            match event {
                ReadEvent::Bytes(bytes) => {
                    let next = fed(old(self).buffer@, bytes@, old(self).delimiter@);
                    &&& final(self).buffer@ == next.0
                    &&& match next.1 {
                        Some(data) => match alarm_of_frame(
                            old(self).config.name@,
                            data,
                            old(self).config.alarm_list.deep_view(),
                            time,
                        ) {
                            Some(a) => action matches SerialAction::Publish(made) && made@ == a
                                && made.receiver.wf(),
                            None => action is Continue,
                        },
                        None => action is Continue,
                    }
                },
                ReadEvent::TimedOut => action is Continue && final(self).buffer == old(self).buffer,
                ReadEvent::Failed => action is Stop && final(self).buffer == old(self).buffer,
            },
    {
        match event {
            ReadEvent::Bytes(bytes) => {
                match self.feed(&bytes) {
                    Some(data) => {
                        match self.handle_dme_data(data.as_str(), time) {
                            Some(alarm) => SerialAction::Publish(alarm),
                            None => SerialAction::Continue,
                        }
                    },
                    None => SerialAction::Continue,
                }
            },
            ReadEvent::TimedOut => SerialAction::Continue,
            ReadEvent::Failed => SerialAction::Stop,
        }
    }
}

} // verus!
