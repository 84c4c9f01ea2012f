//! The units of text that a corpus yields: title lines and article bodies.

use crate::encoding::LegacyEncoding;
use crate::evaluate::synthesize_chars;
use crate::evaluate::synthesized;
use crate::table::FastEncoder;
use crate::text::chars_of;
use crate::transcode::is_ascii_bytes;
use regex::Regex;
use vstd::prelude::*;
use vstd::string::StringExecFns;

verus! {

/// A compiled regular expression of `regex`. What the library knows of one
/// is the pattern that it was compiled from.
#[verifier::external_type_specification]
#[verifier::external_body]
pub struct ExRegex(Regex);

/// The reason for which `regex` refuses a pattern.
#[verifier::external_type_specification]
#[verifier::external_body]
pub struct ExRegexError(regex::Error);

/// Whether `regex` accepts a pattern: its syntax is valid and the compiled
/// expression stays within the default size limit.
pub uninterp spec fn pattern_compiles(pattern: Seq<char>) -> bool;

/// The pattern that a regular expression was compiled from.
pub uninterp spec fn regex_pattern(regex: Regex) -> Seq<char>;

/// Whether the regular expression compiled from `pattern` has a match
/// somewhere in `text`.
pub uninterp spec fn pattern_matches(pattern: Seq<char>, text: Seq<char>) -> bool;

/// `Regex::new`: a regular expression compiled from the pattern, or the
/// reason for which the pattern is refused.
#[verifier::external_body]
pub(crate) fn compile(pattern: &str) -> (compiled: Result<Regex, regex::Error>)
    ensures
        compiled is Ok <==> pattern_compiles(pattern@),
        compiled matches Ok(regex) ==> regex_pattern(regex) == pattern@,
{
    Regex::new(pattern)
}

/// `Regex::is_match` on the text as a string: whether there is a match, a
/// function of the pattern and the text.
#[verifier::external_body]
pub(crate) fn is_match(regex: &Regex, text: &Vec<char>) -> (found: bool)
    ensures
        found == pattern_matches(regex_pattern(*regex), text@),
{
    let string: String = text.iter().collect();
    regex.is_match(&string)
}

/// The pattern of a title that names a page outside the articles: an
/// optional pair of joiners, letters, a colon, letters.
pub open spec fn title_pattern() -> Seq<char> {
    "^(?:\\u{200D}\\u{200C})?\\p{Alphabetic}+:\\p{Alphabetic}+$"@
}

/// The smallest article that is used as a sample is longer than this many
/// bytes of UTF-8.
pub const ARTICLE_MIN_BYTES: usize = 6000;

/// The filter that keeps titles outside the articles out of the samples.
pub struct TitleFilter {
    special: Regex,
}

/// A line without the line feed that ends it.
pub open spec fn line_text(line: Seq<char>) -> Seq<char> {
    if line.len() > 0 && line.last() == '\n' {
        line.drop_last()
    } else {
        line
    }
}

/// The bytes synthesized for a line of a title corpus, or `None` where the
/// line is filtered out or rejected.
pub open spec fn title_bytes(line: Seq<char>, encoding: LegacyEncoding, orthographic: bool) -> Option<
    Seq<u8>,
> {
    if pattern_matches(title_pattern(), line_text(line)) {
        None
    } else {
        synthesized(line_text(line), encoding, orthographic)
    }
}

impl TitleFilter {
    /// The filter holds the expression of `title_pattern`.
    pub closed spec fn wf(&self) -> bool {
        regex_pattern(self.special) == title_pattern()
    }

    /// Compiles the filter; `None` where the pattern is refused.
    pub fn new() -> (filter: Option<TitleFilter>)
        ensures
            filter is Some <==> pattern_compiles(title_pattern()),
            filter matches Some(f) ==> f.wf(),
    {
        match compile("^(?:\\u{200D}\\u{200C})?\\p{Alphabetic}+:\\p{Alphabetic}+$") {
            Ok(special) => Some(TitleFilter { special }),
            Err(_) => None,
        }
    }

    /// Whether a title names a page outside the articles.
    pub fn is_special(&self, title: &Vec<char>) -> (special: bool)
        requires
            self.wf(),
        ensures
            special == pattern_matches(title_pattern(), title@),
    {
        is_match(&self.special, title)
    }

    /// Synthesizes the bytes of one line of a title corpus. The line feed
    /// at its end, if any, is no part of the sample. A title outside the
    /// articles gives no sample, nor does a line that `synthesize` rejects
    /// or drops.
    pub fn title_sample(
        &self,
        line: &str,
        encoding: LegacyEncoding,
        orthographic: bool,
        fast_encoder: &FastEncoder,
    ) -> (bytes: Option<Vec<u8>>)
        requires
            self.wf(),
            fast_encoder.wf(),
        ensures
            bytes is Some <==> title_bytes(line@, encoding, orthographic) is Some,
            bytes matches Some(b) ==> title_bytes(line@, encoding, orthographic) == Some(b@),
            bytes matches Some(b) ==> !is_ascii_bytes(b@),
    {
        let mut text = chars_of(line);
        let n = text.len();
        if n > 0 && text[n - 1] == '\n' {
            text.pop();
        }
        assert(text@ =~= line_text(line@));
        if self.is_special(&text) {
            return None;
        }
        synthesize_chars(&text, encoding, orthographic, fast_encoder)
    }
}

/// What a reader of an article dump reports, as far as the scan depends on
/// it.
pub enum ArticleEvent<'a> {
    /// An element with the given name opens.
    Start(&'a [u8]),
    /// An element with the given name closes.
    End(&'a [u8]),
    /// Character data, unescaped.
    Text(&'a str),
    /// The dump has ended.
    Eof,
    /// Anything else.
    Other,
}

/// What the scan asks for after an event.
pub enum ScanAction {
    /// Read the next event.
    Continue,
    /// Use the article body as a sample, then read the next event.
    Sample(String),
    /// Stop reading.
    Stop,
}

/// A dump in which the body elements do not pair up.
#[derive(Clone, Copy, Debug, PartialEq, Eq, Structural)]
pub enum ScanError {
    /// A body opens inside a body.
    NestedBody,
    /// A body closes that was not opened.
    UnopenedBody,
}

/// The name of the element that holds an article body.
pub open spec fn body_tag() -> Seq<u8> {
    seq![0x74u8, 0x65u8, 0x78u8, 0x74u8]
}

/// Whether `name` is the name of the element that holds an article body.
pub fn is_body_tag(name: &[u8]) -> (body: bool)
    ensures
        body == (name@ == body_tag()),
{
    let body = name.len() == 4 && name[0] == 0x74 && name[1] == 0x65 && name[2] == 0x78 && name[3]
        == 0x74;
    assert(body == (name@ =~= body_tag()));
    body
}

/// The scan of an article dump for article bodies: whether a body is open,
/// and the character data gathered in it.
pub struct ArticleScanner {
    text_open: bool,
    text: String,
}

/// The state of a scan as a value.
pub struct ScanState {
    pub open: bool,
    pub text: Seq<char>,
}

/// The view of an event.
pub enum EventModel {
    Start(Seq<u8>),
    End(Seq<u8>),
    Text(Seq<char>),
    Eof,
    Other,
}

/// The view of an action.
pub enum ActionModel {
    Continue,
    Sample(Seq<char>),
    Stop,
}

impl<'a> View for ArticleEvent<'a> {
    type V = EventModel;

    open spec fn view(&self) -> EventModel {
        match self {
            ArticleEvent::Start(name) => EventModel::Start(name@),
            ArticleEvent::End(name) => EventModel::End(name@),
            ArticleEvent::Text(text) => EventModel::Text(text@),
            ArticleEvent::Eof => EventModel::Eof,
            ArticleEvent::Other => EventModel::Other,
        }
    }
}

impl View for ScanAction {
    type V = ActionModel;

    open spec fn view(&self) -> ActionModel {
        match self {
            ScanAction::Continue => ActionModel::Continue,
            ScanAction::Sample(text) => ActionModel::Sample(text@),
            ScanAction::Stop => ActionModel::Stop,
        }
    }
}

impl View for ArticleScanner {
    type V = ScanState;

    closed spec fn view(&self) -> ScanState {
        ScanState { open: self.text_open, text: self.text@ }
    }
}

/// Whether a body is long enough to serve as a sample: longer than
/// `ARTICLE_MIN_BYTES` bytes of UTF-8.
pub open spec fn long_enough(text: Seq<char>) -> bool {
    vstd::utf8::encode_utf8(text).len() > ARTICLE_MIN_BYTES
}

/// The state after an event and the action that it asks for, or the error
/// of a dump whose body elements do not pair up.
pub open spec fn scan_step(state: ScanState, event: EventModel) -> Result<
    (ScanState, ActionModel),
    ScanError,
> {
    let empty = Seq::<char>::empty();
    match event {
        EventModel::Start(name) => if name != body_tag() {
            Ok((state, ActionModel::Continue))
        } else if state.open {
            Err(ScanError::NestedBody)
        } else {
            Ok((ScanState { open: true, text: empty }, ActionModel::Continue))
        },
        EventModel::End(name) => if name != body_tag() {
            Ok((state, ActionModel::Continue))
        } else if !state.open {
            Err(ScanError::UnopenedBody)
        } else if long_enough(state.text) {
            Ok((ScanState { open: false, text: empty }, ActionModel::Sample(state.text)))
        } else {
            Ok((ScanState { open: false, text: empty }, ActionModel::Continue))
        },
        EventModel::Text(text) => if state.open {
            Ok((ScanState { open: true, text: state.text + text }, ActionModel::Continue))
        } else {
            Ok((state, ActionModel::Continue))
        },
        EventModel::Eof => Ok((state, ActionModel::Stop)),
        EventModel::Other => Ok((state, ActionModel::Continue)),
    }
}

impl ArticleScanner {
    /// A scan at the start of a dump: no body is open.
    pub fn new() -> (scanner: ArticleScanner)
        ensures
            scanner@ == (ScanState { open: false, text: Seq::<char>::empty() }),
    {
        ArticleScanner { text_open: false, text: String::new() }
    }

    /// Takes one event of the dump. On an error the scan is left as it was.
    pub fn step(&mut self, event: &ArticleEvent) -> (action: Result<ScanAction, ScanError>)
        ensures
            action is Ok <==> scan_step(old(self)@, event@) is Ok,
            action matches Ok(a) ==> scan_step(old(self)@, event@) == Ok::<
                (ScanState, ActionModel),
                ScanError,
            >((final(self)@, a@)),
            action matches Err(e) ==> scan_step(old(self)@, event@) == Err::<
                (ScanState, ActionModel),
                ScanError,
            >(e) && final(self)@ == old(self)@,
    {
        match event {
            ArticleEvent::Start(name) => {
                if !is_body_tag(name) {
                    Ok(ScanAction::Continue)
                } else if self.text_open {
                    Err(ScanError::NestedBody)
                } else {
                    self.text_open = true;
                    self.text = String::new();
                    Ok(ScanAction::Continue)
                }
            },
            ArticleEvent::End(name) => {
                if !is_body_tag(name) {
                    Ok(ScanAction::Continue)
                } else if !self.text_open {
                    Err(ScanError::UnopenedBody)
                } else {
                    self.text_open = false;
                    let mut body = String::new();
                    core::mem::swap(&mut self.text, &mut body);
                    if body.as_str().as_bytes().len() > ARTICLE_MIN_BYTES {
                        Ok(ScanAction::Sample(body))
                    } else {
                        Ok(ScanAction::Continue)
                    }
                }
            },
            ArticleEvent::Text(text) => {
                if self.text_open {
                    self.text.append(text);
                }
                Ok(ScanAction::Continue)
            },
            ArticleEvent::Eof => Ok(ScanAction::Stop),
            ArticleEvent::Other => Ok(ScanAction::Continue),
        }
    }
}

} // verus!
