use vstd::prelude::*;
use vstd::string::*;
use vstd::utf8::encode_utf8;
use crate::decimal::{parse_port, port_of_text};
use crate::error::{Error, ErrorView};
use crate::fetch::{start, start_spec, Action, Fetch};

verus! {

/// The port a Gopher server listens on unless the address says otherwise.
pub const DEFAULT_PORT: u16 = 70;

/// The scheme prefix assumed when an address names none.
pub open spec fn scheme_prefix() -> Seq<char> {
    "gopher://"@
}

/// The two bytes that end a request line: carriage return, line feed.
pub open spec fn line_end() -> Seq<u8> {
    seq![13u8, 10u8]
}

/// The request line for `selector` as it goes over the wire.
pub open spec fn request_line(selector: Seq<char>) -> Seq<u8> {
    encode_utf8(selector) + line_end()
}

/// Builds the request line: the selector's UTF-8 bytes followed by CR LF.
pub fn create_msg(path: &String) -> (msg: Vec<u8>)
    ensures
        msg@ == request_line(path@),
{
    let mut msg = path.as_str().as_bytes_vec();
    msg.push(13u8);
    msg.push(10u8);
    msg
}

/// Puts the canonical scheme in front of an address that has none.
pub fn add_schema(address: String) -> (schemed: String)
    ensures
        schemed@ == scheme_prefix() + address@,
{
    String::from_str("gopher://").concat(address.as_str())
}

/// The target of a request: where to connect and what to ask for.
#[derive(Debug, Clone, PartialEq)]
pub struct LocalUrl {
    pub schema: String,
    pub domain: String,
    pub port: u16,
    pub path: String,
}

/// A [`LocalUrl`] with its strings as character sequences.
pub struct LocalUrlView {
    pub schema: Seq<char>,
    pub domain: Seq<char>,
    pub port: u16,
    pub path: Seq<char>,
}

impl View for LocalUrl {
    type V = LocalUrlView;

    open spec fn view(&self) -> LocalUrlView {
        LocalUrlView {
            schema: self.schema@,
            domain: self.domain@,
            port: self.port,
            path: self.path@,
        }
    }
}

impl LocalUrlView {
    /// What holds of every target that normalisation hands out: it carries the
    /// canonical scheme, names a host, and spells the root selector as the
    /// empty string, never as `/`.
    pub open spec fn well_formed(self) -> bool {
        &&& self.schema == scheme_prefix()
        &&& self.domain.len() > 0
        &&& self.path != "/"@
    }
}

impl Default for LocalUrl {
    /// The template that normalisation fills in: canonical scheme, default
    /// port, no host yet and the root selector.
    fn default() -> (url: LocalUrl)
        ensures
            url@ == (LocalUrlView {
                schema: scheme_prefix(),
                domain: Seq::empty(),
                port: DEFAULT_PORT,
                path: Seq::empty(),
            }),
    {
        LocalUrl {
            schema: String::from_str("gopher://"),
            domain: String::new(),
            port: DEFAULT_PORT,
            path: String::new(),
        }
    }
}

/// What a URL parser exposes of an absolute URL, as plain values.
#[derive(Debug, Clone, PartialEq)]
pub struct UrlParts {
    /// The host, if there is one and it is a domain name.
    pub domain: Option<String>,
    /// The host in text form, if there is one: a domain name or an IP literal.
    pub host: Option<String>,
    /// The port, if the URL gives one that is not its scheme's default.
    pub port: Option<u16>,
    /// The path; for a URL without authority, all that follows the scheme.
    pub path: String,
}

/// [`UrlParts`] with its strings as character sequences.
pub struct UrlPartsView {
    pub domain: Option<Seq<char>>,
    pub host: Option<Seq<char>>,
    pub port: Option<u16>,
    pub path: Seq<char>,
}

/// The characters of an optional string.
pub open spec fn text_view(text: Option<String>) -> Option<Seq<char>> {
    match text {
        Some(t) => Some(t@),
        None => None,
    }
}

impl View for UrlParts {
    type V = UrlPartsView;

    open spec fn view(&self) -> UrlPartsView {
        UrlPartsView {
            domain: text_view(self.domain),
            host: text_view(self.host),
            port: self.port,
            path: self.path@,
        }
    }
}

/// How one attempt to parse text as an absolute URL ended.
#[derive(Debug, Clone, PartialEq)]
pub enum ParseOutcome {
    /// The text is an absolute URL with these parts.
    Absolute(UrlParts),
    /// The text has no scheme, so it could only be a relative reference.
    RelativeWithoutBase,
    /// The text is no URL for any other reason.
    Invalid,
}

/// A [`ParseOutcome`] with its strings as character sequences.
pub enum ParseOutcomeView {
    Absolute(UrlPartsView),
    RelativeWithoutBase,
    Invalid,
}

impl View for ParseOutcome {
    type V = ParseOutcomeView;

    open spec fn view(&self) -> ParseOutcomeView {
        match *self {
            ParseOutcome::Absolute(parts) => ParseOutcomeView::Absolute(parts@),
            ParseOutcome::RelativeWithoutBase => ParseOutcomeView::RelativeWithoutBase,
            ParseOutcome::Invalid => ParseOutcomeView::Invalid,
        }
    }
}

/// What one parse attempt means for normalisation.
#[derive(Debug, Clone, PartialEq)]
pub enum Attempt {
    /// The address names this target.
    Target(LocalUrl),
    /// The address has to be parsed again with the canonical scheme in front.
    Reparse,
    /// The address is to be refused.
    Reject,
}

/// An [`Attempt`] with its strings as character sequences.
pub enum AttemptView {
    Target(LocalUrlView),
    Reparse,
    Reject,
}

impl View for Attempt {
    type V = AttemptView;

    open spec fn view(&self) -> AttemptView {
        match *self {
            Attempt::Target(url) => AttemptView::Target(url@),
            Attempt::Reparse => AttemptView::Reparse,
            Attempt::Reject => AttemptView::Reject,
        }
    }
}

/// The host that a URL names: its domain if there is one, else its host
/// text. An empty string names no host.
pub open spec fn named_host(domain: Option<Seq<char>>, host: Option<Seq<char>>) -> Option<
    Seq<char>,
> {
    if domain is Some && domain->0.len() > 0 {
        domain
    } else if host is Some && host->0.len() > 0 {
        host
    } else {
        None
    }
}

/// The selector for a parsed path: the path itself, except that the root
/// path `/` becomes the empty selector.
pub open spec fn selector_of(path: Seq<char>) -> Seq<char> {
    if path == "/"@ {
        Seq::empty()
    } else {
        path
    }
}

/// The port to connect to: the one given, else the default.
pub open spec fn port_or_default(port: Option<u16>) -> u16 {
    match port {
        Some(p) => p,
        None => DEFAULT_PORT,
    }
}

/// What to do with a URL that has no host: if its path spells a port, the
/// address was `host:port` without a scheme and is parsed again; otherwise it
/// is refused.
pub open spec fn hostless_reading(path: Seq<char>) -> AttemptView {
    if port_of_text(path) is Some {
        AttemptView::Reparse
    } else {
        AttemptView::Reject
    }
}

/// What the parts of an absolute URL mean for normalisation.
pub open spec fn reading(parts: UrlPartsView) -> AttemptView {
    match named_host(parts.domain, parts.host) {
        Some(host) => AttemptView::Target(
            LocalUrlView {
                schema: scheme_prefix(),
                domain: host,
                port: port_or_default(parts.port),
                path: selector_of(parts.path),
            },
        ),
        None => hostless_reading(parts.path),
    }
}

/// What the outcome of one parse attempt means for normalisation.
pub open spec fn attempt_of(outcome: ParseOutcomeView) -> AttemptView {
    match outcome {
        ParseOutcomeView::Absolute(parts) => reading(parts),
        ParseOutcomeView::RelativeWithoutBase => AttemptView::Reparse,
        ParseOutcomeView::Invalid => AttemptView::Reject,
    }
}

/// Every target that a parse attempt yields is well formed: it names a host
/// and never spells the root selector as `/`.
pub proof fn lemma_target_well_formed(outcome: ParseOutcomeView)
    ensures
        attempt_of(outcome) matches AttemptView::Target(url) ==> url.well_formed(),
{
    reveal_strlit("/");
}

/// Decides for a URL without host between a second parse and refusal.
pub fn handle_url_without_schema_but_with_port(path: &String) -> (attempt: Attempt)
    ensures
        attempt@ == hostless_reading(path@),
{
    match parse_port(path.as_str()) {
        Some(_) => Attempt::Reparse,
        None => Attempt::Reject,
    }
}

/// Whether `path` is the root path `/`.
fn is_root_path(path: &String) -> (root: bool)
    ensures
        root == (path@ == "/"@),
{
    proof {
        reveal_strlit("/");
    }
    let text = path.as_str();
    if text.unicode_len() == 1 {
        let root = text.get_char(0) == '/';
        assert(root == (path@ =~= "/"@));
        root
    } else {
        false
    }
}

/// The host among the parts, taken out of them, as [`named_host`] defines it.
fn take_host(domain: Option<String>, host: Option<String>) -> (named: Option<String>)
    ensures
        text_view(named) == named_host(text_view(domain), text_view(host)),
{
    if let Some(d) = domain {
        if !d.as_str().is_empty() {
            return Some(d);
        }
    }
    if let Some(h) = host {
        if !h.as_str().is_empty() {
            return Some(h);
        }
    }
    None
}

/// Reads the outcome of one parse attempt: a target where the URL names a
/// host, a second parse where the scheme is missing, refusal otherwise.
pub fn read_outcome(outcome: ParseOutcome) -> (attempt: Attempt)
    ensures
        attempt@ == attempt_of(outcome@),
{
    match outcome {
        ParseOutcome::Absolute(parts) => {
            let UrlParts { domain, host, port, path } = parts;
            match take_host(domain, host) {
                Some(named) => {
                    let mut target = LocalUrl::default();
                    target.domain = named;
                    if let Some(p) = port {
                        target.port = p;
                    }
                    if !is_root_path(&path) {
                        target.path = path;
                    }
                    Attempt::Target(target)
                },
                None => handle_url_without_schema_but_with_port(&path),
            }
        },
        ParseOutcome::RelativeWithoutBase => Attempt::Reparse,
        ParseOutcome::Invalid => Attempt::Reject,
    }
}

/// What `url::Url::parse` makes of `input`: whether it is an absolute URL,
/// and if so its domain, host text, port and path.
pub uninterp spec fn url_parse(input: Seq<char>) -> ParseOutcomeView;

/// Parses `input` with `url::Url::parse` and copies out what normalisation
/// reads of the result: `domain()`, `host_str()`, `port()` and `path()` of a
/// URL, or which kind of error came back. The contract claims no more than
/// that the parser returns and that equal text always gives the equal
/// outcome, which the name [`url_parse`] stands for.
#[verifier::external_body]
fn parse_absolute(input: &str) -> (outcome: ParseOutcome)
    ensures
        outcome@ == url_parse(input@),
{
    match url::Url::parse(input) {
        Ok(parsed) => ParseOutcome::Absolute(
            UrlParts {
                domain: parsed.domain().map(String::from),
                host: parsed.host_str().map(String::from),
                port: parsed.port(),
                path: String::from(parsed.path()),
            },
        ),
        Err(url::ParseError::RelativeUrlWithoutBase) => ParseOutcome::RelativeWithoutBase,
        Err(_) => ParseOutcome::Invalid,
    }
}

/// Where normalisation stands after the first parse attempt.
#[derive(Debug, PartialEq)]
pub enum FirstStep {
    /// Normalisation is over, with this result.
    Done(Result<LocalUrl, Error>),
    /// This text, the address behind the canonical scheme, is to be parsed next.
    Retry(String),
}

/// A [`FirstStep`] with its strings as character sequences.
pub enum FirstStepView {
    Done(Result<LocalUrlView, ErrorView>),
    Retry(Seq<char>),
}

/// A normalisation result with its strings as character sequences.
pub open spec fn result_view(result: Result<LocalUrl, Error>) -> Result<LocalUrlView, ErrorView> {
    match result {
        Ok(url) => Ok(url@),
        Err(error) => Err(error@),
    }
}

impl View for FirstStep {
    type V = FirstStepView;

    open spec fn view(&self) -> FirstStepView {
        match *self {
            FirstStep::Done(result) => FirstStepView::Done(result_view(result)),
            FirstStep::Retry(schemed) => FirstStepView::Retry(schemed@),
        }
    }
}

/// The step that follows the first parse attempt, made on the address as
/// given: its target, its refusal, or one more attempt with the scheme added.
pub open spec fn first_step(address: Seq<char>, outcome: ParseOutcomeView) -> FirstStepView {
    match attempt_of(outcome) {
        AttemptView::Target(url) => FirstStepView::Done(Ok(url)),
        AttemptView::Reject => FirstStepView::Done(Err(ErrorView::ParseUrl(address))),
        AttemptView::Reparse => FirstStepView::Retry(scheme_prefix() + address),
    }
}

/// The result of the second parse attempt, made on the address with the
/// scheme added: its target, or refusal of that text. There is no third.
pub open spec fn second_step(schemed: Seq<char>, outcome: ParseOutcomeView) -> Result<
    LocalUrlView,
    ErrorView,
> {
    match attempt_of(outcome) {
        AttemptView::Target(url) => Ok(url),
        _ => Err(ErrorView::ParseUrl(schemed)),
    }
}

/// The target that an address normalises to, or the refusal it ends in, given
/// what the parser makes of the address and of the address with the scheme
/// added.
pub open spec fn normalized(
    address: Seq<char>,
    first: ParseOutcomeView,
    second: ParseOutcomeView,
) -> Result<LocalUrlView, ErrorView> {
    match first_step(address, first) {
        FirstStepView::Done(result) => result,
        FirstStepView::Retry(schemed) => second_step(schemed, second),
    }
}

/// Decides what follows the first parse attempt of `address`.
pub fn first_attempt(address: String, outcome: ParseOutcome) -> (step: FirstStep)
    ensures
        step@ == first_step(address@, outcome@),
{
    match read_outcome(outcome) {
        Attempt::Target(url) => FirstStep::Done(Ok(url)),
        Attempt::Reject => FirstStep::Done(Err(Error::ParseUrl(address))),
        Attempt::Reparse => FirstStep::Retry(add_schema(address)),
    }
}

/// Decides the result of the second parse attempt, made on `schemed`.
pub fn second_attempt(schemed: String, outcome: ParseOutcome) -> (result: Result<LocalUrl, Error>)
    ensures
        result_view(result) == second_step(schemed@, outcome@),
{
    match read_outcome(outcome) {
        Attempt::Target(url) => Ok(url),
        _ => Err(Error::ParseUrl(schemed)),
    }
}

/// Normalises an address into a request target.
///
/// The address is parsed as an absolute URL. Without a scheme, or where the
/// parser took `host:port` for a scheme and a path, it is parsed once more
/// behind the canonical scheme. A refusal carries the text whose parse was
/// refused: the address itself, or the address with the scheme added.
pub fn parse_url(address: String) -> (result: Result<LocalUrl, Error>)
    ensures
        result_view(result) == normalized(
            address@,
            url_parse(address@),
            url_parse(scheme_prefix() + address@),
        ),
        result matches Ok(url) ==> url@.well_formed(),
{
    let outcome = parse_absolute(address.as_str());
    proof {
        lemma_target_well_formed(outcome@);
    }
    match first_attempt(address, outcome) {
        FirstStep::Done(result) => result,
        FirstStep::Retry(schemed) => {
            let outcome = parse_absolute(schemed.as_str());
            proof {
                lemma_target_well_formed(outcome@);
            }
            second_attempt(schemed, outcome)
        },
    }
}

/// Begins the fetch of `address`: normalises it and says what to do first,
/// which is to resolve the target's host, or to stop where the address is
/// refused. [`crate::fetch::step`] takes the fetch on from there.
pub fn get(address: String) -> (begun: (Fetch, Action))
    ensures
        (begun.0@, begun.1@) == start_spec(
            normalized(address@, url_parse(address@), url_parse(scheme_prefix() + address@)),
        ),
{
    start(parse_url(address))
}

} // verus!
