//! Platform triples: the token that an asset's file name carries, and how it compares to the
//! host's.

use crate::text::{chars_of, find_char, first_index_from, lemma_first_index_from, matches_at};
use std::str::FromStr;
use target_lexicon::ParseError;
use vstd::prelude::*;
use vstd::string::StrSliceExecFns;

verus! {

/// The three fields of a target triple that decide compatibility, each in the spelling that
/// triples use.
#[derive(Debug, Clone, PartialEq, Eq)]
pub struct PlatformTriple {
    pub architecture: String,
    pub vendor: String,
    pub operating_system: String,
}

/// What a `PlatformTriple` holds.
pub struct TripleModel {
    pub architecture: Seq<char>,
    pub vendor: Seq<char>,
    pub operating_system: Seq<char>,
}

impl View for PlatformTriple {
    type V = TripleModel;

    open spec fn view(&self) -> TripleModel {
        TripleModel {
            architecture: self.architecture@,
            vendor: self.vendor@,
            operating_system: self.operating_system@,
        }
    }
}

/// The field at which the reading of a triple stopped.
#[derive(Debug, Clone, Copy, PartialEq, Eq, Structural)]
pub enum TripleField {
    Architecture,
    Vendor,
    OperatingSystem,
    Environment,
    BinaryFormat,
    Trailing,
}

/// Why a token is no triple: the field that was not recognised, and the text found there.
#[derive(Debug, Clone, PartialEq, Eq)]
pub struct TripleError {
    pub field: TripleField,
    pub part: String,
}

/// What a `TripleError` holds.
pub struct TripleErrorModel {
    pub field: TripleField,
    pub part: Seq<char>,
}

impl View for TripleError {
    type V = TripleErrorModel;

    open spec fn view(&self) -> TripleErrorModel {
        TripleErrorModel { field: self.field, part: self.part@ }
    }
}

/// The outcome of reading a triple, by its contents.
pub open spec fn reading(r: Result<PlatformTriple, TripleError>) -> Result<
    TripleModel,
    TripleErrorModel,
> {
    match r {
        Ok(triple) => Ok(triple@),
        Err(error) => Err(error@),
    }
}

/// What `target_lexicon` makes of a token when it reads it as a triple.
pub uninterp spec fn lexicon_parse(token: Seq<char>) -> Result<TripleModel, TripleErrorModel>;

/// Calls `target_lexicon::Triple::from_str`. The contract names the outcome, which depends on
/// the token alone: the architecture, vendor and operating system of the triple read, each as
/// the crate prints it, or the crate's error.
#[verifier::external_body]
fn lexicon_triple(token: &str) -> (r: Result<PlatformTriple, TripleError>)
    ensures
        reading(r) == lexicon_parse(token@),
{
    match target_lexicon::Triple::from_str(token) {
        Ok(t) => Ok(PlatformTriple {
            architecture: t.architecture.to_string(),
            vendor: t.vendor.to_string(),
            operating_system: t.operating_system.to_string(),
        }),
        Err(ParseError::UnrecognizedArchitecture(part)) => Err(TripleError { field: TripleField::Architecture, part }),
        Err(ParseError::UnrecognizedVendor(part)) => Err(TripleError { field: TripleField::Vendor, part }),
        Err(ParseError::UnrecognizedOperatingSystem(part)) => Err(TripleError { field: TripleField::OperatingSystem, part }),
        Err(ParseError::UnrecognizedEnvironment(part)) => Err(TripleError { field: TripleField::Environment, part }),
        Err(ParseError::UnrecognizedBinaryFormat(part)) => Err(TripleError { field: TripleField::BinaryFormat, part }),
        Err(ParseError::UnrecognizedField(part)) => Err(TripleError { field: TripleField::Trailing, part }),
    }
}

/// A triple as `target_lexicon` reads one: there is a token that it reads as this triple.
pub open spec fn is_lexicon_triple(triple: TripleModel) -> bool {
    exists|token: Seq<char>| #[trigger]
        lexicon_parse(token) == Ok::<TripleModel, TripleErrorModel>(triple)
}

/// Reads `target_lexicon::HOST`, the triple of the machine this was built for. Which triple
/// that is depends on the machine. The crate's build script makes the constant from what
/// `Triple::from_str` reads out of the target's name, so whichever triple it is, the crate
/// reads it from some token.
#[verifier::external_body]
fn lexicon_host() -> (host: PlatformTriple)
    ensures
        is_lexicon_triple(host@),
{
    let host = target_lexicon::HOST;
    PlatformTriple {
        architecture: host.architecture.to_string(),
        vendor: host.vendor.to_string(),
        operating_system: host.operating_system.to_string(),
    }
}

/// `text` without `prefix` at its front, where it starts with it; else `text`.
pub open spec fn without_prefix(text: Seq<char>, prefix: Seq<char>) -> Seq<char> {
    if prefix.is_prefix_of(text) {
        text.skip(prefix.len() as int)
    } else {
        text
    }
}

/// `text` without the version at its front, written bare or behind a `v`; else `text`.
pub open spec fn without_version(text: Seq<char>, version: Seq<char>) -> Seq<char> {
    if version.is_prefix_of(text) {
        text.skip(version.len() as int)
    } else if (seq!['v'] + version).is_prefix_of(text) {
        text.skip(version.len() as int + 1)
    } else {
        text
    }
}

/// `text` up to its first `.`, or all of it where it holds none.
pub open spec fn before_first_dot(text: Seq<char>) -> Seq<char> {
    match first_index_from(text, 0, '.') {
        Some(i) => text.take(i),
        None => text,
    }
}

/// The platform token of an asset's file name: the name without the application's name, a
/// hyphen, the version (bare or behind a `v`) and another hyphen at its front, as far as each
/// stands there in this order, cut at the first `.` of what is left.
pub open spec fn triple_token(app: Seq<char>, version: Seq<char>, asset: Seq<char>) -> Seq<char> {
    before_first_dot(
        without_prefix(
            without_version(without_prefix(without_prefix(asset, app), seq!['-']), version),
            seq!['-'],
        ),
    )
}

/// A name on which none of the stripping steps finds anything to take.
pub open spec fn is_bare_token(app: Seq<char>, version: Seq<char>, token: Seq<char>) -> bool {
    &&& app.len() > 0 ==> !app.is_prefix_of(token)
    &&& version.len() > 0 ==> !version.is_prefix_of(token)
    &&& !version.is_prefix_of(token) ==> !(seq!['v'] + version).is_prefix_of(token)
    &&& !seq!['-'].is_prefix_of(token)
    &&& !token.contains('.')
}

/// Extraction leaves a bare token as it is: applied to its own result it changes nothing,
/// provided the steps find nothing more to take from that result.
pub proof fn lemma_bare_token_is_fixed(app: Seq<char>, version: Seq<char>, token: Seq<char>)
    requires
        is_bare_token(app, version, token),
    ensures
        triple_token(app, version, token) == token,
{
    assert(token.skip(0) =~= token);
    lemma_first_index_from(token, 0, '.');
    if first_index_from(token, 0, '.') is Some {
        let i = first_index_from(token, 0, '.').unwrap();
        assert(token.contains(token[i]));
    }
}

/// The token holds no `.`, and it is a stretch of the asset's name.
pub proof fn lemma_triple_token_shape(app: Seq<char>, version: Seq<char>, asset: Seq<char>)
    ensures
        !triple_token(app, version, asset).contains('.'),
        exists|from: int, to: int|
            0 <= from <= to <= asset.len() && triple_token(app, version, asset)
                == #[trigger] asset.subrange(from, to),
{
    let a = without_prefix(asset, app);
    let b = without_prefix(a, seq!['-']);
    let c = without_version(b, version);
    let d = without_prefix(c, seq!['-']);
    let token = before_first_dot(d);
    let na = asset.len() - a.len();
    let nb = asset.len() - b.len();
    let nc = asset.len() - c.len();
    let nd = asset.len() - d.len();
    assert(a =~= asset.skip(na));
    assert(b =~= asset.skip(nb));
    assert(c =~= asset.skip(nc));
    assert(d =~= asset.skip(nd));
    lemma_first_index_from(d, 0, '.');
    assert(token =~= asset.subrange(nd, nd + token.len()));
    assert forall|k: int| 0 <= k < token.len() implies token[k] != '.' by {
        assert(token[k] == d[k]);
    }
}

/// Whether `prefix` stands in `name` at `start`.
fn starts_at(name: &Vec<char>, start: usize, prefix: &Vec<char>) -> (r: bool)
    requires
        start <= name.len(),
    ensures
        r == prefix@.is_prefix_of(name@.skip(start as int)),
        r ==> start + prefix.len() <= name.len(),
{
    proof {
        if start + prefix.len() <= name.len() {
            assert(name@.skip(start as int).subrange(0, prefix@.len() as int) =~= name@.subrange(
                start as int,
                start + prefix@.len(),
            ));
        }
    }
    matches_at(name, start, prefix)
}

/// The position behind `prefix` where it stands in `name` at `start`, else `start`.
fn skip_prefix(name: &Vec<char>, start: usize, prefix: &Vec<char>) -> (next: usize)
    requires
        start <= name.len(),
    ensures
        start <= next <= name.len(),
        name@.skip(next as int) == without_prefix(name@.skip(start as int), prefix@),
{
    if starts_at(name, start, prefix) {
        assert(name@.skip(start as int).skip(prefix@.len() as int) =~= name@.skip(
            start + prefix@.len(),
        ));
        start + prefix.len()
    } else {
        start
    }
}

/// Cuts the platform token out of an asset's file name.
pub fn take_triple<'a>(app: &str, version: &str, asset: &'a str) -> (token: &'a str)
    ensures
        token@ == triple_token(app@, version@, asset@),
{
    let name = chars_of(asset);
    let app = chars_of(app);
    let version = chars_of(version);
    let mut hyphen: Vec<char> = Vec::new();
    hyphen.push('-');
    assert(hyphen@ =~= seq!['-']);
    let mut v_version: Vec<char> = Vec::new();
    v_version.push('v');
    let mut k: usize = 0;
    while k < version.len()
        invariant
            k <= version.len(),
            v_version@ == seq!['v'] + version@.take(k as int),
        decreases version.len() - k,
    {
        v_version.push(version[k]);
        assert(v_version@ =~= seq!['v'] + version@.take(k + 1));
        k += 1;
    }
    assert(v_version@ =~= seq!['v'] + version@);

    assert(name@.skip(0) =~= name@);
    let after_app = skip_prefix(&name, 0, &app);
    let after_hyphen = skip_prefix(&name, after_app, &hyphen);
    let after_version = if starts_at(&name, after_hyphen, &version) {
        skip_prefix(&name, after_hyphen, &version)
    } else {
        skip_prefix(&name, after_hyphen, &v_version)
    };
    let start = skip_prefix(&name, after_version, &hyphen);
    let end = match find_char(&name, start, '.') {
        Some(i) => i,
        None => name.len(),
    };
    proof {
        lemma_first_index_skip(name@, start as int, start as int, '.');
        lemma_first_index_from(name@, start as int, '.');
        assert(before_first_dot(name@.skip(start as int)) =~= name@.subrange(
            start as int,
            end as int,
        ));
    }
    asset.substring_char(start, end)
}

proof fn lemma_first_index_skip(text: Seq<char>, at: int, from: int, c: char)
    requires
        0 <= at <= from <= text.len(),
    ensures
        first_index_from(text.skip(at), from - at, c) == match first_index_from(text, from, c) {
            Some(i) => Some(i - at),
            None => None,
        },
    decreases text.len() - from,
{
    if from < text.len() {
        assert(text.skip(at)[from - at] == text[from]);
        if text[from] != c {
            lemma_first_index_skip(text, at, from + 1, c);
        }
    }
}

/// Two triples name the same platform: vendor, architecture and operating system agree.
pub open spec fn same_platform(a: TripleModel, b: TripleModel) -> bool {
    &&& a.vendor == b.vendor
    &&& a.architecture == b.architecture
    &&& a.operating_system == b.operating_system
}

/// What was read from an asset's token fits the host: it is a triple, and it names the host's
/// platform. A token that is no triple fits no host.
pub open spec fn compatible(host: TripleModel, parsed: Result<TripleModel, TripleErrorModel>) -> bool {
    match parsed {
        Ok(triple) => same_platform(host, triple),
        Err(_) => false,
    }
}

impl PlatformTriple {
    /// Whether both triples name the same platform.
    pub fn matches(&self, other: &PlatformTriple) -> (r: bool)
        ensures
            r == same_platform(self@, other@),
    {
        self.vendor == other.vendor && self.architecture == other.architecture
            && self.operating_system == other.operating_system
    }
}

/// Reads a token as a platform triple.
pub fn parse_triple(token: &str) -> (r: Result<PlatformTriple, TripleError>)
    ensures
        reading(r) == lexicon_parse(token@),
{
    lexicon_triple(token)
}

/// The triple of the host. It is fixed for the life of the process, and it is one that the
/// reading of tokens can give: an asset can carry it in its name.
pub fn host_triple() -> (host: PlatformTriple)
    ensures
        is_lexicon_triple(host@),
{
    lexicon_host()
}

/// Whether the outcome of reading an asset's token fits `host`.
pub fn matches_host(host: &PlatformTriple, parsed: &Result<PlatformTriple, TripleError>) -> (r:
    bool)
    ensures
        r == compatible(host@, reading(*parsed)),
{
    match parsed {
        Ok(triple) => host.matches(triple),
        Err(_) => false,
    }
}

/// Whether an asset is built for `host`, judged by the token in its file name. An asset whose
/// token is no triple is not.
pub fn is_compatible_with(host: &PlatformTriple, app: &str, version: &str, asset: &str) -> (r:
    bool)
    ensures
        r == compatible(host@, lexicon_parse(triple_token(app@, version@, asset@))),
{
    let parsed = parse_triple(take_triple(app, version, asset));
    matches_host(host, &parsed)
}

/// Whether an asset is built for the machine this runs on. An asset whose token is no triple
/// is not.
pub fn is_compatible(app: &str, version: &str, asset: &str) -> (r: bool)
    ensures
        exists|host: TripleModel|
            r == #[trigger] compatible(
                host,
                lexicon_parse(triple_token(app@, version@, asset@)),
            ),
        lexicon_parse(triple_token(app@, version@, asset@)) is Err ==> !r,
{
    let host = host_triple();
    let r = is_compatible_with(&host, app, version, asset);
    assert(r == compatible(host@, lexicon_parse(triple_token(app@, version@, asset@))));
    r
}

/// A triple is compatible with itself, and compatibility does not depend on which of the two
/// triples is taken for the host.
pub proof fn lemma_same_platform_reflexive_symmetric(a: TripleModel, b: TripleModel)
    ensures
        same_platform(a, a),
        same_platform(a, b) == same_platform(b, a),
{
}

/// A token that reads as the host's own triple is compatible with the host, whatever else the
/// two triples hold.
pub proof fn lemma_own_triple_compatible(
    host: TripleModel,
    parsed: Result<TripleModel, TripleErrorModel>,
)
    requires
        parsed == Ok::<TripleModel, TripleErrorModel>(host),
    ensures
        compatible(host, parsed),
{
}

/// A token whose triple differs from the host's in the vendor, the architecture or the operating
/// system is not compatible with the host, and neither is a token that is no triple.
pub proof fn lemma_differing_triple_incompatible(
    host: TripleModel,
    parsed: Result<TripleModel, TripleErrorModel>,
)
    requires
        match parsed {
            Ok(triple) => triple.vendor != host.vendor || triple.architecture != host.architecture
                || triple.operating_system != host.operating_system,
            Err(_) => true,
        },
    ensures
        !compatible(host, parsed),
{
}

} // verus!
